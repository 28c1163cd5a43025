//! The data model: frame types, and the values that travel in frames.

use vstd::prelude::*;
use vstd::std_specs::convert::FromSpecImpl;
use vstd::std_specs::convert::TryFromSpecImpl;
use crate::error::Error;

verus! {

/// The kinds of frame. The remote framing opens every frame with the kind's numeric tag; the
/// local framing marks only device-to-host frames, with a three-letter token.
#[derive(Debug, Clone, Copy, PartialEq, Eq, Structural)]
pub enum DataType {
    Command,
    Response,
    Packet,
    KeepAlive,
}

impl DataType {
    /// The numeric tag of a frame type in the remote framing.
    pub open spec fn tag(self) -> u32 {
        match self {
            DataType::Command => 1,
            DataType::Response => 2,
            DataType::Packet => 3,
            DataType::KeepAlive => 0xCAFE_BEEF,
        }
    }

    /// The frame type that a numeric tag names, if it names one.
    pub open spec fn of_tag(tag: u32) -> Option<DataType> {
        if tag == 1 {
            Some(DataType::Command)
        } else if tag == 2 {
            Some(DataType::Response)
        } else if tag == 3 {
            Some(DataType::Packet)
        } else if tag == 0xCAFE_BEEF {
            Some(DataType::KeepAlive)
        } else {
            None
        }
    }

    /// Every frame type is found again from its tag.
    pub proof fn lemma_tag_round_trip(self)
        ensures
            DataType::of_tag(self.tag()) == Some(self),
    {
    }

    /// A tag that names a frame type is that type's tag, so no two types share one.
    pub proof fn lemma_of_tag_is_tag(tag: u32)
        ensures
            DataType::of_tag(tag) matches Some(t) ==> t.tag() == tag,
    {
    }
}

impl From<DataType> for u32 {
    fn from(value: DataType) -> (tag: u32) {
        match value {
            DataType::Command => 1,
            DataType::Response => 2,
            DataType::Packet => 3,
            DataType::KeepAlive => 0xCAFE_BEEF,
        }
    }
}

impl FromSpecImpl<DataType> for u32 {
    open spec fn obeys_from_spec() -> bool {
        true
    }

    open spec fn from_spec(value: DataType) -> u32 {
        value.tag()
    }
}

impl TryFrom<u32> for DataType {
    type Error = Error;

    fn try_from(value: u32) -> (r: Result<DataType, Error>) {
        if value == 1 {
            Ok(DataType::Command)
        } else if value == 2 {
            Ok(DataType::Response)
        } else if value == 3 {
            Ok(DataType::Packet)
        } else if value == 0xCAFE_BEEF {
            Ok(DataType::KeepAlive)
        } else {
            Err(Error::UnknownDataType)
        }
    }
}

impl TryFromSpecImpl<u32> for DataType {
    open spec fn obeys_try_from_spec() -> bool {
        true
    }

    open spec fn try_from_spec(value: u32) -> Result<DataType, Error> {
        match DataType::of_tag(value) {
            Some(t) => Ok(t),
            None => Err(Error::UnknownDataType),
        }
    }
}

/// A request to the device. The caller builds it; the link only sends it.
#[derive(Debug, Clone, PartialEq, Eq)]
pub struct Command {
    pub id: u8,
    pub args: [u32; 2],
    pub data: Vec<u8>,
}

/// The device's reply to one command.
#[derive(Debug, Clone, PartialEq, Eq)]
pub struct Response {
    pub id: u8,
    pub data: Vec<u8>,
    pub error: bool,
}

/// Data that the device sends on its own, between or before responses.
#[derive(Debug, Clone, PartialEq, Eq)]
pub struct Packet {
    pub id: u8,
    pub data: Vec<u8>,
}

} // verus!
