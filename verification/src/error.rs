//! Failures of the link layer and of the channel beneath it.

use vstd::prelude::*;
use vstd::string::StringExecFns;

verus! {

/// The ways a raw channel operation can fail, as far as the link layer tells them apart.
#[derive(Debug, Clone, Copy, PartialEq, Eq, Structural)]
pub enum IoErrorKind {
    /// The operation was interrupted before it moved any data.
    Interrupted,
    /// The poll timeout ran out before any data arrived.
    TimedOut,
    /// The channel has nothing to offer right now.
    WouldBlock,
    /// Any other failure: the channel is broken or gone.
    Other,
}

impl IoErrorKind {
    /// A transient failure leaves the channel usable: the same operation may be tried again.
    pub open spec fn transient(self) -> bool {
        self != IoErrorKind::Other
    }

    pub fn is_transient(self) -> (r: bool)
        ensures
            r == self.transient(),
    {
        match self {
            IoErrorKind::Interrupted => true,
            IoErrorKind::TimedOut => true,
            IoErrorKind::WouldBlock => true,
            IoErrorKind::Other => false,
        }
    }
}

/// A failed raw channel operation.
#[derive(Debug, Clone, PartialEq, Eq)]
pub struct IoError {
    pub kind: IoErrorKind,
    pub message: String,
}

/// Every failure the link layer reports.
#[derive(Debug, PartialEq, Eq)]
pub enum Error {
    /// A raw channel operation failed for good.
    Io(IoError),
    /// A numeric tag names no frame type.
    UnknownDataType,
    /// The channel reported its end while a read was unfinished.
    UnexpectedEndOfStream,
    /// A read did not complete within its deadline.
    ReadTimeout,
    /// A read that had to deliver data delivered none.
    UnexpectedEndOfData,
    /// A frame of the local framing began with an unknown token.
    UnknownResponseToken,
    /// A frame of the remote framing had a type the host never receives.
    UnexpectedPayloadType,
    /// The channel still delivered stale input when the time for purging it was over.
    PurgeTimeout,
    /// The status signal did not turn ready in time after the control signal was asserted.
    ResetOn,
    /// The status signal did not turn idle in time after the control signal was released.
    ResetOff,
    /// A port name began with no known prefix.
    InvalidPortPrefix,
    /// The response answered another command than the one sent.
    ResponseIdMismatch,
    /// The command failed: the device flagged its response as an error (no cause), or no
    /// response could be decoded (the cause says why).
    CommandResponse(Option<Box<Error>>),
    /// The wait for a response ended without one.
    NoResponse,
    /// A response arrived while only packets were expected.
    UnexpectedResponse,
    /// Enumeration found no matching device.
    NoDevicesFound,
}

impl Error {
    /// The failure in words.
    pub open spec fn text(self) -> Seq<char>
        decreases self,
    {
        match self {
            Error::Io(e) => e.message@,
            Error::UnknownDataType => "Unknown data type"@,
            Error::UnexpectedEndOfStream => "Unexpected end of stream data"@,
            Error::ReadTimeout => "Read timeout"@,
            Error::UnexpectedEndOfData => "Unexpected end of data"@,
            Error::UnknownResponseToken => "Unknown response token"@,
            Error::UnexpectedPayloadType => "Unexpected payload data type received"@,
            Error::PurgeTimeout => "SC64 read buffer flush took too long"@,
            Error::ResetOn => "Couldn't reset SC64 device (on)"@,
            Error::ResetOff => "Couldn't reset SC64 device (off)"@,
            Error::InvalidPortPrefix => "Invalid port prefix provided"@,
            Error::ResponseIdMismatch => "Command response ID didn't match"@,
            Error::CommandResponse(None) => "Command response error"@,
            Error::CommandResponse(Some(cause)) => "Command response error: "@ + cause.text(),
            Error::NoResponse => "No response was received"@,
            Error::UnexpectedResponse => "Unexpected command response in data stream"@,
            Error::NoDevicesFound => "No SC64 devices found"@,
        }
    }

    /// Says the failure in words. A failed command names its cause.
    pub fn message(&self) -> (text: String)
        ensures
            text@ == self.text(),
        decreases self,
    {
        match self {
            Error::Io(e) => e.message.clone(),
            Error::UnknownDataType => String::from_str("Unknown data type"),
            Error::UnexpectedEndOfStream => String::from_str("Unexpected end of stream data"),
            Error::ReadTimeout => String::from_str("Read timeout"),
            Error::UnexpectedEndOfData => String::from_str("Unexpected end of data"),
            Error::UnknownResponseToken => String::from_str("Unknown response token"),
            Error::UnexpectedPayloadType => String::from_str(
                "Unexpected payload data type received",
            ),
            Error::PurgeTimeout => String::from_str("SC64 read buffer flush took too long"),
            Error::ResetOn => String::from_str("Couldn't reset SC64 device (on)"),
            Error::ResetOff => String::from_str("Couldn't reset SC64 device (off)"),
            Error::InvalidPortPrefix => String::from_str("Invalid port prefix provided"),
            Error::ResponseIdMismatch => String::from_str("Command response ID didn't match"),
            Error::CommandResponse(None) => String::from_str("Command response error"),
            Error::CommandResponse(Some(cause)) => {
                let reason = cause.message();
                String::from_str("Command response error: ").concat(reason.as_str())
            },
            Error::NoResponse => String::from_str("No response was received"),
            Error::UnexpectedResponse => String::from_str(
                "Unexpected command response in data stream",
            ),
            Error::NoDevicesFound => String::from_str("No SC64 devices found"),
        }
    }
}

} // verus!
