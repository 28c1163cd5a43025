//! The local framing, spoken over a serial line or a USB bridge.
//!
//! Host to device: the letters `CMD`, the command's id, its two arguments as big-endian words,
//! then its data, with no length in front: the device knows from the command how much follows.
//!
//! Device to host: a three-letter token (`CMP` for a response, `ERR` for a response that
//! reports an error, `PKT` for a packet), the id, the payload's length as a big-endian word,
//! then the payload.

use vstd::prelude::*;
use crate::error::Error;
use crate::frame::Command;
use crate::wire::be32_bytes;
use crate::wire::u32_to_be;

verus! {

/// What the first four bytes of a device-to-host frame say.
#[derive(Debug, Clone, Copy, PartialEq, Eq, Structural)]
pub struct Header {
    /// The frame is a packet, not a response.
    pub packet: bool,
    /// The frame is a response that reports an error.
    pub error: bool,
    /// The id byte.
    pub id: u8,
}

/// The header that four bytes spell, if their first three are a known token.
pub open spec fn header_of(bytes: Seq<u8>) -> Option<Header>
    recommends
        bytes.len() == 4,
{
    if bytes[0] == 0x43 && bytes[1] == 0x4D && bytes[2] == 0x50 {
        Some(Header { packet: false, error: false, id: bytes[3] })
    } else if bytes[0] == 0x50 && bytes[1] == 0x4B && bytes[2] == 0x54 {
        Some(Header { packet: true, error: false, id: bytes[3] })
    } else if bytes[0] == 0x45 && bytes[1] == 0x52 && bytes[2] == 0x52 {
        Some(Header { packet: false, error: true, id: bytes[3] })
    } else {
        None
    }
}

/// The four bytes that open a device-to-host frame.
pub open spec fn header_bytes(header: Header) -> Seq<u8> {
    if header.packet {
        seq![0x50u8, 0x4B, 0x54, header.id]
    } else if header.error {
        seq![0x45u8, 0x52, 0x52, header.id]
    } else {
        seq![0x43u8, 0x4D, 0x50, header.id]
    }
}

/// A header is read back from its bytes. A packet carries no error flag.
pub proof fn lemma_header_round_trip(header: Header)
    requires
        header.packet ==> !header.error,
    ensures
        header_bytes(header).len() == 4,
        header_of(header_bytes(header)) == Some(header),
{
}

/// Reads the token and id of a device-to-host frame. Any token but `CMP`, `PKT` and `ERR` is
/// refused.
pub fn parse_header(bytes: &[u8; 4]) -> (r: Result<Header, Error>)
    ensures
        r == match header_of(bytes@) {
            Some(header) => Ok::<Header, Error>(header),
            None => Err::<Header, Error>(Error::UnknownResponseToken),
        },
{
    let id: u8 = bytes[3];
    if bytes[0] == 0x43 && bytes[1] == 0x4D && bytes[2] == 0x50 {
        Ok(Header { packet: false, error: false, id })
    } else if bytes[0] == 0x50 && bytes[1] == 0x4B && bytes[2] == 0x54 {
        Ok(Header { packet: true, error: false, id })
    } else if bytes[0] == 0x45 && bytes[1] == 0x52 && bytes[2] == 0x52 {
        Ok(Header { packet: false, error: true, id })
    } else {
        Err(Error::UnknownResponseToken)
    }
}

/// The bytes of a command frame.
pub open spec fn command_bytes(command: Command) -> Seq<u8> {
    seq![0x43u8, 0x4D, 0x44, command.id] + be32_bytes(command.args[0]) + be32_bytes(
        command.args[1],
    ) + command.data@
}

/// Encodes a command frame.
pub fn encode_command(command: &Command) -> (frame: Vec<u8>)
    ensures
        frame@ == command_bytes(*command),
{
    let mut frame: Vec<u8> = Vec::new();
    frame.push(0x43);
    frame.push(0x4D);
    frame.push(0x44);
    frame.push(command.id);
    let first: [u8; 4] = u32_to_be(command.args[0]);
    let second: [u8; 4] = u32_to_be(command.args[1]);
    frame.push(first[0]);
    frame.push(first[1]);
    frame.push(first[2]);
    frame.push(first[3]);
    frame.push(second[0]);
    frame.push(second[1]);
    frame.push(second[2]);
    frame.push(second[3]);
    let ghost head = frame@;
    assert(head =~= seq![0x43u8, 0x4D, 0x44, command.id] + be32_bytes(command.args[0])
        + be32_bytes(command.args[1]));
    let mut i: usize = 0;
    while i < command.data.len()
        invariant
            i <= command.data.len(),
            frame@ == head + command.data@.take(i as int),
        decreases command.data.len() - i,
    {
        frame.push(command.data[i]);
        assert(command.data@.take(i as int).push(command.data@[i as int])
            =~= command.data@.take(i + 1));
        i = i + 1;
    }
    assert(command.data@.take(i as int) =~= command.data@);
    frame
}

/// A command frame is twelve bytes and the data: token, id, two arguments, and nothing that
/// says how long the data is.
pub proof fn lemma_command_layout(command: Command)
    ensures
        command_bytes(command).len() == 12 + command.data@.len(),
        command_bytes(command).subrange(0, 3) == seq![0x43u8, 0x4D, 0x44],
        command_bytes(command)[3] == command.id,
        command_bytes(command).subrange(4, 8) == be32_bytes(command.args[0]),
        command_bytes(command).subrange(8, 12) == be32_bytes(command.args[1]),
        command_bytes(command).skip(12) == command.data@,
{
    let bytes = command_bytes(command);
    assert(bytes.subrange(0, 3) =~= seq![0x43u8, 0x4D, 0x44]);
    assert(bytes.subrange(4, 8) =~= be32_bytes(command.args[0]));
    assert(bytes.subrange(8, 12) =~= be32_bytes(command.args[1]));
    assert(bytes.skip(12) =~= command.data@);
}

} // verus!
