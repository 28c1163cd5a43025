//! The remote framing, spoken over a socket to an agent that holds the device.
//!
//! Every frame, in both directions, opens with the numeric tag of its type as a big-endian
//! word. A command frame goes on with the id, the two arguments, the length of the data and
//! the data. A response frame goes on with the id, an error flag (any value but zero means an
//! error), the payload's length and the payload; a packet frame with the id, the length and
//! the payload. A keep-alive frame is its tag alone.

use vstd::prelude::*;
use crate::frame::Command;
use crate::frame::DataType;
use crate::wire::be32;
use crate::wire::be32_bytes;
use crate::wire::lemma_be32_of_bytes;
use crate::wire::u32_to_be;

verus! {

/// The longest data that a command frame can carry: its length has to fit the length field.
pub const MAX_DATA_LENGTH: usize = 0xFFFF_FFFF;

/// The bytes of a command frame. The length field holds the length of the data.
pub open spec fn command_bytes(command: Command) -> Seq<u8>
    recommends
        command.data@.len() <= MAX_DATA_LENGTH,
{
    be32_bytes(DataType::Command.tag()) + seq![command.id] + be32_bytes(command.args[0])
        + be32_bytes(command.args[1]) + be32_bytes(command.data@.len() as u32) + command.data@
}

/// Encodes a command frame. The data must not be longer than the length field can say.
pub fn encode_command(command: &Command) -> (frame: Vec<u8>)
    requires
        command.data@.len() <= MAX_DATA_LENGTH,
    ensures
        frame@ == command_bytes(*command),
{
    let tag: [u8; 4] = u32_to_be(u32::from(DataType::Command));
    let first: [u8; 4] = u32_to_be(command.args[0]);
    let second: [u8; 4] = u32_to_be(command.args[1]);
    let length: u32 = command.data.len() as u32;
    let size: [u8; 4] = u32_to_be(length);
    let mut frame: Vec<u8> = Vec::new();
    frame.push(tag[0]);
    frame.push(tag[1]);
    frame.push(tag[2]);
    frame.push(tag[3]);
    frame.push(command.id);
    frame.push(first[0]);
    frame.push(first[1]);
    frame.push(first[2]);
    frame.push(first[3]);
    frame.push(second[0]);
    frame.push(second[1]);
    frame.push(second[2]);
    frame.push(second[3]);
    frame.push(size[0]);
    frame.push(size[1]);
    frame.push(size[2]);
    frame.push(size[3]);
    let ghost head = frame@;
    assert(head =~= be32_bytes(DataType::Command.tag()) + seq![command.id] + be32_bytes(
        command.args[0],
    ) + be32_bytes(command.args[1]) + be32_bytes(command.data@.len() as u32));
    let mut i: usize = 0;
    while i < command.data.len()
        invariant
            i <= command.data.len(),
            frame@ == head + command.data@.take(i as int),
        decreases command.data.len() - i,
    {
        frame.push(command.data[i]);
        assert(command.data@.take(i as int).push(command.data@[i as int])
            =~= command.data@.take(i + 1));
        i = i + 1;
    }
    assert(command.data@.take(i as int) =~= command.data@);
    frame
}

/// A command frame is seventeen bytes and the data: tag, id, two arguments, and the length of
/// the data.
pub proof fn lemma_command_layout(command: Command)
    requires
        command.data@.len() <= MAX_DATA_LENGTH,
    ensures
        command_bytes(command).len() == 17 + command.data@.len(),
        command_bytes(command).subrange(0, 4) == be32_bytes(DataType::Command.tag()),
        command_bytes(command)[4] == command.id,
        command_bytes(command).subrange(5, 9) == be32_bytes(command.args[0]),
        command_bytes(command).subrange(9, 13) == be32_bytes(command.args[1]),
        be32(command_bytes(command).subrange(13, 17)) == command.data@.len(),
        command_bytes(command).skip(17) == command.data@,
{
    let bytes = command_bytes(command);
    let length = command.data@.len() as u32;
    lemma_be32_of_bytes(length);
    assert(bytes.subrange(0, 4) =~= be32_bytes(DataType::Command.tag()));
    assert(bytes.subrange(5, 9) =~= be32_bytes(command.args[0]));
    assert(bytes.subrange(9, 13) =~= be32_bytes(command.args[1]));
    assert(bytes.subrange(13, 17) =~= be32_bytes(length));
    assert(bytes.skip(17) =~= command.data@);
}

} // verus!
