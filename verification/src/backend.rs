//! The transport under a link.
//!
//! A [`Backend`] is one channel to one device. What it does on the channel is its own; what
//! the protocol decides is not. The operations that wait on the channel are loops around the
//! step functions of this library ([`crate::read`], [`crate::reset`], [`crate::decoder`]), and
//! each implementation runs those loops itself, with its own clock. The operations that need
//! no waiting are provided here.
//!
//! The link above is verified for whatever a backend returns. Still it is to say which
//! operation it performed, on what, and so are the provided methods. So every operation of a
//! backend that returns something has a relation ([`Backend::resets`], [`Backend::reads`],
//! [`Backend::writes`], [`Backend::flushes`], [`Backend::purges`], [`Backend::fills`],
//! [`Backend::decodes`]) that names what the operation may do on a channel in a given state.
//! [`Backend::speaks`] does the same for the framing. A backend that states nothing admits
//! everything, so these relations ask nothing of an implementation. The state in which a
//! later operation of a sequence finds the channel has no name of its own: a contract speaks
//! of it as of some state.
//!
//! An implementation that replaces a provided method keeps that method's contract. For
//! [`Backend::send_frame`] and [`Backend::send_command`] this means that they fail with a
//! failure of the channel and with no other.

use vstd::prelude::*;
use std::collections::VecDeque;
use crate::decoder::Framing;
use crate::error::Error;
use crate::error::IoError;
use crate::frame::Command;
use crate::frame::DataType;
use crate::frame::Packet;
use crate::frame::Response;
use crate::local;
use crate::remote;

verus! {

/// A buffer of `length` zero bytes.
pub open spec fn zeros(length: nat) -> Seq<u8> {
    Seq::new(length, |i: int| 0u8)
}

/// What a header read comes to, given how the read of its four bytes went: the bytes where
/// the buffer was filled, nothing where nothing was there, the failure otherwise.
pub open spec fn header_outcome(filled: Result<Option<()>, Error>, header: [u8; 4]) -> Result<
    Option<[u8; 4]>,
    Error,
> {
    match filled {
        Ok(Some(())) => Ok(Some(header)),
        Ok(None) => Ok(None),
        Err(e) => Err(e),
    }
}

/// Turns the outcome of filling a four-byte buffer into the outcome of a header read.
pub fn read_header(filled: Result<Option<()>, Error>, header: [u8; 4]) -> (r: Result<
    Option<[u8; 4]>,
    Error,
>)
    ensures
        r == header_outcome(filled, header),
{
    match filled {
        Ok(Some(())) => Ok(Some(header)),
        Ok(None) => Ok(None),
        Err(e) => Err(e),
    }
}

/// What a read that must deliver comes to: a read that found nothing has failed.
pub open spec fn exact_outcome(filled: Result<Option<()>, Error>) -> Result<(), Error> {
    match filled {
        Ok(Some(())) => Ok(()),
        Ok(None) => Err(Error::UnexpectedEndOfData),
        Err(e) => Err(e),
    }
}

/// Turns the outcome of filling a buffer into the outcome of a read that must deliver.
pub fn require_data(filled: Result<Option<()>, Error>) -> (r: Result<(), Error>)
    ensures
        r == exact_outcome(filled),
{
    match filled {
        Ok(Some(())) => Ok(()),
        Ok(None) => Err(Error::UnexpectedEndOfData),
        Err(e) => Err(e),
    }
}

/// A channel failure as a failure of the link.
pub open spec fn channel_outcome(outcome: Result<(), IoError>) -> Result<(), Error> {
    match outcome {
        Ok(()) => Ok(()),
        Err(e) => Err(Error::Io(e)),
    }
}

/// Whether `frame` is `command` as one of the two framings writes it.
pub open spec fn is_command_frame(frame: Seq<u8>, command: Command) -> bool {
    frame == local::command_bytes(command) || frame == remote::command_bytes(command)
}

/// Whether `frame` is `command` as a backend sends it that speaks the local framing alone
/// (`local_only`), or that may speak either: the local frame of the first, a frame of one of
/// the two framings of the second.
pub open spec fn is_frame_of(local_only: bool, frame: Seq<u8>, command: Command) -> bool {
    &&& is_command_frame(frame, command)
    &&& local_only ==> frame == local::command_bytes(command)
}

/// A channel failure as a failure of the link.
pub fn channel_result(outcome: Result<(), IoError>) -> (r: Result<(), Error>)
    ensures
        r == channel_outcome(outcome),
{
    match outcome {
        Ok(()) => Ok(()),
        Err(e) => Err(Error::Io(e)),
    }
}

/// One channel to one device.
pub trait Backend {
    /// Whether this backend may speak `framing`. A backend that states nothing may speak
    /// either framing.
    open spec fn speaks(&self, framing: Framing) -> bool {
        true
    }

    /// On a channel in this state, a reset may come to `outcome`.
    open spec fn resets(&self, outcome: Result<(), Error>) -> bool {
        true
    }

    /// On a channel in this state, a raw read into a buffer that holds `before` may leave
    /// `after` in the buffer and come to `outcome`.
    open spec fn reads(&self, before: Seq<u8>, after: Seq<u8>, outcome: Result<usize, IoError>)
        -> bool {
        true
    }

    /// On a channel in this state, writing `bytes` may come to `outcome`.
    open spec fn writes(&self, bytes: Seq<u8>, outcome: Result<(), IoError>) -> bool {
        true
    }

    /// On a channel in this state, a flush may come to `outcome`.
    open spec fn flushes(&self, outcome: Result<(), IoError>) -> bool {
        true
    }

    /// On a channel in this state, purging the incoming data may come to `outcome`.
    open spec fn purges(&self, outcome: Result<(), Error>) -> bool {
        true
    }

    /// On a channel in this state, a try at filling a buffer that holds `before`, waiting for
    /// the first byte where `block` is set, may leave `after` in the buffer and come to
    /// `outcome`.
    open spec fn fills(
        &self,
        before: Seq<u8>,
        block: bool,
        after: Seq<u8>,
        outcome: Result<Option<()>, Error>,
    ) -> bool {
        true
    }

    /// On a channel in this state, decoding for a frame of type `data_type` may turn the
    /// queue `before` into the queue `after` and come to `outcome`.
    open spec fn decodes(
        &self,
        data_type: DataType,
        before: Seq<Packet>,
        after: Seq<Packet>,
        outcome: Result<Option<Response>, Error>,
    ) -> bool {
        true
    }

    /// Brings the device into a known state. On a local channel this is the handshake of
    /// [`crate::reset`]; on a remote one there is nothing to do.
    fn reset(&mut self) -> (r: Result<(), Error>)
        ensures
            old(self).resets(r),
    ;

    /// Shuts the channel down. A read or write that is blocked on it fails from then on.
    fn close(&self);

    /// Reads what is there into `buffer`, waiting at most [`crate::clock::POLL_TIMEOUT`], and
    /// says how many bytes arrived.
    fn read(&mut self, buffer: &mut [u8]) -> (r: Result<usize, IoError>)
        ensures
            old(self).reads(old(buffer)@, final(buffer)@, r),
    ;

    /// Writes all of `buffer`.
    fn write(&mut self, buffer: &[u8]) -> (r: Result<(), IoError>)
        ensures
            old(self).writes(buffer@, r),
    ;

    /// Pushes out what was written.
    fn flush(&mut self) -> (r: Result<(), IoError>)
        ensures
            old(self).flushes(r),
    ;

    /// Reads and throws away what the channel still holds: the loop around
    /// [`crate::read::PendingPurge::resume`], over reads of one byte.
    fn purge_incoming_data(&mut self) -> (r: Result<(), Error>)
        ensures
            old(self).purges(r),
    ;

    /// Fills `buffer`, or finds nothing where `block` is off: the loop around
    /// [`crate::read::PendingRead::resume`].
    fn try_read(&mut self, buffer: &mut [u8], block: bool) -> (r: Result<Option<()>, Error>)
        ensures
            old(self).fills(old(buffer)@, block, final(buffer)@, r),
    ;

    /// Reads the four bytes that open a frame: one try at filling a buffer of four zero bytes,
    /// waiting or not as `block` says. The result is [`header_outcome`] of how the try went
    /// and of what it left in the buffer.
    fn try_read_header(&mut self, block: bool) -> (r: Result<Option<[u8; 4]>, Error>)
        ensures
            exists|filled: Result<Option<()>, Error>, header: [u8; 4]|
                {
                    &&& #[trigger] old(self).fills(zeros(4), block, header@, filled)
                    &&& r == header_outcome(filled, header)
                },
    {
        let mut header: [u8; 4] = [0u8, 0u8, 0u8, 0u8];
        assert(header@ =~= zeros(4));
        let filled = self.try_read(&mut header, block);
        assert(old(self).fills(zeros(4), block, header@, filled));
        read_header(filled, header)
    }

    /// Fills `buffer`, waiting for the first byte too: one try at filling this buffer, with
    /// `block` set. The result is [`exact_outcome`] of how the try went.
    fn read_exact(&mut self, buffer: &mut [u8]) -> (r: Result<(), Error>)
        ensures
            exists|filled: Result<Option<()>, Error>|
                {
                    &&& #[trigger] old(self).fills(old(buffer)@, true, final(buffer)@, filled)
                    &&& r == exact_outcome(filled)
                },
    {
        let filled = self.try_read(buffer, true);
        require_data(filled)
    }

    /// Writes one encoded frame and flushes: `frame` is written as it stands, and a failed
    /// write is the result. A write that succeeded is followed by a flush on the channel as
    /// the write left it, and the flush's outcome is the result.
    fn send_frame(&mut self, frame: &[u8]) -> (r: Result<(), Error>)
        ensures
            exists|written: Result<(), IoError>|
                {
                    &&& #[trigger] old(self).writes(frame@, written)
                    &&& match written {
                        Err(e) => r == Err::<(), Error>(Error::Io(e)),
                        Ok(()) => exists|flushed: Result<(), IoError>, after_write: &Self|
                            #[trigger] after_write.flushes(flushed) && r == channel_outcome(
                                flushed,
                            ),
                    }
                },
    {
        let written = self.write(frame);
        match written {
            Err(e) => Err(Error::Io(e)),
            Ok(()) => {
                let ghost after_write = &*self;
                let flushed = self.flush();
                assert(after_write.flushes(flushed));
                channel_result(flushed)
            },
        }
    }

    /// Sends a command: its frame is sent as [`Backend::send_frame`] sends it. The frame is
    /// that of one of the two framings, and the local one on a backend that does not speak
    /// the remote framing, as [`is_frame_of`] says. What is provided here is the sending of a
    /// backend of the local framing, [`local::command_bytes`]; a backend of the remote
    /// framing replaces it and sends [`crate::remote::command_bytes`].
    fn send_command(&mut self, command: &Command) -> (r: Result<(), Error>)
        ensures
            exists|frame: Seq<u8>, written: Result<(), IoError>|
                {
                    &&& is_frame_of(!old(self).speaks(Framing::Remote), frame, *command)
                    &&& #[trigger] old(self).writes(frame, written)
                    &&& match written {
                        Err(e) => r == Err::<(), Error>(Error::Io(e)),
                        Ok(()) => exists|flushed: Result<(), IoError>, after_write: &Self|
                            #[trigger] after_write.flushes(flushed) && r == channel_outcome(
                                flushed,
                            ),
                    }
                },
    {
        let frame = local::encode_command(command);
        self.send_frame(frame.as_slice())
    }

    /// Decodes incoming frames until one of type `data_type` is there, or nothing is: the loop
    /// around the steps of [`crate::decoder`], begun with this backend's framing. Packets go
    /// to the back of `packets`.
    fn process_incoming_data(&mut self, data_type: DataType, packets: &mut VecDeque<Packet>)
        -> (r: Result<Option<Response>, Error>)
        ensures
            old(self).decodes(data_type, old(packets)@, final(packets)@, r),
    ;
}

} // verus!
