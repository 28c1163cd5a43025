//! The link: one backend, and the queue of packets that arrived while a response was awaited.
//!
//! One command is in flight at a time: the caller sends the next when the last has resolved.
//! Packets are queued in the order of their arrival and handed out in that order. A response
//! never enters the queue, and a packet is never taken for a response.

use vstd::prelude::*;
use std::collections::VecDeque;
use crate::backend::channel_outcome;
use crate::backend::is_frame_of;
use crate::backend::Backend;
use crate::decoder::Framing;
use crate::error::Error;
use crate::error::IoError;
use crate::frame::Command;
use crate::frame::DataType;
use crate::frame::Packet;
use crate::frame::Response;

verus! {

/// What the wait for a response comes to, given what the decoding returned: a decoding that
/// failed is a failed command, with the failure as its cause; one that ended without a
/// response is an error of its own.
pub open spec fn awaited_response(received: Result<Option<Response>, Error>) -> Result<
    Response,
    Error,
> {
    match received {
        Ok(Some(response)) => Ok(response),
        Ok(None) => Err(Error::NoResponse),
        Err(e) => Err(Error::CommandResponse(Some(Box::new(e)))),
    }
}

/// Turns the outcome of a decoding into the outcome of the wait for a response.
pub fn expect_response(received: Result<Option<Response>, Error>) -> (r: Result<Response, Error>)
    ensures
        r == awaited_response(received),
{
    match received {
        Ok(Some(response)) => Ok(response),
        Ok(None) => Err(Error::NoResponse),
        Err(e) => Err(Error::CommandResponse(Some(Box::new(e)))),
    }
}

/// What a command comes to, given the response that arrived for it. A response with another
/// id means that host and device are out of step. A response that reports an error fails the
/// command unless the caller asked for its payload all the same.
pub open spec fn command_result(command_id: u8, response: Response, ignore_error: bool)
    -> Result<Vec<u8>, Error> {
    if command_id != response.id {
        Err(Error::ResponseIdMismatch)
    } else if !ignore_error && response.error {
        Err(Error::CommandResponse(None))
    } else {
        Ok(response.data)
    }
}

/// Checks a response against the command it is to answer, and hands out its payload.
pub fn complete_command(command: &Command, response: Response, ignore_error: bool) -> (r: Result<
    Vec<u8>,
    Error,
>)
    ensures
        r == command_result(command.id, response, ignore_error),
        r is Ok ==> response.id == command.id,
{
    if command.id != response.id {
        Err(Error::ResponseIdMismatch)
    } else if !ignore_error && response.error {
        Err(Error::CommandResponse(None))
    } else {
        Ok(response.data)
    }
}

/// What a call for a packet comes to on an empty queue, given what the decoding returned and
/// the packets it queued. A response is out of place here.
pub open spec fn packet_result(received: Result<Option<Response>, Error>, seen: Seq<Packet>)
    -> Result<Option<Packet>, Error> {
    match received {
        Err(e) => Err(e),
        Ok(Some(_)) => Err(Error::UnexpectedResponse),
        Ok(None) => Ok(
            if seen.len() > 0 {
                Some(seen[0])
            } else {
                None
            },
        ),
    }
}

/// The queue after a call for a packet on an empty queue: the packets that the decoding
/// queued, less the one handed out.
pub open spec fn packets_left(received: Result<Option<Response>, Error>, seen: Seq<Packet>)
    -> Seq<Packet> {
    if received == Ok::<Option<Response>, Error>(None) && seen.len() > 0 {
        seen.skip(1)
    } else {
        seen
    }
}

/// The bytes of a result, where it has any.
pub open spec fn payload(result: Result<Vec<u8>, Error>) -> Result<Seq<u8>, Error> {
    match result {
        Ok(data) => Ok(data@),
        Err(e) => Err(e),
    }
}

/// What a command comes to, given what the wait for its response came to: the wait's
/// failure, or [`command_result`] of the response.
pub open spec fn completion(
    command_id: u8,
    ignore_error: bool,
    awaited: Result<Response, Error>,
) -> Result<Seq<u8>, Error> {
    match awaited {
        Err(e) => Err(e),
        Ok(response) => payload(command_result(command_id, response, ignore_error)),
    }
}

/// Hands out what a call for a packet on an empty queue is owed, given what the decoding
/// returned and the queue it left: a failure as it is, a response as an error, and else the
/// oldest packet, if the decoding queued one.
pub fn hand_out(received: Result<Option<Response>, Error>, packets: &mut VecDeque<Packet>) -> (r:
    Result<Option<Packet>, Error>)
    ensures
        r == packet_result(received, old(packets)@),
        final(packets)@ == packets_left(received, old(packets)@),
{
    match received {
        Err(e) => Err(e),
        Ok(Some(_)) => Err(Error::UnexpectedResponse),
        Ok(None) => {
            let front = packets.pop_front();
            assert(packets@ =~= packets_left(received, old(packets)@));
            Ok(front)
        },
    }
}

/// Serializes commands on one backend and keeps the packets that arrive in between.
pub struct Link {
    pub backend: Box<dyn Backend>,
    packets: VecDeque<Packet>,
}

impl Link {
    /// The packets that have arrived and were not handed out yet, oldest first.
    pub closed spec fn queue(&self) -> Seq<Packet> {
        self.packets@
    }

    /// The backend, as a value: it changes whenever the channel is used.
    pub closed spec fn transport(&self) -> &Box<dyn Backend> {
        &self.backend
    }

    /// Whether the wait for a response on a link with this backend and this queue may come to
    /// `result` and leave the queue `queue`: the backend decodes for a response into a queue
    /// of its own, the result is [`awaited_response`] of what it returned, and what it
    /// queued is appended, whatever the result.
    pub open spec fn awaits(&self, result: Result<Response, Error>, queue: Seq<Packet>) -> bool {
        exists|received: Result<Option<Response>, Error>, seen: Seq<Packet>|
            {
                &&& #[trigger] self.transport().decodes(
                    DataType::Response,
                    Seq::empty(),
                    seen,
                    received,
                )
                &&& result == awaited_response(received)
                &&& queue == self.queue() + seen
            }
    }

    /// Whether the answer to a command that was sent on this link may come to `result` and
    /// leave the queue `queue`: on the link as the sending left it, with the queue as it
    /// was, the wait for a response comes to some end, and the result is [`completion`] of
    /// that.
    pub open spec fn answers(
        &self,
        command_id: u8,
        ignore_error: bool,
        result: Result<Seq<u8>, Error>,
        queue: Seq<Packet>,
    ) -> bool {
        exists|after_send: Link, awaited: Result<Response, Error>|
            {
                &&& after_send.queue() == self.queue()
                &&& #[trigger] after_send.awaits(awaited, queue)
                &&& result == completion(command_id, ignore_error, awaited)
            }
    }

    /// Whether executing `command` on this link may come to `result` and leave the queue
    /// `queue`.
    ///
    /// The command's frame is written on the backend as it stands: the local frame on a
    /// backend that does not speak the remote framing, and else the frame of one of the two
    /// framings.
    /// A write that succeeded is followed by a flush. Where either fails, its failure is the
    /// result, and the queue is as it was. With `no_response` that is all: the result is
    /// empty and the queue is as it was. Else the answer is awaited, as [`Link::answers`]
    /// says.
    pub open spec fn executes(
        &self,
        command: Command,
        no_response: bool,
        ignore_error: bool,
        result: Result<Seq<u8>, Error>,
        queue: Seq<Packet>,
    ) -> bool {
        exists|frame: Seq<u8>, written: Result<(), IoError>|
            {
                &&& is_frame_of(!self.transport().speaks(Framing::Remote), frame, command)
                &&& #[trigger] self.transport().writes(frame, written)
                &&& match written {
                    Err(e) => result == Err::<Seq<u8>, Error>(Error::Io(e)) && queue
                        == self.queue(),
                    Ok(()) => exists|flushed: Result<(), IoError>, after_write: &dyn Backend|
                        {
                            &&& #[trigger] after_write.flushes(flushed)
                            &&& match flushed {
                                Err(e) => result == Err::<Seq<u8>, Error>(Error::Io(e))
                                    && queue == self.queue(),
                                Ok(()) => if no_response {
                                    result == Ok::<Seq<u8>, Error>(Seq::empty()) && queue
                                        == self.queue()
                                } else {
                                    self.answers(command.id, ignore_error, result, queue)
                                },
                            }
                        },
                }
            }
    }

    /// Sends a command and waits for its response, as [`Link::executes`] says. An error that
    /// the device reports fails the command.
    pub fn execute_command(&mut self, command: &Command) -> (r: Result<Vec<u8>, Error>)
        ensures
            old(self).executes(*command, false, false, payload(r), final(self).queue()),
            old(self).queue().is_prefix_of(final(self).queue()),
    {
        self.execute_command_raw(command, false, false)
    }

    /// Sends a command and, unless `no_response` is set, waits for its response, as
    /// [`Link::executes`] says.
    ///
    /// The queue grows at its back by the packets that were decoded during the wait: nothing
    /// that was queued before is touched. A payload comes back only from a response that
    /// carries the command's id; with `no_response` the result is empty and nothing is
    /// decoded.
    pub fn execute_command_raw(&mut self, command: &Command, no_response: bool, ignore_error: bool)
        -> (r: Result<Vec<u8>, Error>)
        ensures
            old(self).executes(
                *command,
                no_response,
                ignore_error,
                payload(r),
                final(self).queue(),
            ),
            old(self).queue().is_prefix_of(final(self).queue()),
            no_response ==> final(self).queue() == old(self).queue(),
            no_response ==> (r matches Ok(data) ==> data@ == Seq::<u8>::empty()),
    {
        let ghost backend = self.backend;
        let sent = self.backend.send_command(command);
        assert(backend == *old(self).transport());
        match sent {
            Err(e) => {
                return Err(e);
            },
            Ok(()) => {},
        }
        if no_response {
            return Ok(Vec::new());
        }
        let ghost after_send = *self;
        let awaited = self.receive_response();
        assert(after_send.awaits(awaited, self.queue()));
        let r = match awaited {
            Err(e) => Err(e),
            Ok(response) => complete_command(command, response, ignore_error),
        };
        assert(payload(r) == completion(command.id, ignore_error, awaited));
        assert(old(self).answers(command.id, ignore_error, payload(r), self.queue()));
        r
    }

    /// Waits for a response, as [`Link::awaits`] says.
    fn receive_response(&mut self) -> (r: Result<Response, Error>)
        ensures
            old(self).awaits(r, final(self).queue()),
    {
        let mut seen: VecDeque<Packet> = VecDeque::new();
        let received = self.backend.process_incoming_data(DataType::Response, &mut seen);
        let ghost appended = seen@;
        assert(old(self).transport().decodes(
            DataType::Response,
            Seq::empty(),
            appended,
            received,
        ));
        self.packets.append(&mut seen);
        assert(self.queue() == old(self).queue() + appended);
        expect_response(received)
    }

    /// Hands out the oldest packet.
    ///
    /// While the queue holds packets the channel is not touched. On an empty queue the
    /// backend, as it stands, decodes once for a packet, without waiting: the result is
    /// [`packet_result`] of what it returned, and the packets it queued stay, less the one
    /// handed out.
    pub fn receive_packet(&mut self) -> (r: Result<Option<Packet>, Error>)
        ensures
            old(self).queue().len() > 0 ==> {
                &&& r == Ok::<Option<Packet>, Error>(Some(old(self).queue()[0]))
                &&& final(self).queue() == old(self).queue().skip(1)
                &&& final(self).transport() == old(self).transport()
            },
            old(self).queue().len() == 0 ==> exists|
                received: Result<Option<Response>, Error>,
                seen: Seq<Packet>,
            |
                {
                    &&& #[trigger] old(self).transport().decodes(
                        DataType::Packet,
                        Seq::empty(),
                        seen,
                        received,
                    )
                    &&& r == packet_result(received, seen)
                    &&& final(self).queue() == packets_left(received, seen)
                },
    {
        if self.packets.len() == 0 {
            assert(self.packets@ =~= Seq::empty());
            let received = self.backend.process_incoming_data(DataType::Packet, &mut self.packets);
            assert(old(self).transport().decodes(
                DataType::Packet,
                Seq::empty(),
                self.queue(),
                received,
            ));
            hand_out(received, &mut self.packets)
        } else {
            let front = self.packets.pop_front();
            assert(self.queue() =~= old(self).queue().skip(1));
            Ok(front)
        }
    }

    /// Shuts the backend down and gives the link up. A link is closed once, by whoever owns
    /// it, and cannot be used after.
    pub fn close(self) {
        self.backend.close();
    }
}

/// What making a link comes to, given how the reset of its backend went: a link with an empty
/// queue where the reset succeeded, the reset's failure otherwise.
pub open spec fn link_after_reset(reset: Result<(), Error>, made: Result<Link, Error>) -> bool {
    match reset {
        Ok(()) => made matches Ok(link) && link.queue() == Seq::<Packet>::empty(),
        Err(e) => made matches Err(failure) && failure == e,
    }
}

/// Makes a link over a local channel that was just opened: resets the device once, in the
/// state in which the backend is handed in, and starts with an empty queue. There is a link
/// exactly where the reset succeeded; a failed reset is returned as it is.
pub fn new_local(backend: Box<dyn Backend>) -> (r: Result<Link, Error>)
    ensures
        exists|reset: Result<(), Error>|
            {
                &&& #[trigger] backend.resets(reset)
                &&& link_after_reset(reset, r)
            },
{
    let mut backend = backend;
    let reset = backend.reset();
    match reset {
        Err(e) => Err(e),
        Ok(()) => Ok(Link { backend, packets: VecDeque::new() }),
    }
}

/// Makes a link over a remote channel that was just connected. Connecting has put both sides
/// in step, so there is no reset, and no way to fail.
pub fn new_remote(backend: Box<dyn Backend>) -> (r: Result<Link, Error>)
    ensures
        r is Ok,
        r matches Ok(link) ==> link.queue() == Seq::<Packet>::empty(),
{
    Ok(Link { backend, packets: VecDeque::new() })
}

/// What a run of calls for a packet hands out from a queue that holds enough for them, and
/// what it leaves: each call takes the oldest packet.
pub open spec fn handed_out(queue: Seq<Packet>, calls: nat) -> (Seq<Packet>, Seq<Packet>)
    decreases calls,
{
    if calls == 0 || queue.len() == 0 {
        (Seq::empty(), queue)
    } else {
        let (later, left) = handed_out(queue.skip(1), (calls - 1) as nat);
        (seq![queue[0]] + later, left)
    }
}

/// A payload comes back only from a response with the command's id: where the answer to a
/// command is a payload, a response arrived, it carried the command's id, it reported no
/// error unless errors were to be ignored, and the payload is that response's.
pub proof fn lemma_payload_is_from_matching_response(
    command_id: u8,
    ignore_error: bool,
    received: Result<Option<Response>, Error>,
)
    requires
        completion(command_id, ignore_error, awaited_response(received)) is Ok,
    ensures
        received matches Ok(Some(response)) && response.id == command_id && (ignore_error
            || !response.error) && completion(
            command_id,
            ignore_error,
            awaited_response(received),
        ) == Ok::<Seq<u8>, Error>(response.data@),
{
}

/// A response with another id never yields a payload, whatever else holds.
pub proof fn lemma_mismatch_fails(command_id: u8, response: Response, ignore_error: bool)
    requires
        response.id != command_id,
    ensures
        command_result(command_id, response, ignore_error) == Err::<Vec<u8>, Error>(
            Error::ResponseIdMismatch,
        ),
        completion(command_id, ignore_error, awaited_response(Ok(Some(response)))) == Err::<
            Seq<u8>,
            Error,
        >(Error::ResponseIdMismatch),
{
}

/// Packets come out as they came in: after a command has added the packets `seen` behind the
/// packets `queue`, that many calls hand out the old packets first and then the new ones,
/// each once and in the order of arrival, and leave the queue empty.
pub proof fn lemma_packets_in_arrival_order(queue: Seq<Packet>, seen: Seq<Packet>)
    ensures
        handed_out(queue + seen, (queue.len() + seen.len()) as nat) == (
            queue + seen,
            Seq::<Packet>::empty(),
        ),
    decreases queue.len() + seen.len(),
{
    let all = queue + seen;
    if all.len() > 0 {
        let rest = all.skip(1);
        lemma_packets_in_arrival_order(rest, Seq::empty());
        assert(rest + Seq::<Packet>::empty() =~= rest);
        assert(seq![all[0]] + rest =~= all);
    } else {
        assert(all =~= Seq::<Packet>::empty());
    }
}

/// Fewer calls than there are packets hand out the oldest packets and leave the rest.
pub proof fn lemma_oldest_first(queue: Seq<Packet>, calls: nat)
    requires
        calls <= queue.len(),
    ensures
        handed_out(queue, calls) == (queue.take(calls as int), queue.skip(calls as int)),
    decreases calls,
{
    if calls == 0 {
        assert(queue.take(0) =~= Seq::<Packet>::empty());
        assert(queue.skip(0) =~= queue);
    } else {
        lemma_oldest_first(queue.skip(1), (calls - 1) as nat);
        assert(seq![queue[0]] + queue.skip(1).take(calls - 1) =~= queue.take(calls as int));
        assert(queue.skip(1).skip(calls - 1) =~= queue.skip(calls as int));
    }
}

/// No packet is handed out twice: once as many packets were taken as were queued, the queue
/// is empty, and a call that finds nothing new on the wire hands out nothing and leaves the
/// queue empty.
pub proof fn lemma_drained_queue_hands_out_nothing(queue: Seq<Packet>)
    ensures
        handed_out(queue, queue.len()).1 == Seq::<Packet>::empty(),
        packet_result(Ok(None), handed_out(queue, queue.len()).1) == Ok::<Option<Packet>, Error>(
            None,
        ),
        packets_left(Ok(None), handed_out(queue, queue.len()).1) == Seq::<Packet>::empty(),
{
    lemma_oldest_first(queue, queue.len());
    assert(queue.skip(queue.len() as int) =~= Seq::<Packet>::empty());
}

} // verus!
