//! The decoder of incoming frames, for both framings.
//!
//! Decoding needs reads, and a read can take as long as the device likes. So the decoder does
//! not read: it says which read it needs next, and is resumed with that read's outcome. The
//! caller loops: perform the read that the current [`Step`] asks for, hand the outcome to that
//! state's `resume`, go on with the step that comes back, until it is [`Step::Done`].
//!
//! Packets that complete on the way are appended to the caller's queue. A response ends the
//! decoding. So does a packet, where a packet is what the caller wanted.

use vstd::prelude::*;
use std::collections::VecDeque;
use crate::error::Error;
use crate::frame::DataType;
use crate::frame::Packet;
use crate::frame::Response;
use crate::local;
use crate::wire::be32;
use crate::wire::be32_bytes;
use crate::wire::lemma_be32_of_bytes;
use crate::wire::u32_from_be;

verus! {

/// Which of the two wire formats a channel speaks.
#[derive(Debug, Clone, Copy, PartialEq, Eq, Structural)]
pub enum Framing {
    Local,
    Remote,
}

/// The next read is the four bytes that open a frame. It blocks only while a response is
/// awaited; otherwise "nothing there yet" ends the decoding.
#[derive(Debug, Clone, Copy, PartialEq, Eq, Structural)]
pub struct AwaitHeader {
    pub framing: Framing,
    pub wanted: DataType,
}

/// The next read is the two bytes after a response tag of the remote framing: id, error flag.
#[derive(Debug, Clone, Copy, PartialEq, Eq, Structural)]
pub struct AwaitResponseInfo {
    pub wanted: DataType,
}

/// The next read is the byte after a packet tag of the remote framing: the id.
#[derive(Debug, Clone, Copy, PartialEq, Eq, Structural)]
pub struct AwaitPacketInfo {
    pub wanted: DataType,
}

/// The next read is the four bytes of the payload's length.
#[derive(Debug, Clone, Copy, PartialEq, Eq, Structural)]
pub struct AwaitLength {
    pub framing: Framing,
    pub wanted: DataType,
    pub packet: bool,
    pub error: bool,
    pub id: u8,
}

/// The next read is the payload: exactly `length` bytes.
#[derive(Debug, Clone, Copy, PartialEq, Eq, Structural)]
pub struct AwaitPayload {
    pub framing: Framing,
    pub wanted: DataType,
    pub packet: bool,
    pub error: bool,
    pub id: u8,
    pub length: usize,
}

/// Where the decoding stands: the read it needs next, or its result.
#[derive(Debug, PartialEq, Eq)]
pub enum Step {
    Header(AwaitHeader),
    ResponseInfo(AwaitResponseInfo),
    PacketInfo(AwaitPacketInfo),
    Length(AwaitLength),
    Payload(AwaitPayload),
    /// The decoding is over: a response, or none (a packet was queued where one was wanted,
    /// or nothing was there), or the failure that ended it.
    Done(Result<Option<Response>, Error>),
}

/// Starts a decoding that looks for a frame of type `wanted`.
pub fn begin(framing: Framing, wanted: DataType) -> (step: Step)
    ensures
        step == Step::Header(AwaitHeader { framing, wanted }),
{
    Step::Header(AwaitHeader { framing, wanted })
}

impl AwaitHeader {
    /// The header read blocks exactly where a response is awaited.
    pub open spec fn blocking(self) -> bool {
        self.wanted == DataType::Response
    }

    /// Whether the header read is to block until data arrives.
    pub fn block(&self) -> (block: bool)
        ensures
            block == self.blocking(),
    {
        match self.wanted {
            DataType::Response => true,
            _ => false,
        }
    }

    /// The step after the header read came back with `outcome`.
    pub open spec fn next(self, outcome: Result<Option<[u8; 4]>, Error>) -> Step {
        match outcome {
            Err(e) => Step::Done(Err(e)),
            Ok(None) => Step::Done(Ok(None)),
            Ok(Some(header)) => match self.framing {
                Framing::Local => match local::header_of(header@) {
                    None => Step::Done(Err(Error::UnknownResponseToken)),
                    Some(h) => Step::Length(
                        AwaitLength {
                            framing: self.framing,
                            wanted: self.wanted,
                            packet: h.packet,
                            error: h.error,
                            id: h.id,
                        },
                    ),
                },
                Framing::Remote => match DataType::of_tag(be32(header@)) {
                    None => Step::Done(Err(Error::UnknownDataType)),
                    Some(DataType::Response) => Step::ResponseInfo(
                        AwaitResponseInfo { wanted: self.wanted },
                    ),
                    Some(DataType::Packet) => Step::PacketInfo(
                        AwaitPacketInfo { wanted: self.wanted },
                    ),
                    Some(DataType::KeepAlive) => Step::Header(self),
                    Some(DataType::Command) => Step::Done(Err(Error::UnexpectedPayloadType)),
                },
            },
        }
    }

    /// Takes the outcome of the header read. An unknown token or tag ends the decoding with an
    /// error; a keep-alive frame leaves the decoder as it was.
    pub fn resume(self, outcome: Result<Option<[u8; 4]>, Error>) -> (step: Step)
        ensures
            step == self.next(outcome),
    {
        match outcome {
            Err(e) => Step::Done(Err(e)),
            Ok(None) => Step::Done(Ok(None)),
            Ok(Some(header)) => match self.framing {
                Framing::Local => match local::parse_header(&header) {
                    Err(e) => Step::Done(Err(e)),
                    Ok(h) => Step::Length(
                        AwaitLength {
                            framing: self.framing,
                            wanted: self.wanted,
                            packet: h.packet,
                            error: h.error,
                            id: h.id,
                        },
                    ),
                },
                Framing::Remote => match DataType::try_from(u32_from_be(&header)) {
                    Err(e) => Step::Done(Err(e)),
                    Ok(DataType::Response) => Step::ResponseInfo(
                        AwaitResponseInfo { wanted: self.wanted },
                    ),
                    Ok(DataType::Packet) => Step::PacketInfo(
                        AwaitPacketInfo { wanted: self.wanted },
                    ),
                    Ok(DataType::KeepAlive) => Step::Header(self),
                    Ok(DataType::Command) => Step::Done(Err(Error::UnexpectedPayloadType)),
                },
            },
        }
    }
}

impl AwaitResponseInfo {
    /// The step after the read of id and error flag came back with `outcome`.
    pub open spec fn next(self, outcome: Result<[u8; 2], Error>) -> Step {
        match outcome {
            Err(e) => Step::Done(Err(e)),
            Ok(info) => Step::Length(
                AwaitLength {
                    framing: Framing::Remote,
                    wanted: self.wanted,
                    packet: false,
                    error: info[1] != 0,
                    id: info[0],
                },
            ),
        }
    }

    /// Takes the outcome of the read of id and error flag.
    pub fn resume(self, outcome: Result<[u8; 2], Error>) -> (step: Step)
        ensures
            step == self.next(outcome),
    {
        match outcome {
            Err(e) => Step::Done(Err(e)),
            Ok(info) => Step::Length(
                AwaitLength {
                    framing: Framing::Remote,
                    wanted: self.wanted,
                    packet: false,
                    error: info[1] != 0,
                    id: info[0],
                },
            ),
        }
    }
}

impl AwaitPacketInfo {
    /// The step after the read of the id came back with `outcome`.
    pub open spec fn next(self, outcome: Result<[u8; 1], Error>) -> Step {
        match outcome {
            Err(e) => Step::Done(Err(e)),
            Ok(info) => Step::Length(
                AwaitLength {
                    framing: Framing::Remote,
                    wanted: self.wanted,
                    packet: true,
                    error: false,
                    id: info[0],
                },
            ),
        }
    }

    /// Takes the outcome of the read of the id.
    pub fn resume(self, outcome: Result<[u8; 1], Error>) -> (step: Step)
        ensures
            step == self.next(outcome),
    {
        match outcome {
            Err(e) => Step::Done(Err(e)),
            Ok(info) => Step::Length(
                AwaitLength {
                    framing: Framing::Remote,
                    wanted: self.wanted,
                    packet: true,
                    error: false,
                    id: info[0],
                },
            ),
        }
    }
}

impl AwaitLength {
    /// The step after the read of the length came back with `outcome`.
    pub open spec fn next(self, outcome: Result<[u8; 4], Error>) -> Step {
        match outcome {
            Err(e) => Step::Done(Err(e)),
            Ok(bytes) => Step::Payload(
                AwaitPayload {
                    framing: self.framing,
                    wanted: self.wanted,
                    packet: self.packet,
                    error: self.error,
                    id: self.id,
                    length: be32(bytes@) as usize,
                },
            ),
        }
    }

    /// Takes the outcome of the read of the length.
    pub fn resume(self, outcome: Result<[u8; 4], Error>) -> (step: Step)
        ensures
            step == self.next(outcome),
    {
        match outcome {
            Err(e) => Step::Done(Err(e)),
            Ok(bytes) => Step::Payload(
                AwaitPayload {
                    framing: self.framing,
                    wanted: self.wanted,
                    packet: self.packet,
                    error: self.error,
                    id: self.id,
                    length: u32_from_be(&bytes) as usize,
                },
            ),
        }
    }
}

impl AwaitPayload {
    /// The step after the payload read came back with `outcome`, and the queue after it.
    pub open spec fn next(self, outcome: Result<Vec<u8>, Error>, queue: Seq<Packet>) -> (
        Step,
        Seq<Packet>,
    ) {
        match outcome {
            Err(e) => (Step::Done(Err(e)), queue),
            Ok(data) => if self.packet {
                (
                    if self.wanted == DataType::Packet {
                        Step::Done(Ok(None))
                    } else {
                        Step::Header(AwaitHeader { framing: self.framing, wanted: self.wanted })
                    },
                    queue.push(Packet { id: self.id, data }),
                )
            } else {
                (Step::Done(Ok(Some(Response { id: self.id, data, error: self.error }))), queue)
            },
        }
    }

    /// A buffer for the payload: as many zero bytes as the frame's length says.
    pub fn buffer(&self) -> (buffer: Vec<u8>)
        ensures
            buffer@ == Seq::new(self.length as nat, |i: int| 0u8),
    {
        let buffer: Vec<u8> = vec![0u8; self.length];
        assert(buffer@ =~= Seq::new(self.length as nat, |i: int| 0u8));
        buffer
    }

    /// Takes the outcome of the payload read, which completes the frame. A packet goes to the
    /// back of the queue, and the decoding goes on unless a packet was wanted. A response ends
    /// the decoding and leaves the queue alone.
    pub fn resume(self, outcome: Result<Vec<u8>, Error>, packets: &mut VecDeque<Packet>) -> (step:
        Step)
        ensures
            (step, final(packets)@) == self.next(outcome, old(packets)@),
    {
        match outcome {
            Err(e) => Step::Done(Err(e)),
            Ok(data) => if self.packet {
                packets.push_back(Packet { id: self.id, data });
                match self.wanted {
                    DataType::Packet => Step::Done(Ok(None)),
                    _ => Step::Header(AwaitHeader { framing: self.framing, wanted: self.wanted }),
                }
            } else {
                Step::Done(Ok(Some(Response { id: self.id, data, error: self.error })))
            },
        }
    }
}

/// One frame as a device sends it.
pub enum Frame {
    Response(Response),
    Packet(Packet),
    /// The frame of the remote framing that carries nothing.
    KeepAlive,
}

impl AwaitHeader {
    /// What one whole frame does to a decoder that waits for a header, and to the queue.
    pub open spec fn deliver(self, frame: Frame, queue: Seq<Packet>) -> (Step, Seq<Packet>) {
        match frame {
            Frame::KeepAlive => (Step::Header(self), queue),
            Frame::Packet(packet) => (
                if self.wanted == DataType::Packet {
                    Step::Done(Ok(None))
                } else {
                    Step::Header(self)
                },
                queue.push(packet),
            ),
            Frame::Response(response) => (Step::Done(Ok(Some(response))), queue),
        }
    }

    /// What a run of whole frames does: they are delivered in turn until one ends the
    /// decoding. The frames behind that one stay on the wire.
    pub open spec fn deliver_all(self, frames: Seq<Frame>, queue: Seq<Packet>) -> (
        Step,
        Seq<Packet>,
    )
        decreases frames.len(),
    {
        if frames.len() == 0 {
            (Step::Header(self), queue)
        } else {
            let (step, after) = self.deliver(frames[0], queue);
            if step is Header {
                self.deliver_all(frames.skip(1), after)
            } else {
                (step, after)
            }
        }
    }

    /// Four bytes that are no token of the local framing, or no tag of the remote one, end
    /// the decoding with an error, and so does the tag of a command. Nothing is skipped.
    pub proof fn lemma_unknown_header_fails(self, header: [u8; 4])
        ensures
            self.framing == Framing::Local && local::header_of(header@) is None ==> self.next(
                Ok(Some(header)),
            ) == Step::Done(Err(Error::UnknownResponseToken)),
            self.framing == Framing::Remote && DataType::of_tag(be32(header@)) is None
                ==> self.next(Ok(Some(header))) == Step::Done(Err(Error::UnknownDataType)),
            self.framing == Framing::Remote && be32(header@) == DataType::Command.tag()
                ==> self.next(Ok(Some(header))) == Step::Done(
                Err(Error::UnexpectedPayloadType),
            ),
    {
    }
}

/// A run of frames without its keep-alive frames.
pub open spec fn without_keep_alives(frames: Seq<Frame>) -> Seq<Frame>
    decreases frames.len(),
{
    if frames.len() == 0 {
        Seq::empty()
    } else if frames[0] is KeepAlive {
        without_keep_alives(frames.skip(1))
    } else {
        seq![frames[0]] + without_keep_alives(frames.skip(1))
    }
}

/// Keep-alive frames are transparent: wherever they stand in a run of frames, and however
/// many there are, the decoding returns what it returns without them, and queues what it
/// queues without them.
pub proof fn lemma_keep_alives_are_transparent(
    state: AwaitHeader,
    frames: Seq<Frame>,
    queue: Seq<Packet>,
)
    ensures
        state.deliver_all(frames, queue) == state.deliver_all(without_keep_alives(frames), queue),
    decreases frames.len(),
{
    if frames.len() > 0 {
        let rest = frames.skip(1);
        if frames[0] is KeepAlive {
            lemma_keep_alives_are_transparent(state, rest, queue);
        } else {
            let kept = seq![frames[0]] + without_keep_alives(rest);
            assert(kept[0] == frames[0]);
            assert(kept.skip(1) =~= without_keep_alives(rest));
            let (step, after) = state.deliver(frames[0], queue);
            if step is Header {
                lemma_keep_alives_are_transparent(state, rest, after);
            }
        }
    }
}

/// The packets of a run of packet frames.
pub open spec fn packet_frames(packets: Seq<Packet>) -> Seq<Frame> {
    packets.map_values(|packet: Packet| Frame::Packet(packet))
}

/// While a response is awaited, the packets that arrive before it are all queued, in the
/// order of their arrival, behind what the queue held; the response is returned, and what
/// follows it stays on the wire.
pub proof fn lemma_packets_before_response(
    state: AwaitHeader,
    packets: Seq<Packet>,
    response: Response,
    later: Seq<Frame>,
    queue: Seq<Packet>,
)
    requires
        state.wanted == DataType::Response,
    ensures
        state.deliver_all(packet_frames(packets) + seq![Frame::Response(response)] + later, queue)
            == (Step::Done(Ok(Some(response))), queue + packets),
    decreases packets.len(),
{
    let frames = packet_frames(packets) + seq![Frame::Response(response)] + later;
    if packets.len() == 0 {
        assert(frames[0] == Frame::Response(response));
        assert(queue + packets =~= queue);
    } else {
        let rest = packets.skip(1);
        assert(frames[0] == Frame::Packet(packets[0]));
        assert(frames.skip(1) =~= packet_frames(rest) + seq![Frame::Response(response)] + later);
        lemma_packets_before_response(state, rest, response, later, queue.push(packets[0]));
        assert(queue.push(packets[0]) + rest =~= queue + packets);
    }
}

/// Where a packet is wanted, the first packet frame ends the decoding: it is queued, and no
/// response is returned.
pub proof fn lemma_first_packet_ends_the_wait(
    state: AwaitHeader,
    packet: Packet,
    later: Seq<Frame>,
    queue: Seq<Packet>,
)
    requires
        state.wanted == DataType::Packet,
    ensures
        state.deliver_all(seq![Frame::Packet(packet)] + later, queue) == (
            Step::Done(Ok(None)),
            queue.push(packet),
        ),
{
    let frames = seq![Frame::Packet(packet)] + later;
    assert(frames[0] == Frame::Packet(packet));
}

/// The payload of a frame.
pub open spec fn data_of(frame: Frame) -> Seq<u8> {
    match frame {
        Frame::Response(response) => response.data@,
        Frame::Packet(packet) => packet.data@,
        Frame::KeepAlive => Seq::empty(),
    }
}

/// A frame with its payload held in `data`.
pub open spec fn with_data(frame: Frame, data: Vec<u8>) -> Frame {
    match frame {
        Frame::Response(response) => Frame::Response(
            Response { id: response.id, data, error: response.error },
        ),
        Frame::Packet(packet) => Frame::Packet(Packet { id: packet.id, data }),
        Frame::KeepAlive => Frame::KeepAlive,
    }
}

/// The bytes of a frame on its way from the device, in either framing. The local framing has
/// no keep-alive frame.
pub open spec fn frame_bytes(framing: Framing, frame: Frame) -> Seq<u8>
    recommends
        data_of(frame).len() <= u32::MAX,
        framing == Framing::Local ==> !(frame is KeepAlive),
{
    match framing {
        Framing::Local => match frame {
            Frame::Response(response) => local::header_bytes(
                local::Header { packet: false, error: response.error, id: response.id },
            ) + be32_bytes(response.data@.len() as u32) + response.data@,
            Frame::Packet(packet) => local::header_bytes(
                local::Header { packet: true, error: false, id: packet.id },
            ) + be32_bytes(packet.data@.len() as u32) + packet.data@,
            Frame::KeepAlive => Seq::empty(),
        },
        Framing::Remote => match frame {
            Frame::Response(response) => be32_bytes(DataType::Response.tag()) + seq![
                response.id,
                if response.error {
                    1u8
                } else {
                    0u8
                },
            ] + be32_bytes(response.data@.len() as u32) + response.data@,
            Frame::Packet(packet) => be32_bytes(DataType::Packet.tag()) + seq![packet.id]
                + be32_bytes(packet.data@.len() as u32) + packet.data@,
            Frame::KeepAlive => be32_bytes(DataType::KeepAlive.tag()),
        },
    }
}

/// A frame of the local framing is read back from its bytes: where the header read delivers
/// its first four bytes, the length read the next four and the payload read the rest, the
/// decoder asks for a payload of the frame's length and delivers the frame.
pub proof fn lemma_local_frame_is_read_back(
    state: AwaitHeader,
    frame: Frame,
    header: [u8; 4],
    length: [u8; 4],
    data: Vec<u8>,
    queue: Seq<Packet>,
)
    requires
        state.framing == Framing::Local,
        !(frame is KeepAlive),
        data_of(frame).len() <= u32::MAX,
        header@ == frame_bytes(Framing::Local, frame).subrange(0, 4),
        length@ == frame_bytes(Framing::Local, frame).subrange(4, 8),
        data@ == frame_bytes(Framing::Local, frame).skip(8),
    ensures
        data@ == data_of(frame),
        ({
            &&& state.next(Ok(Some(header))) matches Step::Length(l)
            &&& l.next(Ok(length)) matches Step::Payload(p)
            &&& p.length == data@.len()
            &&& p.next(Ok(data), queue) == state.deliver(with_data(frame, data), queue)
        }),
{
    let bytes = frame_bytes(Framing::Local, frame);
    let size = data_of(frame).len() as u32;
    let h = match frame {
        Frame::Response(response) => local::Header {
            packet: false,
            error: response.error,
            id: response.id,
        },
        Frame::Packet(packet) => local::Header { packet: true, error: false, id: packet.id },
        Frame::KeepAlive => arbitrary(),
    };
    local::lemma_header_round_trip(h);
    lemma_be32_of_bytes(size);
    assert(bytes == local::header_bytes(h) + be32_bytes(size) + data_of(frame));
    assert(bytes.subrange(0, 4) =~= local::header_bytes(h));
    assert(bytes.subrange(4, 8) =~= be32_bytes(size));
    assert(bytes.skip(8) =~= data_of(frame));
}

/// A response or packet frame of the remote framing is read back from its bytes: where the
/// reads deliver tag, info, length and payload as they stand in the frame, the decoder asks
/// for a payload of the frame's length and delivers the frame.
pub proof fn lemma_remote_frame_is_read_back(
    state: AwaitHeader,
    frame: Frame,
    header: [u8; 4],
    response_info: [u8; 2],
    packet_info: [u8; 1],
    length: [u8; 4],
    data: Vec<u8>,
    queue: Seq<Packet>,
)
    requires
        state.framing == Framing::Remote,
        !(frame is KeepAlive),
        data_of(frame).len() <= u32::MAX,
        header@ == frame_bytes(Framing::Remote, frame).subrange(0, 4),
        frame is Response ==> {
            &&& response_info@ == frame_bytes(Framing::Remote, frame).subrange(4, 6)
            &&& length@ == frame_bytes(Framing::Remote, frame).subrange(6, 10)
            &&& data@ == frame_bytes(Framing::Remote, frame).skip(10)
        },
        frame is Packet ==> {
            &&& packet_info@ == frame_bytes(Framing::Remote, frame).subrange(4, 5)
            &&& length@ == frame_bytes(Framing::Remote, frame).subrange(5, 9)
            &&& data@ == frame_bytes(Framing::Remote, frame).skip(9)
        },
    ensures
        data@ == data_of(frame),
        frame is Response ==> ({
            &&& state.next(Ok(Some(header))) matches Step::ResponseInfo(i)
            &&& i.next(Ok(response_info)) matches Step::Length(l)
            &&& l.next(Ok(length)) matches Step::Payload(p)
            &&& p.length == data@.len()
            &&& p.next(Ok(data), queue) == state.deliver(with_data(frame, data), queue)
        }),
        frame is Packet ==> ({
            &&& state.next(Ok(Some(header))) matches Step::PacketInfo(i)
            &&& i.next(Ok(packet_info)) matches Step::Length(l)
            &&& l.next(Ok(length)) matches Step::Payload(p)
            &&& p.length == data@.len()
            &&& p.next(Ok(data), queue) == state.deliver(with_data(frame, data), queue)
        }),
{
    let bytes = frame_bytes(Framing::Remote, frame);
    let size = data_of(frame).len() as u32;
    lemma_be32_of_bytes(size);
    match frame {
        Frame::Response(response) => {
            let flag = if response.error {
                1u8
            } else {
                0u8
            };
            lemma_be32_of_bytes(DataType::Response.tag());
            assert(bytes.subrange(0, 4) =~= be32_bytes(DataType::Response.tag()));
            assert(bytes.subrange(4, 6) =~= seq![response.id, flag]);
            assert(response_info@[0] == response.id);
            assert(response_info@[1] == flag);
            assert(bytes.subrange(6, 10) =~= be32_bytes(size));
            assert(bytes.skip(10) =~= response.data@);
        },
        Frame::Packet(packet) => {
            lemma_be32_of_bytes(DataType::Packet.tag());
            assert(bytes.subrange(0, 4) =~= be32_bytes(DataType::Packet.tag()));
            assert(bytes.subrange(4, 5) =~= seq![packet.id]);
            assert(packet_info@[0] == packet.id);
            assert(bytes.subrange(5, 9) =~= be32_bytes(size));
            assert(bytes.skip(9) =~= packet.data@);
        },
        Frame::KeepAlive => {},
    }
}

/// A keep-alive frame is read back from its bytes, and delivers nothing.
pub proof fn lemma_keep_alive_is_read_back(state: AwaitHeader, header: [u8; 4], queue: Seq<Packet>)
    requires
        state.framing == Framing::Remote,
        header@ == frame_bytes(Framing::Remote, Frame::KeepAlive),
    ensures
        (state.next(Ok(Some(header))), queue) == state.deliver(Frame::KeepAlive, queue),
{
    lemma_be32_of_bytes(DataType::KeepAlive.tag());
}

} // verus!
