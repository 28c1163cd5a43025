// The link over a scripted channel: what the device sends is written down beforehand, and a
// clock that the script drives stands in for time.

use sc64_link::backend::Backend;
use sc64_link::decoder::{self, Framing, Step};
use sc64_link::read::{begin_purge, begin_read, PurgeStep, ReadStep};
use sc64_link::{new_local, new_remote, Command, DataType, Error, IoError, IoErrorKind, Link, Packet, Response};
use std::cell::RefCell;
use std::collections::VecDeque;
use std::rc::Rc;

/// What one raw read finds.
#[derive(Debug, Clone)]
enum Read {
    /// Bytes: a read takes as many as its buffer holds and leaves the rest for the next.
    Bytes(Vec<u8>),
    /// Nothing within the poll timeout.
    Quiet,
    /// The end of the stream.
    End,
    /// A broken channel.
    Broken,
}

#[derive(Debug, Default)]
struct Script {
    incoming: VecDeque<Read>,
    written: Vec<u8>,
    flushes: usize,
    reads: usize,
    resets: usize,
    closes: usize,
    fail_reset: bool,
    fail_write: bool,
    now: u128,
    /// How far the clock moves with each raw read.
    tick: u128,
}

struct Wire {
    framing: Framing,
    script: Rc<RefCell<Script>>,
}

fn failure(kind: IoErrorKind, message: &str) -> IoError {
    IoError { kind, message: message.to_string() }
}

impl Backend for Wire {
    fn reset(&mut self) -> Result<(), Error> {
        let mut script = self.script.borrow_mut();
        script.resets += 1;
        if script.fail_reset {
            Err(Error::ResetOn)
        } else {
            Ok(())
        }
    }

    fn close(&self) {
        self.script.borrow_mut().closes += 1;
    }

    fn read(&mut self, buffer: &mut [u8]) -> Result<usize, IoError> {
        let mut script = self.script.borrow_mut();
        script.reads += 1;
        script.now += script.tick;
        match script.incoming.pop_front() {
            None | Some(Read::Quiet) => Err(failure(IoErrorKind::TimedOut, "timed out")),
            Some(Read::End) => Ok(0),
            Some(Read::Broken) => Err(failure(IoErrorKind::Other, "broken pipe")),
            Some(Read::Bytes(bytes)) => {
                let count = bytes.len().min(buffer.len());
                buffer[..count].copy_from_slice(&bytes[..count]);
                if count < bytes.len() {
                    script.incoming.push_front(Read::Bytes(bytes[count..].to_vec()));
                }
                Ok(count)
            }
        }
    }

    fn write(&mut self, buffer: &[u8]) -> Result<(), IoError> {
        let mut script = self.script.borrow_mut();
        if script.fail_write {
            return Err(failure(IoErrorKind::Other, "write failed"));
        }
        script.written.extend_from_slice(buffer);
        Ok(())
    }

    fn flush(&mut self) -> Result<(), IoError> {
        self.script.borrow_mut().flushes += 1;
        Ok(())
    }

    fn purge_incoming_data(&mut self) -> Result<(), Error> {
        let now = self.script.borrow().now;
        let mut step = begin_purge(now);
        loop {
            match step {
                PurgeStep::Done(result) => return result,
                PurgeStep::Read(pending) => {
                    let mut byte = [0u8; 1];
                    let outcome = self.read(&mut byte);
                    let now = self.script.borrow().now;
                    step = pending.resume(outcome, now);
                }
            }
        }
    }

    fn try_read(&mut self, buffer: &mut [u8], block: bool) -> Result<Option<()>, Error> {
        let now = self.script.borrow().now;
        let mut step = begin_read(buffer.len(), block, now);
        loop {
            match step {
                ReadStep::Done(result) => return result,
                ReadStep::Read(pending) => {
                    let outcome = self.read(&mut buffer[pending.position..]);
                    let now = self.script.borrow().now;
                    step = pending.resume(outcome, now);
                }
            }
        }
    }

    fn send_command(&mut self, command: &Command) -> Result<(), Error> {
        let frame = match self.framing {
            Framing::Local => sc64_link::local::encode_command(command),
            Framing::Remote => {
                assert!(command.data.len() <= sc64_link::remote::MAX_DATA_LENGTH);
                sc64_link::remote::encode_command(command)
            }
        };
        self.send_frame(&frame)
    }

    fn process_incoming_data(
        &mut self,
        data_type: DataType,
        packets: &mut VecDeque<Packet>,
    ) -> Result<Option<Response>, Error> {
        let mut step = decoder::begin(self.framing, data_type);
        loop {
            step = match step {
                Step::Done(result) => return result,
                Step::Header(state) => {
                    let outcome = self.try_read_header(state.block());
                    state.resume(outcome)
                }
                Step::ResponseInfo(state) => {
                    let mut info = [0u8; 2];
                    let outcome = self.read_exact(&mut info).map(|_| info);
                    state.resume(outcome)
                }
                Step::PacketInfo(state) => {
                    let mut info = [0u8; 1];
                    let outcome = self.read_exact(&mut info).map(|_| info);
                    state.resume(outcome)
                }
                Step::Length(state) => {
                    let mut length = [0u8; 4];
                    let outcome = self.read_exact(&mut length).map(|_| length);
                    state.resume(outcome)
                }
                Step::Payload(state) => {
                    let mut data = state.buffer();
                    let outcome = self.read_exact(&mut data).map(|_| data);
                    state.resume(outcome, packets)
                }
            };
        }
    }
}

fn script(reads: Vec<Read>) -> Rc<RefCell<Script>> {
    Rc::new(RefCell::new(Script {
        incoming: reads.into_iter().collect(),
        tick: 1_000_000,
        ..Script::default()
    }))
}

fn local_link(reads: Vec<Read>) -> (Link, Rc<RefCell<Script>>) {
    let script = script(reads);
    let wire = Wire { framing: Framing::Local, script: script.clone() };
    (new_local(Box::new(wire)).expect("the reset succeeds"), script)
}

fn remote_link(reads: Vec<Read>) -> (Link, Rc<RefCell<Script>>) {
    let script = script(reads);
    let wire = Wire { framing: Framing::Remote, script: script.clone() };
    (new_remote(Box::new(wire)).expect("nothing can fail"), script)
}

fn local_frame(token: &[u8; 3], id: u8, payload: &[u8]) -> Vec<u8> {
    let mut frame = token.to_vec();
    frame.push(id);
    frame.extend_from_slice(&(payload.len() as u32).to_be_bytes());
    frame.extend_from_slice(payload);
    frame
}

fn remote_response(id: u8, error: u8, payload: &[u8]) -> Vec<u8> {
    let mut frame = 2u32.to_be_bytes().to_vec();
    frame.push(id);
    frame.push(error);
    frame.extend_from_slice(&(payload.len() as u32).to_be_bytes());
    frame.extend_from_slice(payload);
    frame
}

fn remote_packet(id: u8, payload: &[u8]) -> Vec<u8> {
    let mut frame = 3u32.to_be_bytes().to_vec();
    frame.push(id);
    frame.extend_from_slice(&(payload.len() as u32).to_be_bytes());
    frame.extend_from_slice(payload);
    frame
}

fn keep_alive() -> Vec<u8> {
    0xCAFE_BEEFu32.to_be_bytes().to_vec()
}

fn command(id: u8) -> Command {
    Command { id, args: [0, 0], data: vec![] }
}

#[test]
fn local_success_response_gives_empty_payload() {
    let (mut link, script) = local_link(vec![Read::Bytes(local_frame(b"CMP", 5, &[]))]);
    assert_eq!(link.execute_command(&command(5)), Ok(vec![]));
    let script = script.borrow();
    assert_eq!(script.written, b"CMD\x05\0\0\0\0\0\0\0\0".to_vec());
    assert_eq!(script.flushes, 1);
    assert_eq!(script.resets, 1);
}

#[test]
fn local_error_response_fails_the_command() {
    let (mut link, _) = local_link(vec![Read::Bytes(local_frame(b"ERR", 5, &[1, 2, 3]))]);
    assert_eq!(
        link.execute_command_raw(&command(5), false, false),
        Err(Error::CommandResponse(None))
    );
}

#[test]
fn local_error_response_is_returned_when_errors_are_ignored() {
    let (mut link, _) = local_link(vec![Read::Bytes(local_frame(b"ERR", 5, &[1, 2, 3]))]);
    assert_eq!(link.execute_command_raw(&command(5), false, true), Ok(vec![1, 2, 3]));
}

#[test]
fn execute_command_does_not_ignore_errors() {
    let (mut link, _) = local_link(vec![Read::Bytes(local_frame(b"ERR", 5, &[1, 2, 3]))]);
    assert_eq!(link.execute_command(&command(5)), Err(Error::CommandResponse(None)));
}

#[test]
fn packet_before_response_is_queued_and_handed_out_later() {
    let mut wire = local_frame(b"PKT", 9, &[0xAA]);
    wire.extend_from_slice(&local_frame(b"CMP", 5, &[]));
    let (mut link, script) = local_link(vec![Read::Bytes(wire)]);
    assert_eq!(link.execute_command(&command(5)), Ok(vec![]));
    let reads = script.borrow().reads;
    assert_eq!(link.receive_packet(), Ok(Some(Packet { id: 9, data: vec![0xAA] })));
    assert_eq!(script.borrow().reads, reads, "a queued packet is handed out without a read");
    assert_eq!(link.receive_packet(), Ok(None));
    assert_eq!(script.borrow().reads, reads + 1, "an empty queue goes to the wire, once");
}

#[test]
fn remote_response_with_another_id_is_a_mismatch() {
    let (mut link, _) = remote_link(vec![Read::Bytes(remote_response(7, 0, &[]))]);
    assert_eq!(link.execute_command(&command(5)), Err(Error::ResponseIdMismatch));
}

#[test]
fn remote_keep_alive_before_response_changes_nothing() {
    let mut wire = keep_alive();
    wire.extend_from_slice(&remote_response(5, 0, &[]));
    let (mut with, _) = remote_link(vec![Read::Bytes(wire)]);
    let (mut without, _) = remote_link(vec![Read::Bytes(remote_response(5, 0, &[]))]);
    let result = with.execute_command(&command(5));
    assert_eq!(result, Ok(vec![]));
    assert_eq!(result, without.execute_command(&command(5)));
    assert_eq!(with.receive_packet(), Ok(None));
    assert_eq!(without.receive_packet(), Ok(None));
}

#[test]
fn many_keep_alives_are_transparent() {
    let mut wire = Vec::new();
    for _ in 0..17 {
        wire.extend_from_slice(&keep_alive());
    }
    wire.extend_from_slice(&remote_packet(4, &[1, 2]));
    for _ in 0..3 {
        wire.extend_from_slice(&keep_alive());
    }
    wire.extend_from_slice(&remote_response(5, 1, &[9]));
    let (mut link, _) = remote_link(vec![Read::Bytes(wire)]);
    assert_eq!(link.execute_command_raw(&command(5), false, true), Ok(vec![9]));
    assert_eq!(link.receive_packet(), Ok(Some(Packet { id: 4, data: vec![1, 2] })));
    assert_eq!(link.receive_packet(), Ok(None));
}

#[test]
fn remote_error_flag_is_any_value_but_zero() {
    let (mut link, _) = remote_link(vec![Read::Bytes(remote_response(5, 0x80, &[7]))]);
    assert_eq!(link.execute_command(&command(5)), Err(Error::CommandResponse(None)));
}

#[test]
fn remote_command_is_written_with_its_length() {
    let (mut link, script) = remote_link(vec![]);
    let command = Command { id: 0x42, args: [0x0102_0304, 0xA0B0_C0D0], data: vec![1, 2, 3] };
    assert_eq!(link.execute_command_raw(&command, true, false), Ok(vec![]));
    assert_eq!(
        script.borrow().written,
        vec![0, 0, 0, 1, 0x42, 1, 2, 3, 4, 0xA0, 0xB0, 0xC0, 0xD0, 0, 0, 0, 3, 1, 2, 3]
    );
    assert_eq!(script.borrow().resets, 0, "a remote link is not reset");
}

#[test]
fn local_command_is_written_without_a_length() {
    let (mut link, script) = local_link(vec![]);
    let command = Command { id: 0x42, args: [0x0102_0304, 0xA0B0_C0D0], data: vec![1, 2, 3] };
    assert_eq!(link.execute_command_raw(&command, true, false), Ok(vec![]));
    assert_eq!(
        script.borrow().written,
        vec![0x43, 0x4D, 0x44, 0x42, 1, 2, 3, 4, 0xA0, 0xB0, 0xC0, 0xD0, 1, 2, 3]
    );
    assert_eq!(script.borrow().reads, 0, "nothing is read where no response is awaited");
}

#[test]
fn packets_keep_their_order() {
    let mut wire = Vec::new();
    for id in 1..=5u8 {
        wire.extend_from_slice(&local_frame(b"PKT", id, &[id, id]));
    }
    wire.extend_from_slice(&local_frame(b"CMP", 5, &[0xFF]));
    wire.extend_from_slice(&local_frame(b"PKT", 6, &[]));
    let (mut link, _) = local_link(vec![Read::Bytes(wire)]);
    assert_eq!(link.execute_command(&command(5)), Ok(vec![0xFF]));
    for id in 1..=5u8 {
        assert_eq!(link.receive_packet(), Ok(Some(Packet { id, data: vec![id, id] })));
    }
    assert_eq!(link.receive_packet(), Ok(Some(Packet { id: 6, data: vec![] })));
    assert_eq!(link.receive_packet(), Ok(None));
    assert_eq!(link.receive_packet(), Ok(None));
}

#[test]
fn queued_packets_survive_a_failed_command() {
    let mut wire = local_frame(b"PKT", 1, &[1]);
    wire.extend_from_slice(&local_frame(b"CMP", 8, &[]));
    let (mut link, _) = local_link(vec![Read::Bytes(wire)]);
    assert_eq!(link.execute_command(&command(5)), Err(Error::ResponseIdMismatch));
    assert_eq!(link.receive_packet(), Ok(Some(Packet { id: 1, data: vec![1] })));
}

#[test]
fn response_while_waiting_for_a_packet_is_refused() {
    let (mut link, _) = local_link(vec![Read::Bytes(local_frame(b"CMP", 5, &[]))]);
    assert_eq!(link.receive_packet(), Err(Error::UnexpectedResponse));
}

#[test]
fn unknown_local_token_fails_the_command() {
    let (mut link, _) = local_link(vec![Read::Bytes(b"XYZ\x05\0\0\0\0".to_vec())]);
    assert_eq!(
        link.execute_command(&command(5)),
        Err(Error::CommandResponse(Some(Box::new(Error::UnknownResponseToken))))
    );
}

#[test]
fn unknown_local_token_fails_the_wait_for_a_packet() {
    let (mut link, _) = local_link(vec![Read::Bytes(b"cmp\x05\0\0\0\0".to_vec())]);
    assert_eq!(link.receive_packet(), Err(Error::UnknownResponseToken));
}

#[test]
fn unknown_remote_tag_fails_the_command() {
    let (mut link, _) = remote_link(vec![Read::Bytes(vec![0, 0, 0, 4, 5, 0, 0, 0, 0, 0])]);
    assert_eq!(
        link.execute_command(&command(5)),
        Err(Error::CommandResponse(Some(Box::new(Error::UnknownDataType))))
    );
}

#[test]
fn command_tag_from_the_device_is_refused() {
    let (mut link, _) = remote_link(vec![Read::Bytes(vec![0, 0, 0, 1])]);
    assert_eq!(link.receive_packet(), Err(Error::UnexpectedPayloadType));
}

#[test]
fn silent_device_times_out_after_five_seconds() {
    let (mut link, script) = local_link(vec![]);
    assert_eq!(
        link.execute_command(&command(5)),
        Err(Error::CommandResponse(Some(Box::new(Error::ReadTimeout))))
    );
    // One read a millisecond: the first that is later than five seconds ends the wait.
    assert_eq!(script.borrow().reads, 5001);
}

#[test]
fn trickling_device_times_out_all_the_same() {
    // A byte every two seconds: the third byte comes too late, though the wire was never dry.
    let frame = local_frame(b"CMP", 5, &[]);
    let reads = frame.iter().map(|byte| Read::Bytes(vec![*byte])).collect();
    let (mut link, script) = local_link(reads);
    script.borrow_mut().tick = 2_000_000_000;
    assert_eq!(
        link.execute_command(&command(5)),
        Err(Error::CommandResponse(Some(Box::new(Error::ReadTimeout))))
    );
    assert_eq!(script.borrow().reads, 3);
}

#[test]
fn end_of_stream_inside_a_frame_is_an_error() {
    let (mut link, _) = local_link(vec![Read::Bytes(b"CMP\x05\0\0".to_vec()), Read::End]);
    assert_eq!(
        link.execute_command(&command(5)),
        Err(Error::CommandResponse(Some(Box::new(Error::UnexpectedEndOfStream))))
    );
}

#[test]
fn broken_channel_is_reported_with_its_cause() {
    let (mut link, _) = local_link(vec![Read::Broken]);
    assert_eq!(
        link.receive_packet(),
        Err(Error::Io(IoError { kind: IoErrorKind::Other, message: "broken pipe".to_string() }))
    );
}

#[test]
fn failed_write_fails_the_command_before_any_read() {
    let (mut link, script) = local_link(vec![Read::Bytes(local_frame(b"CMP", 5, &[]))]);
    script.borrow_mut().fail_write = true;
    assert_eq!(
        link.execute_command(&command(5)),
        Err(Error::Io(IoError { kind: IoErrorKind::Other, message: "write failed".to_string() }))
    );
    assert_eq!(script.borrow().reads, 0);
    assert_eq!(script.borrow().flushes, 0);
}

#[test]
fn frame_split_over_many_reads_is_put_together() {
    let mut wire = local_frame(b"PKT", 2, &[1, 2, 3, 4, 5]);
    wire.extend_from_slice(&local_frame(b"ERR", 5, &[6, 7]));
    let mut reads = Vec::new();
    for byte in wire {
        reads.push(Read::Quiet);
        reads.push(Read::Bytes(vec![byte]));
    }
    let (mut link, script) = local_link(reads);
    script.borrow_mut().tick = 1_000;
    assert_eq!(link.execute_command_raw(&command(5), false, true), Ok(vec![6, 7]));
    assert_eq!(link.receive_packet(), Ok(Some(Packet { id: 2, data: vec![1, 2, 3, 4, 5] })));
}

#[test]
fn packet_wait_stops_after_one_packet() {
    let mut wire = remote_packet(1, &[1]);
    wire.extend_from_slice(&remote_packet(2, &[2]));
    let (mut link, script) = remote_link(vec![Read::Bytes(wire)]);
    assert_eq!(link.receive_packet(), Ok(Some(Packet { id: 1, data: vec![1] })));
    assert_eq!(script.borrow().incoming.len(), 1, "the second packet is still on the wire");
    assert_eq!(link.receive_packet(), Ok(Some(Packet { id: 2, data: vec![2] })));
    assert_eq!(link.receive_packet(), Ok(None));
}

#[test]
fn failed_reset_gives_no_link() {
    let script = script(vec![]);
    script.borrow_mut().fail_reset = true;
    let wire = Wire { framing: Framing::Local, script: script.clone() };
    assert!(matches!(new_local(Box::new(wire)), Err(Error::ResetOn)));
    assert_eq!(script.borrow().resets, 1);
}

#[test]
fn close_shuts_the_backend_down_once() {
    let (link, script) = local_link(vec![]);
    assert_eq!(script.borrow().closes, 0);
    link.close();
    assert_eq!(script.borrow().closes, 1);
}

#[test]
fn purge_reads_until_the_wire_is_dry() {
    let script = script(vec![Read::Bytes(vec![1, 2, 3])]);
    let mut wire = Wire { framing: Framing::Local, script: script.clone() };
    assert_eq!(wire.purge_incoming_data(), Ok(()));
    assert_eq!(script.borrow().reads, 4);
}

#[test]
fn purge_gives_up_on_a_wire_that_never_runs_dry() {
    let script = script(vec![Read::Bytes(vec![0; 4000])]);
    script.borrow_mut().tick = 1_000_000;
    let mut wire = Wire { framing: Framing::Local, script: script.clone() };
    assert_eq!(wire.purge_incoming_data(), Err(Error::PurgeTimeout));
    assert_eq!(script.borrow().reads, 1000);
}

#[test]
fn read_exact_fails_where_nothing_arrives() {
    let script = script(vec![]);
    script.borrow_mut().tick = 0;
    script.borrow_mut().incoming.push_back(Read::Bytes(vec![1, 2]));
    let mut wire = Wire { framing: Framing::Local, script: script.clone() };
    let mut buffer = [0u8; 2];
    assert_eq!(wire.read_exact(&mut buffer), Ok(()));
    assert_eq!(buffer, [1, 2]);
    assert_eq!(wire.try_read_header(false), Ok(None));
    let mut empty = [0u8; 0];
    assert_eq!(wire.read_exact(&mut empty), Ok(()));
}

/// A backend whose decoding finds nothing, whatever is asked for.
struct Mute;

impl Backend for Mute {
    fn reset(&mut self) -> Result<(), Error> {
        Ok(())
    }

    fn close(&self) {}

    fn read(&mut self, _buffer: &mut [u8]) -> Result<usize, IoError> {
        Err(failure(IoErrorKind::TimedOut, "timed out"))
    }

    fn write(&mut self, _buffer: &[u8]) -> Result<(), IoError> {
        Ok(())
    }

    fn flush(&mut self) -> Result<(), IoError> {
        Ok(())
    }

    fn purge_incoming_data(&mut self) -> Result<(), Error> {
        Ok(())
    }

    fn try_read(&mut self, _buffer: &mut [u8], _block: bool) -> Result<Option<()>, Error> {
        Ok(None)
    }

    fn process_incoming_data(
        &mut self,
        _data_type: DataType,
        _packets: &mut VecDeque<Packet>,
    ) -> Result<Option<Response>, Error> {
        Ok(None)
    }
}

#[test]
fn wait_that_ends_without_a_response_is_an_error() {
    let mut link = new_remote(Box::new(Mute)).expect("nothing can fail");
    assert_eq!(link.execute_command(&command(5)), Err(Error::NoResponse));
    assert_eq!(link.execute_command_raw(&command(5), true, false), Ok(vec![]));
    assert_eq!(link.receive_packet(), Ok(None));
}

#[test]
fn read_that_must_deliver_fails_on_a_backend_that_finds_nothing() {
    let mut mute = Mute;
    let mut buffer = [0u8; 3];
    assert_eq!(mute.read_exact(&mut buffer), Err(Error::UnexpectedEndOfData));
    assert_eq!(mute.try_read_header(true), Ok(None));
}
