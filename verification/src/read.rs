//! Reads that are bounded in time: filling a buffer, and purging what a channel still holds.
//!
//! Both are loops over a raw read whose duration nobody knows, so both are written as step
//! functions. The caller performs one raw read, hands in what came back and when, and gets the
//! next step: read again, or stop with a result.

use vstd::prelude::*;
use crate::clock::elapsed;
use crate::clock::elapsed_since;
use crate::clock::READ_TIMEOUT;
use crate::clock::RESET_TIMEOUT;
use crate::error::Error;
use crate::error::IoError;
use crate::error::IoErrorKind;

verus! {

/// A buffer that is being filled: `position` of its `length` bytes are there.
#[derive(Debug, Clone, Copy, PartialEq, Eq, Structural)]
pub struct PendingRead {
    /// The length of the buffer.
    pub length: usize,
    /// How many bytes have arrived. The next raw read goes to the buffer from here on.
    pub position: usize,
    /// Whether to wait for the first byte. Once a byte is there, the read always waits.
    pub block: bool,
    /// When the read began.
    pub started: u128,
}

/// Where the filling of a buffer stands.
#[derive(Debug, PartialEq, Eq)]
pub enum ReadStep {
    /// Read once more.
    Read(PendingRead),
    /// The buffer is full (`Some`), or nothing was there and the read was not to wait
    /// (`None`), or the read failed.
    Done(Result<Option<()>, Error>),
}

/// The first step of filling a buffer of `length` bytes: an empty buffer is full at once.
pub open spec fn first_read(length: usize, block: bool, now: u128) -> ReadStep {
    if length == 0 {
        ReadStep::Done(Ok(Some(())))
    } else {
        ReadStep::Read(PendingRead { length, position: 0, block, started: now })
    }
}

/// Starts filling a buffer of `length` bytes at time `now`.
pub fn begin_read(length: usize, block: bool, now: u128) -> (step: ReadStep)
    ensures
        step == first_read(length, block, now),
        step matches ReadStep::Read(p) ==> p.position < p.length,
{
    if length == 0 {
        ReadStep::Done(Ok(Some(())))
    } else {
        ReadStep::Read(PendingRead { length, position: 0, block, started: now })
    }
}

impl PendingRead {
    /// The step once `position` bytes are there at time `now`, the raw read having neither
    /// failed for good nor ended the read. The deadline comes first: a buffer that fills too
    /// late is a timeout as well.
    pub open spec fn proceed(self, position: int, now: u128) -> ReadStep {
        if elapsed(self.started, now) > READ_TIMEOUT {
            ReadStep::Done(Err(Error::ReadTimeout))
        } else if position >= self.length {
            ReadStep::Done(Ok(Some(())))
        } else {
            ReadStep::Read(
                PendingRead {
                    length: self.length,
                    position: position as usize,
                    block: self.block,
                    started: self.started,
                },
            )
        }
    }

    /// The step after a raw read came back with `outcome` at time `now`.
    pub open spec fn next(self, outcome: Result<usize, IoError>, now: u128) -> ReadStep {
        match outcome {
            Ok(count) => if count == 0 {
                ReadStep::Done(Err(Error::UnexpectedEndOfStream))
            } else {
                self.proceed(self.position + count, now)
            },
            Err(e) => if e.kind.transient() {
                if !self.block && self.position == 0 {
                    ReadStep::Done(Ok(None))
                } else {
                    self.proceed(self.position as int, now)
                }
            } else {
                ReadStep::Done(Err(Error::Io(e)))
            },
        }
    }

    /// Takes the outcome of one raw read into the buffer from `position` on, observed at time
    /// `now`.
    ///
    /// A read of no bytes is the end of the stream. A transient failure is tried again, unless
    /// the read was not to wait and nothing has arrived yet. Any other failure ends the read.
    /// After that, a read that has lasted longer than [`READ_TIMEOUT`] has timed out, however
    /// much has arrived.
    pub fn resume(self, outcome: Result<usize, IoError>, now: u128) -> (step: ReadStep)
        ensures
            step == self.next(outcome, now),
            self.position < self.length ==> (step matches ReadStep::Read(p) ==> p.position
                < p.length && p.length == self.length && p.position >= self.position),
    {
        let position: usize = match outcome {
            Ok(count) => {
                if count == 0 {
                    return ReadStep::Done(Err(Error::UnexpectedEndOfStream));
                }
                if self.position >= self.length || count >= self.length - self.position {
                    self.length
                } else {
                    self.position + count
                }
            },
            Err(e) => {
                if !e.kind.is_transient() {
                    return ReadStep::Done(Err(Error::Io(e)));
                }
                if !self.block && self.position == 0 {
                    return ReadStep::Done(Ok(None));
                }
                self.position
            },
        };
        if elapsed_since(self.started, now) > READ_TIMEOUT {
            ReadStep::Done(Err(Error::ReadTimeout))
        } else if position >= self.length {
            ReadStep::Done(Ok(Some(())))
        } else {
            ReadStep::Read(
                PendingRead {
                    length: self.length,
                    position,
                    block: self.block,
                    started: self.started,
                },
            )
        }
    }
}

/// A purge in progress: input is read and thrown away until the channel runs dry.
#[derive(Debug, Clone, Copy, PartialEq, Eq, Structural)]
pub struct PendingPurge {
    /// When the purge began.
    pub started: u128,
}

/// Where a purge stands.
#[derive(Debug, PartialEq, Eq)]
pub enum PurgeStep {
    /// Read one more byte and throw it away.
    Read(PendingPurge),
    /// The channel is dry, or the purge failed.
    Done(Result<(), Error>),
}

/// Starts a purge at time `now`.
pub fn begin_purge(now: u128) -> (step: PurgeStep)
    ensures
        step == PurgeStep::Read(PendingPurge { started: now }),
{
    PurgeStep::Read(PendingPurge { started: now })
}

impl PendingPurge {
    /// The step after a raw read of one byte came back with `outcome` at time `now`.
    pub open spec fn next(self, outcome: Result<usize, IoError>, now: u128) -> PurgeStep {
        match outcome {
            Ok(count) => if count == 0 {
                PurgeStep::Done(Ok(()))
            } else if elapsed(self.started, now) >= RESET_TIMEOUT {
                PurgeStep::Done(Err(Error::PurgeTimeout))
            } else {
                PurgeStep::Read(self)
            },
            Err(e) => if e.kind == IoErrorKind::TimedOut {
                PurgeStep::Done(Ok(()))
            } else {
                PurgeStep::Done(Err(Error::Io(e)))
            },
        }
    }

    /// Takes the outcome of one raw read of one byte, observed at time `now`.
    ///
    /// The channel is dry once a read delivers nothing or times out. Any other failure ends
    /// the purge, and so does a channel that still delivers after [`RESET_TIMEOUT`].
    pub fn resume(self, outcome: Result<usize, IoError>, now: u128) -> (step: PurgeStep)
        ensures
            step == self.next(outcome, now),
    {
        match outcome {
            Ok(count) => {
                if count == 0 {
                    PurgeStep::Done(Ok(()))
                } else if elapsed_since(self.started, now) >= RESET_TIMEOUT {
                    PurgeStep::Done(Err(Error::PurgeTimeout))
                } else {
                    PurgeStep::Read(self)
                }
            },
            Err(e) => match e.kind {
                IoErrorKind::TimedOut => PurgeStep::Done(Ok(())),
                _ => PurgeStep::Done(Err(Error::Io(e))),
            },
        }
    }
}

/// What one raw read came to, and when it was observed.
pub struct RawRead {
    pub outcome: Result<usize, IoError>,
    pub now: u128,
}

/// Where the filling of a buffer stands after a run of raw reads. Reads after the end change
/// nothing.
pub open spec fn after_reads(step: ReadStep, reads: Seq<RawRead>) -> ReadStep
    decreases reads.len(),
{
    if reads.len() == 0 {
        step
    } else {
        match step {
            ReadStep::Read(pending) => after_reads(
                pending.next(reads[0].outcome, reads[0].now),
                reads.skip(1),
            ),
            ReadStep::Done(_) => step,
        }
    }
}

/// A raw read that delivers, or fails in passing, does not save a read whose time is up: seen
/// later than [`READ_TIMEOUT`] after the start, it ends the read with a timeout, whether or
/// not it filled the buffer.
pub proof fn lemma_late_read_times_out(pending: PendingRead, outcome: Result<usize, IoError>, now: u128)
    requires
        elapsed(pending.started, now) > READ_TIMEOUT,
        match outcome {
            Ok(count) => count > 0,
            Err(e) => e.kind.transient() && (pending.block || pending.position > 0),
        },
    ensures
        pending.next(outcome, now) == ReadStep::Done(Err(Error::ReadTimeout)),
{
}

/// A read that still goes on has not outlived its deadline: whatever the raw reads delivered,
/// in however small pieces, the last of them was seen no later than [`READ_TIMEOUT`] after
/// the start, and the buffer is not full yet.
pub proof fn lemma_deadline_bounds_every_read(pending: PendingRead, reads: Seq<RawRead>)
    requires
        reads.len() > 0,
        pending.position < pending.length,
        after_reads(ReadStep::Read(pending), reads) is Read,
    ensures
        ({
            let last = after_reads(ReadStep::Read(pending), reads)->Read_0;
            &&& elapsed(pending.started, reads.last().now) <= READ_TIMEOUT
            &&& last.started == pending.started
            &&& last.length == pending.length
            &&& pending.position <= last.position < last.length
        }),
    decreases reads.len(),
{
    let first = pending.next(reads[0].outcome, reads[0].now);
    let rest = reads.skip(1);
    if rest.len() == 0 {
        assert(after_reads(first, rest) == first);
    } else {
        match first {
            ReadStep::Read(next) => {
                lemma_deadline_bounds_every_read(next, rest);
                assert(rest.last() == reads.last());
            },
            ReadStep::Done(_) => {},
        }
    }
}

/// The bytes that a run of raw reads delivered.
pub open spec fn delivered(reads: Seq<RawRead>) -> nat
    decreases reads.len(),
{
    if reads.len() == 0 {
        0
    } else {
        (match reads[0].outcome {
            Ok(count) => count as nat,
            Err(_) => 0,
        }) + delivered(reads.skip(1))
    }
}

/// A raw read that keeps a waiting read going: it delivered something, or failed in passing.
pub open spec fn keeps_going(read: RawRead) -> bool {
    match read.outcome {
        Ok(count) => count > 0,
        Err(e) => e.kind.transient(),
    }
}

/// Trickling does not beat the deadline. A read that waits, and whose raw reads all deliver
/// something or fail in passing without ever filling the buffer, times out with the first raw
/// read that is seen later than [`READ_TIMEOUT`] after the start.
pub proof fn lemma_trickle_times_out(pending: PendingRead, reads: Seq<RawRead>, late: RawRead)
    requires
        pending.block || pending.position > 0,
        forall|i: int| 0 <= i < reads.len() ==> keeps_going(#[trigger] reads[i]),
        keeps_going(late),
        pending.position + delivered(reads) < pending.length,
        elapsed(pending.started, late.now) > READ_TIMEOUT,
    ensures
        after_reads(ReadStep::Read(pending), reads.push(late)) == ReadStep::Done(
            Err(Error::ReadTimeout),
        ),
    decreases reads.len(),
{
    let all = reads.push(late);
    if reads.len() == 0 {
        assert(all[0] == late);
        assert(after_reads(pending.next(late.outcome, late.now), all.skip(1)) == pending.next(
            late.outcome,
            late.now,
        ));
    } else {
        let first = reads[0];
        let rest = reads.skip(1);
        assert(all[0] == first);
        assert(all.skip(1) =~= rest.push(late));
        assert(keeps_going(first));
        assert forall|i: int| 0 <= i < rest.len() implies keeps_going(#[trigger] rest[i]) by {
            assert(rest[i] == reads[i + 1]);
        }
        match pending.next(first.outcome, first.now) {
            ReadStep::Read(next) => {
                lemma_trickle_times_out(next, rest, late);
            },
            ReadStep::Done(_) => {},
        }
    }
}

/// A raw read that delivers something in time.
pub open spec fn delivers_in_time(pending: PendingRead, read: RawRead) -> bool {
    &&& read.outcome matches Ok(count)
    &&& count > 0
    &&& elapsed(pending.started, read.now) <= READ_TIMEOUT
}

/// Success is owed to a channel that delivers: where every raw read brings something, and
/// the one that brings the last missing byte is still in time, the read ends with a full
/// buffer, into however many pieces the bytes were cut.
pub proof fn lemma_read_completes(pending: PendingRead, reads: Seq<RawRead>, last: RawRead)
    requires
        forall|i: int| 0 <= i < reads.len() ==> delivers_in_time(pending, #[trigger] reads[i]),
        delivers_in_time(pending, last),
        pending.position + delivered(reads) < pending.length,
        pending.position + delivered(reads) + last.outcome->Ok_0 >= pending.length,
    ensures
        after_reads(ReadStep::Read(pending), reads.push(last)) == ReadStep::Done(Ok(Some(()))),
    decreases reads.len(),
{
    let all = reads.push(last);
    if reads.len() == 0 {
        assert(all[0] == last);
        assert(after_reads(pending.next(last.outcome, last.now), all.skip(1)) == pending.next(
            last.outcome,
            last.now,
        ));
    } else {
        let first = reads[0];
        let rest = reads.skip(1);
        assert(all[0] == first);
        assert(all.skip(1) =~= rest.push(last));
        assert(delivers_in_time(pending, first));
        match pending.next(first.outcome, first.now) {
            ReadStep::Read(next) => {
                assert forall|i: int| 0 <= i < rest.len() implies delivers_in_time(
                    next,
                    #[trigger] rest[i],
                ) by {
                    assert(rest[i] == reads[i + 1]);
                }
                lemma_read_completes(next, rest, last);
            },
            ReadStep::Done(_) => {},
        }
    }
}

} // verus!
