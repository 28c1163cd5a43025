//! The reset handshake of a local channel.
//!
//! The host asserts the control signal and waits for the device to raise the status signal,
//! discarding buffered input before each look. It then purges what is still on its way,
//! releases the control signal, and waits for the status signal to fall. Each wait may last
//! [`RESET_TIMEOUT`]. After the handshake the device is in a known state, and only then is
//! framed traffic to be trusted.
//!
//! The handshake is a step function, like the reads: a [`ResetStep`] names the one operation
//! to perform next, and that state's `resume` takes its outcome.

use vstd::prelude::*;
use crate::clock::elapsed;
use crate::clock::elapsed_since;
use crate::clock::RESET_TIMEOUT;
use crate::error::Error;
use crate::error::IoError;

verus! {

/// The next operation sets the control signal to `level`.
#[derive(Debug, Clone, Copy, PartialEq, Eq, Structural)]
pub struct SetControl {
    pub level: bool,
}

/// The next operation discards the input that the channel has buffered.
#[derive(Debug, Clone, Copy, PartialEq, Eq, Structural)]
pub struct Discard {
    /// When the wait for the status signal began.
    pub started: u128,
}

/// The next operation reads the status signal.
#[derive(Debug, Clone, Copy, PartialEq, Eq, Structural)]
pub struct ReadStatus {
    /// The level that ends the wait: raised after the control signal was asserted, fallen
    /// after it was released.
    pub awaited: bool,
    /// When the wait began.
    pub started: u128,
}

/// The next operation purges the channel's incoming data.
#[derive(Debug, Clone, Copy, PartialEq, Eq, Structural)]
pub struct Purge {
}

/// Where the handshake stands: the operation it needs next, or its result.
#[derive(Debug, PartialEq, Eq)]
pub enum ResetStep {
    SetControl(SetControl),
    Discard(Discard),
    ReadStatus(ReadStatus),
    Purge(Purge),
    Done(Result<(), Error>),
}

/// Starts the handshake: the control signal is asserted first.
pub fn begin_reset() -> (step: ResetStep)
    ensures
        step == ResetStep::SetControl(SetControl { level: true }),
{
    ResetStep::SetControl(SetControl { level: true })
}

impl SetControl {
    /// The step after the control signal was set, or could not be, at time `now`.
    pub open spec fn next(self, outcome: Result<(), IoError>, now: u128) -> ResetStep {
        match outcome {
            Err(e) => ResetStep::Done(Err(Error::Io(e))),
            Ok(()) => if self.level {
                ResetStep::Discard(Discard { started: now })
            } else {
                ResetStep::ReadStatus(ReadStatus { awaited: false, started: now })
            },
        }
    }

    /// Takes the outcome of setting the control signal, observed at time `now`. The wait for
    /// the status signal begins then.
    pub fn resume(self, outcome: Result<(), IoError>, now: u128) -> (step: ResetStep)
        ensures
            step == self.next(outcome, now),
    {
        match outcome {
            Err(e) => ResetStep::Done(Err(Error::Io(e))),
            Ok(()) => if self.level {
                ResetStep::Discard(Discard { started: now })
            } else {
                ResetStep::ReadStatus(ReadStatus { awaited: false, started: now })
            },
        }
    }
}

impl Discard {
    /// The step after buffered input was discarded, or could not be.
    pub open spec fn next(self, outcome: Result<(), IoError>) -> ResetStep {
        match outcome {
            Err(e) => ResetStep::Done(Err(Error::Io(e))),
            Ok(()) => ResetStep::ReadStatus(ReadStatus { awaited: true, started: self.started }),
        }
    }

    /// Takes the outcome of discarding the buffered input.
    pub fn resume(self, outcome: Result<(), IoError>) -> (step: ResetStep)
        ensures
            step == self.next(outcome),
    {
        match outcome {
            Err(e) => ResetStep::Done(Err(Error::Io(e))),
            Ok(()) => ResetStep::ReadStatus(ReadStatus { awaited: true, started: self.started }),
        }
    }
}

impl ReadStatus {
    /// The step after the status signal was read, or could not be, at time `now`.
    pub open spec fn next(self, outcome: Result<bool, IoError>, now: u128) -> ResetStep {
        match outcome {
            Err(e) => ResetStep::Done(Err(Error::Io(e))),
            Ok(level) => if level == self.awaited {
                if self.awaited {
                    ResetStep::Purge(Purge {  })
                } else {
                    ResetStep::Done(Ok(()))
                }
            } else if elapsed(self.started, now) > RESET_TIMEOUT {
                ResetStep::Done(Err(if self.awaited { Error::ResetOn } else { Error::ResetOff }))
            } else if self.awaited {
                ResetStep::Discard(Discard { started: self.started })
            } else {
                ResetStep::ReadStatus(self)
            },
        }
    }

    /// Takes a reading of the status signal, observed at time `now`.
    ///
    /// The awaited level ends the wait. Any other reading later than [`RESET_TIMEOUT`] after
    /// the wait began fails the reset, with one error for the wait after asserting and another
    /// for the wait after releasing. Before that, the device is looked at again.
    pub fn resume(self, outcome: Result<bool, IoError>, now: u128) -> (step: ResetStep)
        ensures
            step == self.next(outcome, now),
    {
        match outcome {
            Err(e) => ResetStep::Done(Err(Error::Io(e))),
            Ok(level) => if level == self.awaited {
                if self.awaited {
                    ResetStep::Purge(Purge {  })
                } else {
                    ResetStep::Done(Ok(()))
                }
            } else if elapsed_since(self.started, now) > RESET_TIMEOUT {
                if self.awaited {
                    ResetStep::Done(Err(Error::ResetOn))
                } else {
                    ResetStep::Done(Err(Error::ResetOff))
                }
            } else if self.awaited {
                ResetStep::Discard(Discard { started: self.started })
            } else {
                ResetStep::ReadStatus(self)
            },
        }
    }
}

impl Purge {
    /// The step after the purge ended.
    pub open spec fn next(self, outcome: Result<(), Error>) -> ResetStep {
        match outcome {
            Err(e) => ResetStep::Done(Err(e)),
            Ok(()) => ResetStep::SetControl(SetControl { level: false }),
        }
    }

    /// Takes the outcome of the purge. The control signal is released next.
    pub fn resume(self, outcome: Result<(), Error>) -> (step: ResetStep)
        ensures
            step == self.next(outcome),
    {
        match outcome {
            Err(e) => ResetStep::Done(Err(e)),
            Ok(()) => ResetStep::SetControl(SetControl { level: false }),
        }
    }
}

/// A reading that is not the awaited one, taken too late, fails the reset: with
/// [`Error::ResetOn`] where the device was to come up, with [`Error::ResetOff`] where it was
/// to go down. The two are told apart.
pub proof fn lemma_reset_deadline(state: ReadStatus, level: bool, now: u128)
    requires
        level != state.awaited,
        elapsed(state.started, now) > RESET_TIMEOUT,
    ensures
        state.awaited ==> state.next(Ok(level), now) == ResetStep::Done(Err(Error::ResetOn)),
        !state.awaited ==> state.next(Ok(level), now) == ResetStep::Done(Err(Error::ResetOff)),
        Error::ResetOn != Error::ResetOff,
{
}

/// One look at the status signal: the level read, and when.
pub struct Look {
    pub level: bool,
    pub now: u128,
}

impl ReadStatus {
    /// Where a wait stands after a run of looks at the status signal, every operation having
    /// succeeded.
    pub open spec fn after_looks(self, looks: Seq<Look>) -> ResetStep
        decreases looks.len(),
    {
        if looks.len() == 0 {
            ResetStep::ReadStatus(self)
        } else {
            let seen = self.next(Ok(looks[0].level), looks[0].now);
            let step = match seen {
                ResetStep::Discard(discard) => discard.next(Ok(())),
                _ => seen,
            };
            match step {
                ResetStep::ReadStatus(wait) => wait.after_looks(looks.skip(1)),
                _ => step,
            }
        }
    }
}

/// A device that never shows the awaited level fails the reset as soon as one look is later
/// than [`RESET_TIMEOUT`] after the wait began, however often it was looked at before.
pub proof fn lemma_wait_times_out(wait: ReadStatus, looks: Seq<Look>)
    requires
        forall|i: int| 0 <= i < looks.len() ==> (#[trigger] looks[i]).level != wait.awaited,
        exists|i: int|
            0 <= i < looks.len() && elapsed(wait.started, (#[trigger] looks[i]).now)
                > RESET_TIMEOUT,
    ensures
        wait.after_looks(looks) == ResetStep::Done(
            Err(
                if wait.awaited {
                    Error::ResetOn
                } else {
                    Error::ResetOff
                },
            ),
        ),
    decreases looks.len(),
{
    let late = choose|i: int|
        0 <= i < looks.len() && elapsed(wait.started, (#[trigger] looks[i]).now) > RESET_TIMEOUT;
    let first = looks[0];
    assert(first.level != wait.awaited);
    if elapsed(wait.started, first.now) <= RESET_TIMEOUT {
        let rest = looks.skip(1);
        assert(late > 0);
        assert(rest[late - 1] == looks[late]);
        assert forall|i: int| 0 <= i < rest.len() implies (#[trigger] rest[i]).level
            != wait.awaited by {
            assert(rest[i] == looks[i + 1]);
        }
        lemma_wait_times_out(wait, rest);
    }
}

/// A handshake in which every operation succeeds and the device answers at once takes its
/// steps in this order: assert the control signal, discard, see the status signal raised,
/// purge, release the control signal, see the status signal fallen.
pub proof fn lemma_handshake_order(asserted: u128, raised: u128, released: u128, fallen: u128)
    ensures
        ({
            let assert_control = SetControl { level: true };
            let discard = Discard { started: asserted };
            let wait_raised = ReadStatus { awaited: true, started: asserted };
            let release_control = SetControl { level: false };
            let wait_fallen = ReadStatus { awaited: false, started: released };
            &&& assert_control.next(Ok(()), asserted) == ResetStep::Discard(discard)
            &&& discard.next(Ok(())) == ResetStep::ReadStatus(wait_raised)
            &&& wait_raised.next(Ok(true), raised) == ResetStep::Purge(Purge {  })
            &&& (Purge {  }).next(Ok(())) == ResetStep::SetControl(release_control)
            &&& release_control.next(Ok(()), released) == ResetStep::ReadStatus(wait_fallen)
            &&& wait_fallen.next(Ok(false), fallen) == ResetStep::Done(Ok(()))
        }),
{
}

} // verus!
