//! Deadlines. The library reads no clock: the caller hands in the time at which it observed
//! each event, in nanoseconds of a clock that never runs backwards.

use vstd::prelude::*;

verus! {

/// How long one raw read may wait for data.
pub const POLL_TIMEOUT: u128 = 1_000_000;

/// How long a read of a whole buffer may take, from its start.
pub const READ_TIMEOUT: u128 = 5_000_000_000;

/// How long a channel may take over one write.
pub const WRITE_TIMEOUT: u128 = 5_000_000_000;

/// How long each phase of the reset handshake, and the purge between them, may take.
pub const RESET_TIMEOUT: u128 = 1_000_000_000;

/// The time from `started` to `now`; none where `now` is the earlier.
pub open spec fn elapsed(started: u128, now: u128) -> u128 {
    if now >= started {
        (now - started) as u128
    } else {
        0
    }
}

/// Measures the time from `started` to `now`.
pub fn elapsed_since(started: u128, now: u128) -> (nanos: u128)
    ensures
        nanos == elapsed(started, now),
{
    if now >= started {
        now - started
    } else {
        0
    }
}

} // verus!
