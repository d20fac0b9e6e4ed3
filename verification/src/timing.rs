//! Time as the game counts it: when a tick is due, and how long a session
//! has lasted.

use vstd::prelude::*;
use crate::consts::{MILLIS_PER_SECOND, TICK_MILLIS};

verus! {

/// A tick is due once more than `TICK_MILLIS` have passed since the last one.
pub open spec fn tick_due(elapsed: u64) -> bool {
    elapsed > TICK_MILLIS
}

/// The whole seconds between the times `from` and `to`, both in milliseconds.
pub open spec fn seconds_between(from: u64, to: u64) -> int {
    (to - from) / (MILLIS_PER_SECOND as int)
}

/// Whether a tick is due after `elapsed` milliseconds.
pub fn is_tick_due(elapsed: u64) -> (due: bool)
    ensures
        due == tick_due(elapsed),
{
    elapsed > TICK_MILLIS
}

/// The whole seconds between the times `from` and `to`, both in milliseconds.
pub fn whole_seconds(from: u64, to: u64) -> (seconds: u64)
    requires
        from <= to,
    ensures
        seconds == seconds_between(from, to),
{
    (to - from) / MILLIS_PER_SECOND
}

} // verus!
