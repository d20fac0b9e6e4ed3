//! Time: the stopwatch of the `chroniker` crate.
//!
//! Nothing here is proved. The contracts of this file are what the rest of the
//! crate believes about `chroniker`.

use vstd::prelude::*;
use chroniker::Timer;

verus! {

/// `chroniker::Timer`, a stopwatch over the monotonic clock.
#[verifier::external_type_specification]
#[verifier::external_body]
pub struct ExTimer(Timer);

/// Calls `Timer::elapsed_millis`: the milliseconds since the timer was made or
/// last reset. Nothing is claimed of the number.
#[verifier::external_body]
pub(crate) fn elapsed_millis(timer: &Timer) -> (millis: u64) {
    timer.elapsed_millis()
}

/// Calls `Timer::reset`, which restarts the timer from the present moment.
#[verifier::external_body]
pub(crate) fn reset(timer: &mut Timer) {
    timer.reset()
}

} // verus!
