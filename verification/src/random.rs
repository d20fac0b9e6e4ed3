//! The random source: the thread-local generator of the `rand` crate.
//!
//! Nothing here is proved. The contracts of this file are what the rest of the
//! crate believes about `rand`.

use vstd::prelude::*;
use rand::Rng;
use rand::ThreadRng;

verus! {

/// `rand::ThreadRng`, a handle to the generator of the current thread. Its
/// state is hidden: no contract speaks of it.
#[verifier::external_type_specification]
#[verifier::external_body]
pub struct ExThreadRng(ThreadRng);

/// Calls `Rng::gen_range` of `rand` on `i16` bounds. `gen_range` panics unless
/// `low < high`, hence the precondition; for integers it returns a value of the
/// half-open range `[low, high)`. Which value is left open.
#[verifier::external_body]
pub(crate) fn gen_range(rng: &mut ThreadRng, low: i16, high: i16) -> (n: i16)
    requires
        low < high,
    ensures
        low <= n < high,
{
    rng.gen_range(low, high)
}

} // verus!
