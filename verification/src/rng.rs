//! Trusted boundary to the `rand` crate: the random source the spawn logic
//! draws from. Only the stated range of each drawn value is assumed; the
//! verified spawn logic holds for every value the generator may produce.

use vstd::prelude::*;
use rand::rngs::ThreadRng;
use rand::Rng;

verus! {

/// `rand::rngs::ThreadRng`, declared so that verified code can store and
/// pass around the generator; its values are opaque to the verifier.
#[verifier::external_type_specification]
#[verifier::external_body]
pub struct ExThreadRng(ThreadRng);

/// Relies on `rand::thread_rng`: returns a handle to the thread-local
/// generator. Nothing is assumed about the values it will produce.
#[verifier::external_body]
pub(crate) fn fresh_rng() -> ThreadRng {
    rand::thread_rng()
}

/// Relies on `rand::Rng::gen_range`: returns a uniformly distributed value
/// in `[lo, hi)`. The call panics on an empty range, which the precondition
/// rules out; only the range bound is assumed of the result.
#[verifier::external_body]
pub(crate) fn rand_range(rng: &mut ThreadRng, lo: i64, hi: i64) -> (r: i64)
    requires
        lo < hi,
    ensures
        lo <= r < hi,
{
    rng.gen_range(lo..hi)
}

} // verus!
