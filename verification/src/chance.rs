//! The source of randomness for food placement.
//!
//! Nothing here is proved: these items state what the `rand` crate is relied
//! upon to do.

use rand::Rng;
use vstd::prelude::*;

verus! {

/// `rand::rngs::ThreadRng`, the handle to the calling thread's generator.
/// Nothing is known of its state.
#[verifier::external_type_specification]
#[verifier::external_body]
pub struct ExThreadRng(rand::rngs::ThreadRng);

/// `rand::thread_rng` hands out the calling thread's generator. It takes no
/// argument and nothing is claimed of what it returns.
pub assume_specification[ rand::thread_rng ]() -> (rng: rand::rngs::ThreadRng);

/// Draws an integer from the half-open range `low..high` with
/// `Rng::gen_range`. The draw fails on an empty range, which the
/// precondition rules out; the only claim made of the result is that it lies
/// in the range. Two draws from the same range may differ.
#[verifier::external_body]
pub(crate) fn gen_range(rng: &mut rand::rngs::ThreadRng, low: i32, high: i32) -> (r: i32)
    requires
        low < high,
    ensures
        low <= r < high,
{
    rng.gen_range(low, high)
}

} // verus!
