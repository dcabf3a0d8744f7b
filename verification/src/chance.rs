//! The source of randomness that placement draws from.

use vstd::prelude::*;
use rand::rngs::ThreadRng;
use rand::Rng;

verus! {

/// The thread-local random number generator of the `rand` crate. Nothing is
/// known of its state.
#[verifier::external_type_specification]
#[verifier::external_body]
pub struct ExThreadRng(ThreadRng);

/// `rand::thread_rng` hands out the generator of the calling thread. Nothing
/// is claimed of it.
pub assume_specification[ rand::thread_rng ]() -> (rng: ThreadRng);

/// Draws a number from `low..=high` with `Rng::gen_range`. Trusted: the
/// draw lies within the bounds, which is all that is claimed; `gen_range`
/// panics on an empty range, which the precondition rules out.
#[verifier::external_body]
pub(crate) fn draw_inclusive(rng: &mut ThreadRng, low: i32, high: i32) -> (n: i32)
    requires
        low <= high,
    ensures
        low <= n <= high,
{
    rng.gen_range(low..=high)
}

} // verus!
