//! Draws of chance.

use vstd::prelude::*;
use rand::rngs::ThreadRng;
use rand::Rng;

verus! {

#[verifier::external_type_specification]
#[verifier::external_body]
pub struct ExThreadRng(ThreadRng);

/// `rand::thread_rng`: the generator of the calling thread. Nothing is
/// claimed of it.
pub assume_specification[ rand::thread_rng ]() -> (rng: ThreadRng);

/// `rand::Rng::gen_range` on 64-bit integers: a number from `low` up to, but
/// not including, `high`. The call panics unless `low` is less than `high`,
/// so this asks for it. Which number comes is left open.
#[verifier::external_body]
pub(crate) fn gen_range(rng: &mut ThreadRng, low: i64, high: i64) -> (r: i64)
    requires
        low < high,
    ensures
        low <= r < high,
{
    rng.gen_range(low, high)
}

} // verus!
