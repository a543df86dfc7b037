//! The source of chance behind the opponent's moves. Nothing here is proved:
//! each contract states what the generator's crate documents.

use rand::rngs::ThreadRng;
use rand::Rng;
use vstd::prelude::*;

verus! {

/// The generator that `rand` keeps for each thread. Its state is hidden.
#[verifier::external_type_specification]
#[verifier::external_body]
pub struct ExThreadRng(rand::rngs::ThreadRng);

/// `rand::thread_rng` hands out the calling thread's generator, seeded by
/// the system on first use. Nothing is claimed of the value. The call takes
/// no argument, so no `requires` can rule out a system that fails to seed.
pub assume_specification[ rand::thread_rng ]() -> (rng: ThreadRng);

/// `Rng::gen_range` on the half-open range from zero to `bound`. The call
/// panics on an empty range, which `requires` rules out. Claimed: the number
/// drawn lies in the range. Which number it is stays open, so two calls may
/// differ.
#[verifier::external_body]
pub(crate) fn gen_below(rng: &mut ThreadRng, bound: usize) -> (r: usize)
    requires
        bound > 0,
    ensures
        r < bound,
{
    rng.gen_range(0..bound)
}

} // verus!
