//! Chance: the steps that pigs take.

use crate::pig::PIG_MAX_STEP;
use rand::Rng;
use vstd::prelude::*;

verus! {

/// Draws an integer between `low` and `high`, both included, from the
/// generator of the running thread: `rand::Rng::gen_range` on
/// `rand::thread_rng()`, with the range `low..=high`. Each call may give
/// another number; all that is claimed of the number is that it lies in the
/// range asked for, which is what `gen_range` promises of an inclusive range.
/// An empty range makes `gen_range` panic, so it is not admitted. Nothing is
/// proved of this function. (`thread_rng` gives up where the operating system
/// has no seed for it.)
#[verifier::external_body]
fn uniform_between(low: i64, high: i64) -> (n: i64)
    requires
        low <= high,
    ensures
        low <= n <= high,
{
    rand::thread_rng().gen_range(low..=high)
}

/// Draws the step of one pig: an offset along each axis, each of at most
/// `PIG_MAX_STEP` either way and drawn on its own.
pub fn random_step() -> (step: (i64, i64))
    ensures
        -PIG_MAX_STEP <= step.0 <= PIG_MAX_STEP,
        -PIG_MAX_STEP <= step.1 <= PIG_MAX_STEP,
{
    let dx: i64 = uniform_between(-PIG_MAX_STEP, PIG_MAX_STEP);
    let dy: i64 = uniform_between(-PIG_MAX_STEP, PIG_MAX_STEP);
    (dx, dy)
}

} // verus!
