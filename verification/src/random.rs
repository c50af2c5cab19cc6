//! Random draws, from the `rand` crate's generator of the current thread.
//!
//! These are the only functions of the library whose contracts are taken on
//! trust. Each states what holds of every draw, and nothing of how the draws
//! are distributed.
use rand::Rng;
use vstd::prelude::*;

verus! {

/// Calls `rand::Rng::gen_range` with the half-open range `low..high`, on the
/// generator that `rand::thread_rng` gives. The contract claims that the draw
/// lies in the range; `gen_range` panics on an empty range, which the
/// precondition rules out.
#[verifier::external_body]
pub(crate) fn uniform(low: i64, high: i64) -> (draw: i64)
    requires
        low < high,
    ensures
        low <= draw < high,
{
    rand::thread_rng().gen_range(low..high)
}

/// Calls `rand::Rng::gen_ratio`, which is true with a chance of `numerator`
/// in `denominator`, on the generator that `rand::thread_rng` gives. Nothing
/// is claimed of the outcome; `gen_ratio` panics on a zero denominator and on
/// a ratio above one, which the precondition rules out.
#[verifier::external_body]
pub(crate) fn chance(numerator: u32, denominator: u32) -> (outcome: bool)
    requires
        0 < denominator,
        numerator <= denominator,
{
    rand::thread_rng().gen_ratio(numerator, denominator)
}

} // verus!
