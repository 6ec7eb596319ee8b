//! The library's sources of randomness. Nothing is known of a drawn value
//! beyond the range it was drawn from.

use vstd::prelude::*;

verus! {

/// Calls `rand::Rng::gen_range` on the thread-local generator of `rand`.
/// That function returns a value in the half-open range `[low, high)` and
/// panics when `low >= high`, which the precondition rules out.
#[verifier::external_body]
pub(crate) fn gen_range(low: u64, high: u64) -> (r: u64)
    requires
        low < high,
    ensures
        low <= r < high,
{
    rand::Rng::gen_range(&mut rand::thread_rng(), low, high)
}

/// Calls `nannou::rand::random_range`, which puts its two bounds in order
/// and then draws from the half-open range between them with the thread-local
/// generator. Equal bounds make that range empty and the call panic, so the
/// precondition rules them out.
#[verifier::external_body]
pub(crate) fn random_range(min: i32, max: i32) -> (r: i32)
    requires
        min != max,
    ensures
        min < max ==> min <= r < max,
        max < min ==> max <= r < min,
{
    nannou::rand::random_range(min, max)
}

} // verus!
