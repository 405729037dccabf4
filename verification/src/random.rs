use rand::Rng;
use vstd::prelude::*;

verus! {

/// Calls `rand::Rng::gen_ratio` on the thread-local generator: `true` with
/// probability `numerator / denominator`. The contract states only what
/// rand's source guarantees of every outcome: never `true` for a zero
/// numerator, always `true` when numerator and denominator are equal. The
/// call panics on a zero denominator or a numerator above the denominator,
/// which `requires` leaves out.
#[verifier::external_body]
pub(crate) fn random_ratio(numerator: u32, denominator: u32) -> (b: bool)
    requires
        0 < denominator,
        numerator <= denominator,
    ensures
        numerator == 0 ==> !b,
        numerator == denominator ==> b,
{
    rand::thread_rng().gen_ratio(numerator, denominator)
}

/// Calls `rand::Rng::gen_range(low..=high)` on the thread-local generator.
/// The contract states only that the value lies in the range, which is
/// what holds of every outcome; the call panics on an empty range, which
/// `requires` leaves out.
#[verifier::external_body]
pub(crate) fn random_in_range(low: u32, high: u32) -> (r: u32)
    requires
        low <= high,
    ensures
        low <= r <= high,
{
    rand::thread_rng().gen_range(low..=high)
}

/// Calls `rand::Rng::gen::<u32>()` on the thread-local generator. Any
/// `u32` can come back, so the contract states nothing of it.
#[verifier::external_body]
pub(crate) fn random_u32() -> u32 {
    rand::thread_rng().gen::<u32>()
}

} // verus!
