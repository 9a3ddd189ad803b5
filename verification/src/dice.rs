//! The random draws the rules make, through the `rand` crate's thread-local
//! generator. Each draw is a trusted wrapper around one `rand` call; what a draw
//! returns depends on chance, so the contracts state only what holds of every
//! outcome.

use vstd::prelude::*;

use rand::rngs::ThreadRng;
use rand::Rng;

verus! {

/// The thread-local generator of `rand`, carried through as an opaque value.
#[verifier::external_type_specification]
#[verifier::external_body]
pub struct ExThreadRng(ThreadRng);

/// `rand::rng()`: a handle to the lazily-initialized thread-local generator.
/// Nothing is stated of its state.
#[verifier::external_body]
pub(crate) fn thread_rng() -> ThreadRng {
    rand::rng()
}

/// `Rng::random_range(lo..hi)` on `usize`: a uniformly drawn index. The
/// contract states only that it lies in `lo..hi`, as the `rand` documentation
/// promises; it panics on an empty range, which `requires` excludes.
#[verifier::external_body]
pub(crate) fn random_index(rng: &mut ThreadRng, lo: usize, hi: usize) -> (r: usize)
    requires
        lo < hi,
    ensures
        lo <= r < hi,
{
    rng.random_range(lo..hi)
}

/// `Rng::random_ratio(numerator, denominator)`: `true` with probability
/// `numerator / denominator`. The `rand` documentation guarantees `true` when the
/// two are equal and `false` when the numerator is 0; it panics on a zero
/// denominator or a numerator above it, which `requires` excludes. Any other
/// outcome is left open.
#[verifier::external_body]
pub(crate) fn random_ratio(rng: &mut ThreadRng, numerator: u32, denominator: u32) -> (r: bool)
    requires
        0 < denominator,
        numerator <= denominator,
    ensures
        numerator == denominator ==> r,
        numerator == 0 ==> !r,
{
    rng.random_ratio(numerator, denominator)
}

} // verus!
