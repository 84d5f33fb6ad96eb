//! The random-number source of the game rules: `rand`'s seedable `StdRng`, and the
//! draws the verified code makes from it.

use rand::RngExt;
use vstd::prelude::*;

verus! {

/// `rand::rngs::StdRng`, carried through the game rules as an opaque value.
#[verifier::external_type_specification]
#[verifier::external_body]
pub struct ExStdRng(rand::rngs::StdRng);

/// A uniform draw from `0..n`, by `rand::RngExt::random_range` on the integer range
/// `0..n`. What holds of every outcome: it lies in `0..n`. The value depends on the
/// generator's state, so nothing more is stated.
#[verifier::external_body]
pub(crate) fn random_below(rng: &mut rand::rngs::StdRng, n: u32) -> (r: u32)
    requires
        n > 0,
    ensures
        r < n,
{
    rng.random_range(0..n)
}

/// A uniform draw from `0..n` over `usize`, by `rand::RngExt::random_range`. Every
/// outcome lies in `0..n`.
#[verifier::external_body]
pub(crate) fn random_index(rng: &mut rand::rngs::StdRng, n: usize) -> (r: usize)
    requires
        n > 0,
    ensures
        r < n,
{
    rng.random_range(0..n)
}

} // verus!
