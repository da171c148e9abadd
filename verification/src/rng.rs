//! The single place the simulation draws randomness: the horizontal
//! spawn position of coins and knives.

use vstd::prelude::*;

verus! {

/// Relies on `rand::Rng::gen_range` over the half-open range `lo..hi` on
/// the thread-local generator: it panics on an empty range, and otherwise
/// returns a value of the range.  Nothing more is assumed of the draw;
/// callers state what holds of every outcome.
#[verifier::external_body]
pub(crate) fn random_in_range(lo: i64, hi: i64) -> (r: i64)
    requires
        lo < hi,
    ensures
        lo <= r < hi,
{
    rand::Rng::gen_range(&mut rand::thread_rng(), lo..hi)
}

} // verus!
