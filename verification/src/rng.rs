//! The one place the library draws randomness: a thread-local uniform
//! integer sample, taken on trust from the `rand` crate.

use vstd::prelude::*;

verus! {

/// Relies on `rand::Rng::gen_range` on `rand::thread_rng()` with the range
/// `lo..hi`: it returns a value drawn uniformly from `[lo, hi)`, and panics
/// only on an empty range, which the precondition rules out. Nothing more is
/// assumed of the draw: every outcome in the range is possible.
#[verifier::external_body]
pub(crate) fn random_in_range(lo: i64, hi: i64) -> (r: i64)
    requires
        lo < hi,
    ensures
        lo <= r < hi,
{
    rand::Rng::gen_range(&mut rand::thread_rng(), lo..hi)
}

} // verus!
