//! The one randomness primitive the simulation draws on. Nothing can be
//! promised of a random value beyond its range, so every caller is verified
//! for every outcome the contract admits.

use rand::Rng;
use vstd::prelude::*;

verus! {

/// Relies on rand::thread_rng and rand::Rng::gen_range: returns a value
/// drawn uniformly from the half-open range `lo..hi`. gen_range panics only
/// on an empty range, which the precondition excludes.
#[verifier::external_body]
pub(crate) fn random_in_range(lo: u64, hi: u64) -> (r: u64)
    requires
        lo < hi,
    ensures
        lo <= r < hi,
{
    rand::thread_rng().gen_range(lo..hi)
}

} // verus!
