use vstd::prelude::*;
use rand::RngExt;

verus! {

/// Relies on rand::rng, the thread-local generator, and on
/// rand::RngExt::random_range, which returns a value uniformly distributed
/// over the given range and panics only when the range is empty. Nothing
/// more is assumed of the draw than its bounds: every caller must be
/// correct for every value in the range.
#[verifier::external_body]
pub(crate) fn random_in_range(lo: i32, hi: i32) -> (r: i32)
    requires
        lo < hi,
    ensures
        lo <= r < hi,
{
    rand::rng().random_range(lo..hi)
}

} // verus!
