//! The one window onto the process's random source. Nothing is assumed of
//! a draw beyond its range, so everything downstream is verified for every
//! outcome.

use vstd::prelude::*;

verus! {

/// Relies on rand's `Rng::gen_range` over the half-open range `lo..hi`: it
/// panics only when the range is empty, which the precondition rules out,
/// and returns a value of the range. Nothing else is assumed of the draw.
#[verifier::external_body]
pub(crate) fn rand_range_u64(lo: u64, hi: u64) -> (r: u64)
    requires
        lo < hi,
    ensures
        lo <= r < hi,
{
    rand::Rng::gen_range(&mut rand::thread_rng(), lo..hi)
}

} // verus!
