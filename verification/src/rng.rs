//! The one randomness source of the simulation.

use vstd::prelude::*;

verus! {

/// Relies on `rand::Rng::gen_range` over `rand::thread_rng`: a sample from a
/// half-open integer range lies in that range, and the call panics only on
/// an empty range, which the precondition rules out.
#[verifier::external_body]
pub(crate) fn sample_range(lo: i64, hi: i64) -> (r: i64)
    requires
        lo < hi,
    ensures
        lo <= r < hi,
{
    rand::Rng::gen_range(&mut rand::thread_rng(), lo..hi)
}

} // verus!
