//! The one place where the engine draws randomness.

use vstd::prelude::*;

verus! {

/// Relies on rand's `Rng::gen_range` over the thread-local generator: for a
/// half-open range `lo..hi` it returns a uniformly sampled value of that
/// range, and panics only when the range is empty, which the precondition
/// rules out. Nothing more is promised of the result: it is random.
#[verifier::external_body]
pub(crate) fn rand_i64_range(lo: i64, hi: i64) -> (r: i64)
    requires
        lo < hi,
    ensures
        lo <= r < hi,
{
    rand::Rng::gen_range(&mut rand::thread_rng(), lo..hi)
}

} // verus!
