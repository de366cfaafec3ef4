//! The pseudo-random source behind obstacle spawning. Gameplay is allowed to
//! be non-deterministic: nothing is assumed of a sample beyond its range.
use vstd::prelude::*;

use rand::Rng;

verus! {

/// Relies on rand::Rng::gen_range on the thread-local generator: a sample
/// from a non-empty half-open range lies in that range (the call panics on
/// an empty range, which the precondition rules out).
#[verifier::external_body]
pub(crate) fn rand_range(lo: i64, hi: i64) -> (r: i64)
    requires
        lo < hi,
    ensures
        lo <= r < hi,
{
    rand::thread_rng().gen_range(lo..hi)
}

} // verus!
