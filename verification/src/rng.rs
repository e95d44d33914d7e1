//! The random source: uniformly distributed integers drawn from the
//! process-wide thread-local generator.

use vstd::prelude::*;

verus! {

/// Relies on `rand::thread_rng` and `rand::Rng::gen_range` on the inclusive
/// range `low..=high`: the sample lies in that range. `gen_range` panics on
/// an empty range, which `low <= high` rules out. The draw is random, so
/// nothing beyond membership in the range is promised.
#[verifier::external_body]
pub(crate) fn random_in_range(low: i32, high: i32) -> (r: i32)
    requires
        low <= high,
    ensures
        low <= r <= high,
{
    rand::Rng::gen_range(&mut rand::thread_rng(), low..=high)
}

} // verus!
