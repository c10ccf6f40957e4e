//! Trusted boundary around the process-wide random number generator.

use vstd::prelude::*;

verus! {

/// Relies on `rand::random_range`: a value sampled from the half-open range
/// `low..high`, so the result is at least `low` and strictly below `high`.
/// The call panics on an empty range, which the precondition rules out.
/// Nothing is promised about which value comes back.
#[verifier::external_body]
pub(crate) fn random_in_range(low: u32, high: u32) -> (r: u32)
    requires
        low < high,
    ensures
        low <= r < high,
{
    rand::random_range(low..high)
}

} // verus!
