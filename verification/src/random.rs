//! Random numbers.

use vstd::prelude::*;
use rand::Rng;

verus! {

/// `rand::thread_rng().gen_range(low..=high)`: some value of the closed
/// range, a different one from call to call. An empty range is left out,
/// since `gen_range` panics on it.
#[verifier::external_body]
pub(crate) fn random_in(low: i32, high: i32) -> (value: i32)
    requires
        low <= high,
    ensures
        low <= value <= high,
{
    rand::thread_rng().gen_range(low..=high)
}

} // verus!
