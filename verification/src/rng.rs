//! The engine's one source of randomness, for the idle needle drift.

use vstd::prelude::*;

verus! {

/// Relies on rand::random_range: a uniform sample from `0..n` is below
/// `n`; the range is non-empty, so the call does not panic.  Nothing more
/// is promised of a random draw.
#[verifier::external_body]
pub fn random_below(n: u64) -> (r: u64)
    requires
        n > 0,
    ensures
        r < n,
{
    rand::random_range(0..n)
}

} // verus!
