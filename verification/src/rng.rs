//! The one source of randomness: bounded integer draws, used when the shooter
//! places its initial meteors.

use vstd::prelude::*;

verus! {

/// Relies on fastrand::i64: returns a value in the inclusive range and panics
/// only when the range is empty, which the precondition rules out.
#[verifier::external_body]
pub(crate) fn random_between(min: i64, max: i64) -> (r: i64)
    requires
        min <= max,
    ensures
        min <= r <= max,
{
    fastrand::i64(min..=max)
}

} // verus!
