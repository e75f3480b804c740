//! The monotonic clock, by which the time between two frames is measured.

use std::time::Duration;
use std::time::Instant;
use vstd::prelude::*;

verus! {

#[verifier::external_type_specification]
#[verifier::external_body]
pub struct ExInstant(Instant);

/// Calls `std::time::Instant::now`, which reads the monotonic clock.
/// Nothing is claimed of the reading.
#[verifier::external_body]
pub(crate) fn now() -> (t: Instant) {
    Instant::now()
}

/// Calls `std::time::Instant::elapsed`, which gives the time that has
/// passed since the reading `since` was taken. Nothing is claimed of it.
#[verifier::external_body]
pub(crate) fn elapsed(since: &Instant) -> (d: Duration) {
    since.elapsed()
}

} // verus!
