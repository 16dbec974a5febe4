//! The system clock, read through `std::time`.
use vstd::prelude::*;
use std::time::{Duration, Instant};

verus! {

/// `std::time::Instant`, carried through opaquely.
#[verifier::external_type_specification]
#[verifier::external_body]
pub struct ExInstant(Instant);

/// Reads the clock with `Instant::now`; nothing is claimed of the value.
#[verifier::external_body]
pub(crate) fn instant_now() -> (r: Instant) {
    Instant::now()
}

/// Time since `start`, by `Instant::elapsed`; nothing is claimed of it.
#[verifier::external_body]
pub(crate) fn instant_elapsed(start: &Instant) -> (r: Duration) {
    start.elapsed()
}

/// Whole milliseconds of a duration, by `Duration::as_millis`; nothing is
/// claimed of the value.
#[verifier::external_body]
pub(crate) fn duration_millis(d: &Duration) -> (r: u128) {
    d.as_millis()
}

/// Whole seconds of a duration, by `Duration::as_secs`; nothing is claimed
/// of the value.
#[verifier::external_body]
pub(crate) fn duration_secs(d: &Duration) -> (r: u64) {
    d.as_secs()
}

} // verus!
