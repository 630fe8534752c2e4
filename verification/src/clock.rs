//! Trusted access to the process clock, used to time one analysis call.
//!
//! A reading of the clock depends on when the call runs, so none of these
//! contracts promises anything about the values returned; the caller states
//! what holds of its result whatever the clock reported.

use vstd::prelude::*;

verus! {

/// `std::time::Instant`: an opaque point on the monotonic clock.
#[verifier::external_type_specification]
#[verifier::external_body]
pub struct ExInstant(std::time::Instant);

/// Relies on `std::time::Instant::now`: reads the monotonic clock.
#[verifier::external_body]
pub(crate) fn instant_now() -> std::time::Instant {
    std::time::Instant::now()
}

/// Relies on `std::time::Instant::elapsed`: the time since `start`, as an
/// opaque `Duration`.
#[verifier::external_body]
pub(crate) fn instant_elapsed(start: &std::time::Instant) -> std::time::Duration {
    start.elapsed()
}

/// Relies on `std::time::Duration::as_millis`: the duration in whole
/// milliseconds.
#[verifier::external_body]
pub(crate) fn duration_as_millis(d: &std::time::Duration) -> u128 {
    d.as_millis()
}

} // verus!
