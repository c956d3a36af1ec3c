//! Readings of the wall clock, taken on trust.
//!
//! Verus gives `std::time::Instant` no specification, so the type is declared
//! opaque here and the few clock readings the statistics need are wrapped.
//! Nothing is promised of a reading: time is not a function of the arguments.

use vstd::prelude::*;

verus! {

#[verifier::external_type_specification]
#[verifier::external_body]
pub struct ExInstant(std::time::Instant);

/// Relies on std::time::Instant::now: an opaque reading of the monotonic
/// clock.
#[verifier::external_body]
pub fn instant_now() -> std::time::Instant {
    std::time::Instant::now()
}

/// Relies on std::time::Instant::elapsed: the time that passed since `start`
/// was read; it depends on the clock, so nothing is promised of it.
#[verifier::external_body]
pub fn elapsed_since(start: &std::time::Instant) -> std::time::Duration {
    start.elapsed()
}

/// Relies on std::time::Duration::as_secs: the whole seconds of `d`, a value
/// this library treats as opaque.
#[verifier::external_body]
pub fn duration_secs(d: &std::time::Duration) -> u64 {
    d.as_secs()
}

/// Relies on std::time::Duration::from_secs: here only the zero-length
/// duration, used as the initial value of a not-yet-measured duration.
#[verifier::external_body]
pub fn duration_zero() -> std::time::Duration {
    std::time::Duration::from_secs(0)
}

} // verus!
