//! The session's monotonic time source.
//!
//! A session records one origin instant when it starts; every reading of the
//! wall clock is the whole number of microseconds elapsed since that origin.
//! Nothing can be promised about a reading itself — it depends on when the
//! machine takes it — so the pure clock in `clock` treats readings as plain
//! inputs and the laws there assume only that they never decrease, which is
//! what std documents of `Instant`.

use vstd::prelude::*;

verus! {

#[verifier::external_type_specification]
#[verifier::external_body]
pub struct ExInstant(std::time::Instant);

/// Relies on std::time::Instant::now: an opaque reading of the monotonic
/// clock.
#[verifier::external_body]
pub(crate) fn instant_now() -> std::time::Instant {
    std::time::Instant::now()
}

/// Relies on std::time::Instant::elapsed: the time between `origin` and the
/// moment of the call, which std documents as never negative.
#[verifier::external_body]
pub(crate) fn elapsed_since(origin: &std::time::Instant) -> std::time::Duration {
    origin.elapsed()
}

/// Relies on std::time::Duration::as_micros: the whole number of
/// microseconds the duration holds.
#[verifier::external_body]
pub(crate) fn duration_as_micros(d: &std::time::Duration) -> u128 {
    d.as_micros()
}

/// Microseconds since the session's origin instant, clamped into `u64`; the
/// clamp engages only after half a million years.
pub(crate) fn mono_micros(origin: &std::time::Instant) -> u64 {
    let us: u128 = duration_as_micros(&elapsed_since(origin));
    if us > u64::MAX as u128 {
        u64::MAX
    } else {
        us as u64
    }
}

} // verus!
