//! Trusted access to the wall clock and the monotonic clock.
//!
//! The value of a clock read depends on when it happens, so nothing is
//! assumed about the results; every caller states what holds of its own
//! result whatever time came back.

use vstd::prelude::*;

verus! {

/// Relies on chrono::Utc::now and chrono's timestamp conversion: the current
/// wall-clock time in whole seconds since the Unix epoch. Nothing is assumed
/// of the value.
#[verifier::external_body]
pub(crate) fn now_unix_seconds() -> u64 {
    chrono::Utc::now().timestamp() as u64
}

#[verifier::external_type_specification]
#[verifier::external_body]
pub struct ExInstant(std::time::Instant);

/// Relies on std::time::Instant's derived Clone: an Instant is Copy, so its
/// clone is the same value.
pub assume_specification[ <std::time::Instant as Clone>::clone ](v: &std::time::Instant) -> (r:
    std::time::Instant)
    ensures
        r == *v,
;

/// Relies on std::time::Instant::now: an opaque monotonic start mark.
#[verifier::external_body]
pub(crate) fn instant_now() -> std::time::Instant {
    std::time::Instant::now()
}

/// Relies on std::time::Instant::elapsed and Duration::as_secs: whole
/// seconds since the mark. Nothing is assumed of the value.
#[verifier::external_body]
pub(crate) fn elapsed_seconds(start: &std::time::Instant) -> u64 {
    start.elapsed().as_secs()
}

} // verus!
