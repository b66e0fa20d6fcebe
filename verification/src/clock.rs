//! Wall-clock readings used to stamp results and alerts.
//!
//! Nothing is promised of these values: they depend on the machine's clock,
//! and every function that records one states what holds whatever came back.

use vstd::prelude::*;

verus! {

/// Relies on chrono::Utc::now and chrono's `format`: the current wall-clock
/// time rendered as an ISO-8601 timestamp with millisecond precision.
#[verifier::external_body]
pub fn now_iso_millis() -> String {
    chrono::Utc::now().format("%Y-%m-%dT%H:%M:%S%.3fZ").to_string()
}

/// Relies on chrono::Local::now and DateTime::to_rfc3339: the current local
/// time rendered as an RFC 3339 timestamp.
#[verifier::external_body]
pub fn now_rfc3339() -> String {
    chrono::Local::now().to_rfc3339()
}

/// Relies on chrono::Local::now and DateTime::timestamp: seconds since the
/// Unix epoch of the current local time.
#[verifier::external_body]
pub fn now_unix_seconds() -> i64 {
    chrono::Local::now().timestamp()
}

/// Declares `std::time::Instant` so a monitor can hold the moment it was
/// started.  The value is opaque; only `elapsed_ms` reads it.
#[verifier::external_type_specification]
#[verifier::external_body]
pub struct ExInstant(std::time::Instant);

/// Relies on std::time::Instant::now: an opaque reading of the monotonic
/// clock.
#[verifier::external_body]
pub fn instant_now() -> std::time::Instant {
    std::time::Instant::now()
}

/// Relies on std::time::Instant::elapsed and Duration::as_millis: the
/// milliseconds since `start` was taken, truncated to machine width.
#[verifier::external_body]
pub fn elapsed_ms(start: &std::time::Instant) -> u64 {
    start.elapsed().as_millis() as u64
}

} // verus!
