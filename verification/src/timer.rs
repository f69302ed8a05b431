//! Monotonic elapsed-time measurement around a recorded epoch.
//!
//! The clock itself lives in the standard library; its readings depend on
//! when they are taken, so nothing is assumed about the values they return.
//! What the library adds — the fixed-point millisecond text — is verified
//! against an exact specification.

use vstd::prelude::*;

use crate::text::fmt_millis;
use crate::text::is_millis_text;

verus! {

/// Declares the standard library's monotonic clock reading so that it can be
/// stored and passed around; its contents stay opaque.
#[verifier::external_type_specification]
#[verifier::external_body]
pub struct ExInstant(std::time::Instant);

/// Relies on std::time::Instant::now: a reading of the monotonic clock.
/// Which reading comes back depends on when the call is made, so nothing is
/// promised of the result.
pub assume_specification[ std::time::Instant::now ]() -> std::time::Instant;

/// Relies on std::time::Instant::elapsed: the time from the given instant to
/// now, saturating at zero.  The result depends on when the call is made, so
/// nothing is promised of it.
pub assume_specification[ std::time::Instant::elapsed ](
    earlier: &std::time::Instant,
) -> std::time::Duration;

/// Relies on std::time::Duration::as_nanos: the whole span in nanoseconds.
/// The duration value is opaque here, so nothing is promised of the count.
pub assume_specification[ std::time::Duration::as_nanos ](d: &std::time::Duration) -> u128;

/// Measures elapsed time from an epoch recorded at creation or at the last
/// reset.
pub struct Timer {
    pub instant: std::time::Instant,
}

impl Timer {
    /// A timer whose epoch is the moment of the call.
    pub fn new() -> Timer {
        Timer { instant: std::time::Instant::now() }
    }

    /// The time elapsed since the epoch.
    pub fn duration(&self) -> std::time::Duration {
        self.instant.elapsed()
    }

    /// Move the epoch to the moment of the call.
    pub fn reset(&mut self) {
        self.instant = std::time::Instant::now();
    }

    /// The elapsed time rendered as padded millisecond text.
    pub fn str(&self) -> (r: String)
        ensures
            is_millis_text(r@),
    {
        let nanos = self.duration().as_nanos();
        fmt_millis(nanos)
    }

    /// The elapsed time rendered as padded millisecond text, with the epoch
    /// then moved to the moment of the call.
    pub fn str_reset(&mut self) -> (r: String)
        ensures
            is_millis_text(r@),
    {
        let text = self.str();
        self.reset();
        text
    }

    /// Returns immediately: frame pacing is delegated to the presentation
    /// engine, so no waiting is done here.
    pub fn delay_until(&self, total_duration: std::time::Duration) {
        let _ = total_duration;
    }
}

} // verus!
