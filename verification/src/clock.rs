//! Readings of the monotonic clock.
//!
//! The logic of this crate works on plain numbers of nanoseconds or
//! milliseconds; the functions here are the only place where the clock is
//! read, and nothing is claimed about what it shows.

use std::time::{Duration, Instant};
use vstd::prelude::*;

verus! {

/// `std::time::Instant`, an opaque point on the monotonic clock.
#[verifier::external_type_specification]
#[verifier::external_body]
pub struct ExInstant(Instant);

/// Calls `Instant::now`. Trusted, with nothing claimed: the result is
/// whatever the clock shows.
#[verifier::external_body]
pub(crate) fn instant_now() -> (t: Instant) {
    Instant::now()
}

/// Calls `Instant::elapsed`. Trusted, with nothing claimed: the result
/// depends on the clock.
#[verifier::external_body]
pub(crate) fn instant_elapsed(t: &Instant) -> (d: Duration) {
    t.elapsed()
}

/// Calls `Duration::as_nanos`. Trusted, with nothing claimed.
#[verifier::external_body]
pub(crate) fn duration_as_nanos(d: &Duration) -> (nanos: u128) {
    d.as_nanos()
}

/// Calls `Duration::as_millis`. Trusted, with nothing claimed.
#[verifier::external_body]
pub(crate) fn duration_as_millis(d: &Duration) -> (millis: u128) {
    d.as_millis()
}

/// A clock that counts nanoseconds from the moment it was started.
#[derive(Debug)]
pub struct Clock {
    origin: Instant,
}

impl Clock {
    /// Starts a clock. Its readings begin at zero.
    pub fn start() -> (clock: Clock) {
        Clock { origin: instant_now() }
    }

    /// The reading of the clock: nanoseconds since it was started. Nothing
    /// is claimed of a reading; what is done with one is stated by the
    /// functions that take it as an argument.
    pub fn now(&self) -> (nanos: u128) {
        nanos_since(&self.origin)
    }
}

/// Nanoseconds gone by since `origin`.
pub(crate) fn nanos_since(origin: &Instant) -> (nanos: u128) {
    let d = instant_elapsed(origin);
    duration_as_nanos(&d)
}

/// Milliseconds gone by since `origin`, capped at `u64::MAX`.
pub(crate) fn millis_since(origin: &Instant) -> (millis: u64) {
    let d = instant_elapsed(origin);
    let ms = duration_as_millis(&d);
    cap_millis(ms)
}

/// A count of milliseconds as it is recorded: itself where it fits in 64
/// bits, the largest 64-bit number where it does not.
pub open spec fn capped_millis(millis: u128) -> u64 {
    if millis > u64::MAX {
        u64::MAX
    } else {
        millis as u64
    }
}

/// Brings a count of milliseconds into 64 bits.
pub fn cap_millis(millis: u128) -> (capped: u64)
    ensures
        capped == capped_millis(millis),
{
    if millis > u64::MAX as u128 {
        u64::MAX
    } else {
        millis as u64
    }
}

} // verus!
