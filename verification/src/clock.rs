//! Readings of the system clocks.
//!
//! What a clock returns depends on when it is asked, so the functions that
//! read one promise nothing about the reading. What is made of a reading
//! once it is there is stated by [`epoch_millis`].

use vstd::prelude::*;

verus! {

/// `std::time::SystemTime`, carried through without inspecting it.
#[verifier::external_type_specification]
#[verifier::external_body]
pub struct ExSystemTime(std::time::SystemTime);

/// `std::time::Instant`, carried through without inspecting it.
#[verifier::external_type_specification]
#[verifier::external_body]
pub struct ExInstant(std::time::Instant);

/// Trusted: `std::time::SystemTime::now`, the current wall-clock time.
#[verifier::external_body]
pub(crate) fn wall_clock_now() -> (now: std::time::SystemTime) {
    std::time::SystemTime::now()
}

/// Trusted: `std::time::SystemTime::duration_since` the Unix epoch. `None`
/// when the given time lies before the epoch.
#[verifier::external_body]
pub(crate) fn since_unix_epoch(time: &std::time::SystemTime) -> (elapsed: Option<
    core::time::Duration,
>) {
    time.duration_since(std::time::UNIX_EPOCH).ok()
}

/// Trusted: `core::time::Duration::as_millis`, the whole milliseconds of a
/// duration.
#[verifier::external_body]
pub(crate) fn whole_millis(duration: &core::time::Duration) -> (millis: u128) {
    duration.as_millis()
}

/// Trusted: `std::time::Instant::now`, a reading of the monotonic clock.
#[verifier::external_body]
pub(crate) fn monotonic_now() -> (now: std::time::Instant) {
    std::time::Instant::now()
}

/// Trusted: `std::time::Instant::elapsed`, the time passed since `start`.
#[verifier::external_body]
pub(crate) fn elapsed_since(start: &std::time::Instant) -> (elapsed: core::time::Duration) {
    start.elapsed()
}

/// The timestamp for a reading of the wall clock, given as the whole
/// milliseconds it lies after the Unix epoch, or `None` when it lies before
/// the epoch.
pub open spec fn timestamp_of(reading: Option<u128>) -> u128 {
    match reading {
        Some(millis) => millis,
        None => 0,
    }
}

/// Milliseconds since the Unix epoch for a clock reading: the reading
/// itself, and zero for a reading that lies before the epoch.
pub fn epoch_millis(reading: Option<u128>) -> (millis: u128)
    ensures
        millis == timestamp_of(reading),
{
    match reading {
        Some(millis) => millis,
        None => 0,
    }
}

/// The current wall-clock time in milliseconds since the Unix epoch; zero
/// while the clock is set before the epoch.
pub fn unix_millis_now() -> (millis: u128) {
    let now = wall_clock_now();
    let reading = match since_unix_epoch(&now) {
        Some(elapsed) => Some(whole_millis(&elapsed)),
        None => None,
    };
    epoch_millis(reading)
}

/// A stopwatch over the monotonic clock.
pub struct Stopwatch {
    started: std::time::Instant,
}

impl Stopwatch {
    /// Starts measuring now.
    pub fn start() -> (watch: Stopwatch) {
        Stopwatch { started: monotonic_now() }
    }

    /// Whole milliseconds passed since the stopwatch was started.
    pub fn elapsed_millis(&self) -> (millis: u128) {
        let elapsed = elapsed_since(&self.started);
        whole_millis(&elapsed)
    }
}

} // verus!
