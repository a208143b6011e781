//! Wall-clock stopwatch.
use vstd::prelude::*;

use std::time::Instant;

verus! {

#[verifier::external_type_specification]
#[verifier::external_body]
pub struct ExInstant(std::time::Instant);

/// `Instant::now` reads the monotonic clock of the machine; nothing is
/// claimed of the reading.
pub assume_specification[ std::time::Instant::now ]() -> (now: std::time::Instant);

/// `Instant::elapsed` measures the time since the instant was taken; nothing
/// is claimed of the measure.
pub assume_specification[ std::time::Instant::elapsed ](start: &std::time::Instant) -> (
    elapsed: core::time::Duration
);

/// `Duration::as_micros` gives the whole microseconds in a duration; the value
/// of a duration is not modelled, so nothing is claimed of the count.
pub assume_specification[ core::time::Duration::as_micros ](duration: &core::time::Duration) -> (
    micros: u128
);

/// A stopwatch that measures from its creation or its latest reset.
pub struct Clock {
    start_time: Instant,
}

impl Clock {
    /// Starts a stopwatch at the current instant.
    pub fn new() -> (clock: Self) {
        Clock { start_time: Instant::now() }
    }

    /// Microseconds since the stopwatch was started or last reset.
    pub fn elapsed(&self) -> (micros: u128) {
        self.start_time.elapsed().as_micros()
    }

    /// Restarts the stopwatch at the current instant.
    pub fn reset(&mut self) {
        self.start_time = Instant::now();
    }
}

} // verus!
