//! Abstraction over time for testability.

use vstd::prelude::*;
use crate::time::{nanos_in_range, now, TimeDelta, UtcTime};

verus! {

/// Abstraction over time for testability.
///
/// In production, use `SystemClock`. In tests, use `MockClock`
/// to control time deterministically.
pub trait Clock: Send + Sync {
    /// Returns the current UTC timestamp.
    fn now(&self) -> UtcTime;
}

/// Real system clock.
#[derive(Debug, Clone, Copy)]
pub struct SystemClock;

impl Clock for SystemClock {
    /// Reads the system clock.
    fn now(&self) -> (r: UtcTime)
        ensures
            r.spec_secs() >= 0,
    {
        now()
    }
}

/// Mock clock for testing with a fixed or controllable time.
#[derive(Debug, Clone, Copy)]
pub struct MockClock {
    now: UtcTime,
}

impl MockClock {
    /// The time the clock shows.
    pub closed spec fn time(&self) -> UtcTime {
        self.now
    }

    pub fn new(time: UtcTime) -> (r: Self)
        ensures
            r.time() == time,
    {
        Self { now: time }
    }

    /// Moves the clock by `duration`; the new time must stay within the
    /// representable range.
    pub fn advance(&mut self, duration: TimeDelta)
        requires
            nanos_in_range(old(self).time().total_nanos() + duration.spec_nanos()),
        ensures
            final(self).time().total_nanos() == old(self).time().total_nanos() + duration.spec_nanos(),
    {
        self.now = self.now.checked_add(duration).unwrap();
    }

    pub fn set(&mut self, time: UtcTime)
        ensures
            final(self).time() == time,
    {
        self.now = time;
    }
}

impl Clock for MockClock {
    /// The time the clock shows.
    fn now(&self) -> (r: UtcTime)
        ensures
            r == self.time(),
    {
        self.now
    }
}

} // verus!
