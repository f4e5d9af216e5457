//! Points in time and spans of time, counted in nanoseconds.

use vstd::prelude::*;

verus! {

/// Nanoseconds in one second.
pub const NANOS_PER_SEC: u128 = 1_000_000_000;

/// A span of time.
#[derive(Clone, Copy, Debug, PartialEq, Eq, Structural)]
pub struct Duration {
    pub nanos: u128,
}

/// A reading of a monotonic clock. Only differences between readings mean anything.
#[derive(Clone, Copy, Debug, PartialEq, Eq, Structural)]
pub struct Instant {
    pub nanos: u128,
}

/// A wall-clock time, counted from 1970-01-01 00:00:00 UTC.
#[derive(Clone, Copy, Debug, PartialEq, Eq, Structural)]
pub struct SystemTime {
    pub nanos: i128,
}

impl Duration {
    /// The number of nanoseconds in `secs` seconds.
    pub open spec fn secs_nanos(secs: u64) -> int {
        secs * 1_000_000_000
    }

    pub fn from_secs(secs: u64) -> (r: Self)
        ensures
            r.nanos == Self::secs_nanos(secs),
    {
        Duration { nanos: secs as u128 * NANOS_PER_SEC }
    }

    pub fn from_millis(millis: u64) -> (r: Self)
        ensures
            r.nanos == millis * 1_000_000,
    {
        Duration { nanos: millis as u128 * 1_000_000 }
    }

    pub fn from_micros(micros: u64) -> (r: Self)
        ensures
            r.nanos == micros * 1_000,
    {
        Duration { nanos: micros as u128 * 1_000 }
    }
}

impl Instant {
    /// Whether `secs` seconds can be added to this reading.
    pub open spec fn can_advance(self, secs: u64) -> bool {
        self.nanos + Duration::secs_nanos(secs) <= u128::MAX
    }

    /// Whether `secs` seconds can be added to this reading, as a test.
    pub fn can_advance_secs(&self, secs: u64) -> (r: bool)
        ensures
            r == self.can_advance(secs),
    {
        self.nanos <= u128::MAX - secs as u128 * NANOS_PER_SEC
    }

    /// The reading `secs` seconds later.
    pub open spec fn after(self, secs: u64) -> Instant {
        Instant { nanos: (self.nanos + Duration::secs_nanos(secs)) as u128 }
    }

    /// The reading `secs` seconds later.
    pub fn plus_secs(&self, secs: u64) -> (r: Instant)
        requires
            self.can_advance(secs),
        ensures
            r == self.after(secs),
    {
        Instant { nanos: self.nanos + secs as u128 * NANOS_PER_SEC }
    }

    /// Nanoseconds from `earlier` to this reading; zero where `earlier` is the later of the two.
    pub open spec fn since(self, earlier: Instant) -> int {
        if self.nanos >= earlier.nanos {
            self.nanos - earlier.nanos
        } else {
            0
        }
    }

    /// Time from `earlier` to this reading; zero where `earlier` is the later of the two.
    pub fn duration_since(&self, earlier: Instant) -> (r: Duration)
        ensures
            r.nanos == self.since(earlier),
    {
        if self.nanos >= earlier.nanos {
            Duration { nanos: self.nanos - earlier.nanos }
        } else {
            Duration { nanos: 0 }
        }
    }
}

/// A second is a thousand million nanoseconds; time runs from the earlier reading to the later one,
/// and back again none has passed.
pub proof fn law_seconds_pass(start: Instant, secs: u64, other: Instant)
    requires
        start.nanos + secs * 1_000_000_000 <= u128::MAX,
    ensures
        start.can_advance(secs),
        start.after(secs).nanos == start.nanos + secs * 1_000_000_000,
        start.after(secs).since(start) == secs * 1_000_000_000,
        start.since(start.after(secs)) == 0,
        start.nanos >= other.nanos ==> start.since(other) == start.nanos - other.nanos,
{
}

} // verus!
