//! Points and distances on the UTC timeline, counted in nanoseconds.

use vstd::prelude::*;

verus! {

/// Nanoseconds in one second.
pub const NANOS_PER_SEC: i128 = 1_000_000_000;

/// An absolute point in time: `secs` whole seconds after 1970-01-01T00:00:00 UTC
/// (before it where negative), and `nanos` nanoseconds after that second.
///
/// `nanos` is not required to stay below one second. Whatever it holds is added
/// on, so two instants denote the same point exactly when their views agree.
#[derive(Clone, Copy, Debug, PartialEq, Eq, Structural)]
pub struct Instant {
    pub secs: i64,
    pub nanos: u32,
}

impl View for Instant {
    type V = int;

    /// The instant as a count of nanoseconds since the epoch.
    open spec fn view(&self) -> int {
        self.secs * 1_000_000_000 + self.nanos
    }
}

impl Instant {
    /// The instant `secs` seconds and `nanos` nanoseconds after the epoch.
    pub fn new(secs: i64, nanos: u32) -> (t: Instant)
        ensures
            t == (Instant { secs, nanos }),
            t@ == secs * 1_000_000_000 + nanos,
    {
        Instant { secs, nanos }
    }

    /// The nanosecond count of the instant, as a machine integer.
    pub fn as_nanos(&self) -> (n: i128)
        ensures
            n == self@,
    {
        let secs: i128 = self.secs as i128;
        let nanos: i128 = self.nanos as i128;
        secs * NANOS_PER_SEC + nanos
    }

    /// Whether this instant lies strictly before `other` on the timeline.
    pub fn is_before(&self, other: &Instant) -> (b: bool)
        ensures
            b == (self@ < other@),
    {
        self.as_nanos() < other.as_nanos()
    }

    /// The signed distance from `earlier` to this instant.
    pub fn since(&self, earlier: &Instant) -> (d: Duration)
        ensures
            d@ == self@ - earlier@,
    {
        Duration { nanos: self.as_nanos() - earlier.as_nanos() }
    }
}

/// A signed span of time in nanoseconds.
#[derive(Clone, Copy, Debug, PartialEq, Eq, Structural)]
pub struct Duration {
    pub nanos: i128,
}

impl View for Duration {
    type V = int;

    open spec fn view(&self) -> int {
        self.nanos as int
    }
}

/// A span of time as a clock shows it: whole hours, then minutes and seconds
/// below sixty.
#[derive(Clone, Copy, Debug, PartialEq, Eq, Structural)]
pub struct ClockReading {
    pub hours: u128,
    pub minutes: u8,
    pub seconds: u8,
}

impl Duration {
    /// The whole seconds that a display shows for the span: a negative span,
    /// as a clock set back can leave behind, shows as zero, and a part of a
    /// second is dropped.
    pub open spec fn shown_seconds(self) -> int {
        if self@ < 0 { 0 } else { self@ / 1_000_000_000 }
    }

    /// The empty span.
    pub fn zero() -> (d: Duration)
        ensures
            d@ == 0,
    {
        Duration { nanos: 0 }
    }

    /// Whether the span runs backwards.
    pub fn is_negative(&self) -> (negative: bool)
        ensures
            negative == (self@ < 0),
    {
        self.nanos < 0
    }

    /// The span in hours, minutes and seconds for display, clamped at zero.
    pub fn clock_reading(&self) -> (reading: ClockReading)
        ensures
            reading.hours == self.shown_seconds() / 3600,
            reading.minutes == (self.shown_seconds() % 3600) / 60,
            reading.seconds == self.shown_seconds() % 60,
    {
        if self.nanos < 0 {
            return ClockReading { hours: 0, minutes: 0, seconds: 0 };
        }
        let shown: u128 = (self.nanos / NANOS_PER_SEC) as u128;
        ClockReading {
            hours: shown / 3600,
            minutes: ((shown % 3600) / 60) as u8,
            seconds: (shown % 60) as u8,
        }
    }
}

} // verus!
