//! Half-open ranges of time and how much two of them share.

use vstd::prelude::*;
use crate::instant::{Duration, Instant};

verus! {

/// The range of time from `start` up to, not including, `end`.
///
/// Nothing forces `start` to come first. A range whose `end` is not after its
/// `start` holds no time at all, and shares none with any other range.
#[derive(Clone, Copy, Debug, PartialEq, Eq, Structural)]
pub struct Period {
    pub start: Instant,
    pub end: Instant,
}

/// The larger of two integers.
pub open spec fn later(a: int, b: int) -> int {
    if a >= b { a } else { b }
}

/// The smaller of two integers.
pub open spec fn earlier(a: int, b: int) -> int {
    if a <= b { a } else { b }
}

impl Period {
    /// Nanoseconds from `start` to `end`, negative for a reversed range.
    pub open spec fn length(self) -> int {
        self.end@ - self.start@
    }

    /// Nanoseconds that lie in both ranges: the distance from the later start to
    /// the earlier end where that is positive, and zero otherwise.
    pub open spec fn shared_nanos(self, other: Period) -> int {
        let from = later(self.start@, other.start@);
        let until = earlier(self.end@, other.end@);
        if from < until { until - from } else { 0 }
    }

    /// The time that this range and `other` have in common. Never negative.
    pub fn overlap(&self, other: &Period) -> (shared: Duration)
        ensures
            shared@ == self.shared_nanos(*other),
            shared@ >= 0,
    {
        let a_start: i128 = self.start.as_nanos();
        let b_start: i128 = other.start.as_nanos();
        let a_end: i128 = self.end.as_nanos();
        let b_end: i128 = other.end.as_nanos();
        let from: i128 = if a_start >= b_start { a_start } else { b_start };
        let until: i128 = if a_end <= b_end { a_end } else { b_end };
        if from < until {
            Duration { nanos: until - from }
        } else {
            Duration::zero()
        }
    }

    /// Overlap does not depend on which range is asked about which.
    pub proof fn lemma_overlap_commutes(a: Period, b: Period)
        ensures
            a.shared_nanos(b) == b.shared_nanos(a),
    {
    }

    /// A range shares its whole length with itself, and nothing where it is
    /// empty or reversed.
    pub proof fn lemma_overlap_with_self(a: Period)
        ensures
            a.start@ <= a.end@ ==> a.shared_nanos(a) == a.end@ - a.start@,
            a.start@ > a.end@ ==> a.shared_nanos(a) == 0,
    {
    }

    /// A range that ends no later than another begins shares nothing with it.
    pub proof fn lemma_overlap_of_disjoint(a: Period, b: Period)
        requires
            a.end@ <= b.start@,
        ensures
            a.shared_nanos(b) == 0,
    {
    }

    /// What two ranges share is never negative and never more than either holds.
    pub proof fn lemma_overlap_bounds(a: Period, b: Period)
        ensures
            0 <= a.shared_nanos(b),
            a.shared_nanos(b) <= later(0, a.length()),
            a.shared_nanos(b) <= later(0, b.length()),
    {
    }
}

} // verus!
