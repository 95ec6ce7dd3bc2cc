//! Instants and whole-day arithmetic.
//!
//! An instant is a count of milliseconds since 1970-01-01T00:00:00Z. All
//! subscription periods are whole numbers of days, so the arithmetic here is
//! integer arithmetic on milliseconds, checked against the range of `i64`.

use vstd::prelude::*;

verus! {

/// Milliseconds in one day.
pub const MILLIS_PER_DAY: i64 = 86_400_000;

/// A point in time, in milliseconds since the Unix epoch.
#[derive(Clone, Copy, Debug, PartialEq, Eq, Structural)]
pub struct Timestamp {
    pub millis: i64,
}

/// The instant `days` whole days after `t`, as a mathematical integer.
pub open spec fn spec_plus_days(t: int, days: int) -> int {
    t + days * MILLIS_PER_DAY
}

/// `delta` milliseconds expressed in whole days, rounded toward zero.
pub open spec fn spec_whole_days(delta: int) -> int {
    if delta >= 0 {
        delta / (MILLIS_PER_DAY as int)
    } else {
        -((-delta) / (MILLIS_PER_DAY as int))
    }
}

/// Whether `v` is representable as an instant.
pub open spec fn fits_i64(v: int) -> bool {
    i64::MIN <= v <= i64::MAX
}

impl Timestamp {
    pub fn from_millis(millis: i64) -> (t: Timestamp)
        ensures
            t.millis == millis,
    {
        Timestamp { millis }
    }

    /// The instant `days` days later, if it is representable.
    pub open spec fn spec_checked_add_days(self, days: int) -> Option<Timestamp> {
        if fits_i64(spec_plus_days(self.millis as int, days)) {
            Some(Timestamp { millis: spec_plus_days(self.millis as int, days) as i64 })
        } else {
            None
        }
    }

    /// The instant `delta` milliseconds later, if it is representable.
    pub open spec fn spec_checked_add_millis(self, delta: int) -> Option<Timestamp> {
        if fits_i64(self.millis + delta) {
            Some(Timestamp { millis: (self.millis + delta) as i64 })
        } else {
            None
        }
    }

    /// The instant `days` days later, or `None` when it is not representable.
    pub fn checked_add_days(self, days: i64) -> (r: Option<Timestamp>)
        ensures
            r == self.spec_checked_add_days(days as int),
    {
        assert(-0x8000_0000_0000_0000 * 86_400_000 <= days * MILLIS_PER_DAY
            <= 0x8000_0000_0000_0000 * 86_400_000) by (nonlinear_arith)
            requires
                MILLIS_PER_DAY == 86_400_000,
                -0x8000_0000_0000_0000 <= days <= 0x8000_0000_0000_0000,
        ;
        let wide: i128 = (self.millis as i128) + (days as i128) * (MILLIS_PER_DAY as i128);
        if wide < (i64::MIN as i128) || wide > (i64::MAX as i128) {
            None
        } else {
            Some(Timestamp { millis: wide as i64 })
        }
    }

    /// The instant `delta` milliseconds later, or `None` when it is not
    /// representable.
    pub fn checked_add_millis(self, delta: i128) -> (r: Option<Timestamp>)
        requires
            -0x1_0000_0000_0000_0000 <= delta <= 0x1_0000_0000_0000_0000,
        ensures
            r == self.spec_checked_add_millis(delta as int),
    {
        let wide: i128 = (self.millis as i128) + delta;
        if wide < (i64::MIN as i128) || wide > (i64::MAX as i128) {
            None
        } else {
            Some(Timestamp { millis: wide as i64 })
        }
    }

    /// Milliseconds from `earlier` to `self`; negative when `self` is the
    /// earlier of the two.
    pub fn millis_since(self, earlier: Timestamp) -> (d: i128)
        ensures
            d == self.millis - earlier.millis,
    {
        (self.millis as i128) - (earlier.millis as i128)
    }

    /// Whole days from `earlier` to `self`, rounded toward zero.
    pub fn days_since(self, earlier: Timestamp) -> (d: i64)
        ensures
            d == spec_whole_days(self.millis - earlier.millis),
    {
        let delta: i128 = (self.millis as i128) - (earlier.millis as i128);
        let days: i128 = delta / (MILLIS_PER_DAY as i128);
        days as i64
    }

    /// Whether `self` is strictly later than `other`.
    pub fn is_after(self, other: Timestamp) -> (b: bool)
        ensures
            b == (self.millis > other.millis),
    {
        self.millis > other.millis
    }
}

/// Reads the system clock through `chrono::Utc::now` and reports it in
/// milliseconds since the epoch (`DateTime::timestamp_millis`). Nothing is
/// claimed about the value: callers that need a particular instant take it
/// as an argument. `chrono` expects the system clock not to stand before
/// 1970 and stops the program where it does.
#[verifier::external_body]
pub(crate) fn current_time() -> (t: Timestamp) {
    Timestamp { millis: chrono::Utc::now().timestamp_millis() }
}

} // verus!
