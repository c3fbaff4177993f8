//! Points in time, as the ledger and the bridge record them.

use vstd::prelude::*;

verus! {

/// Milliseconds in one minute of paid access.
pub const MILLIS_PER_MINUTE: i64 = 60_000;

/// A point in time: milliseconds since the Unix epoch, UTC.
#[derive(Debug, Clone, Copy, PartialEq, Eq, Structural)]
pub struct Timestamp {
    pub millis: i64,
}

impl View for Timestamp {
    type V = int;

    open spec fn view(&self) -> int {
        self.millis as int
    }
}

/// The instant `minutes` minutes after `start`, as a number of milliseconds.
pub open spec fn minutes_after(start: int, minutes: int) -> int {
    start + minutes * MILLIS_PER_MINUTE
}

impl Timestamp {
    /// The timestamp that lies `millis` milliseconds after the epoch.
    pub fn from_millis(millis: i64) -> (t: Timestamp)
        ensures
            t@ == millis,
    {
        Timestamp { millis }
    }

    /// Whether `self` lies strictly after `other`.
    pub fn is_after(&self, other: &Timestamp) -> (b: bool)
        ensures
            b == (self@ > other@),
    {
        self.millis > other.millis
    }

    /// The later of two timestamps.
    pub fn later_of(a: Timestamp, b: Timestamp) -> (t: Timestamp)
        ensures
            t@ == if a@ >= b@ { a@ } else { b@ },
    {
        if a.millis >= b.millis {
            a
        } else {
            b
        }
    }

    /// Whether the instant `minutes` minutes after `self` can be represented.
    pub fn can_add_minutes(&self, minutes: u64) -> (b: bool)
        ensures
            b == (minutes_after(self@, minutes as int) <= i64::MAX),
    {
        let span: i128 = (minutes as i128) * 60_000;
        let wide: i128 = (self.millis as i128) + span;
        wide <= i64::MAX as i128
    }

    /// The instant `minutes` minutes after `self`.
    pub fn plus_minutes(&self, minutes: u64) -> (t: Timestamp)
        requires
            minutes_after(self@, minutes as int) <= i64::MAX,
        ensures
            t@ == minutes_after(self@, minutes as int),
    {
        let span: i128 = (minutes as i128) * 60_000;
        let wide: i128 = (self.millis as i128) + span;
        Timestamp { millis: wide as i64 }
    }
}

/// Reads the clock through `chrono::Utc::now` and keeps the whole
/// milliseconds that `DateTime::timestamp_millis` reports. Nothing is claimed
/// about the instant that comes back: it is whatever the system clock says.
/// (`Utc::now` panics if the system clock is set to a time before the Unix
/// epoch.)
#[verifier::external_body]
pub(crate) fn current_time() -> (t: Timestamp) {
    Timestamp { millis: chrono::Utc::now().timestamp_millis() }
}

} // verus!
