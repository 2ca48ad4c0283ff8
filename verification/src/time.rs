//! Instants on the UTC time line, as plain numbers.
use vstd::prelude::*;

verus! {

/// Seconds in a day.
pub const SECS_PER_DAY: i64 = 86_400;

/// Nanoseconds in a second.
pub const NANOS_PER_SEC: u32 = 1_000_000_000;

/// The first second that the calendar can hold: midnight before
/// 1 January of the year -262143.
pub const MIN_SECS: i64 = -8_334_601_228_800;

/// The last second that the calendar can hold: the one before midnight
/// after 31 December of the year 262142.
pub const MAX_SECS: i64 = 8_210_266_876_799;

/// An instant: whole seconds since 1970-01-01T00:00:00Z, leap seconds not
/// counted, and the nanoseconds into that second.
#[derive(Debug, Clone, Copy, PartialEq, Eq, Structural, Hash)]
pub struct Timestamp {
    pub secs: i64,
    pub nanos: u32,
}

/// The whole days from `earlier` to `later`, rounded toward zero; negative
/// where `later` comes first.
pub open spec fn whole_days_between(later: Timestamp, earlier: Timestamp) -> int {
    let nanos = (later.secs - earlier.secs) * 1_000_000_000 + (later.nanos - earlier.nanos);
    if nanos >= 0 {
        nanos / 86_400_000_000_000
    } else {
        -((-nanos) / 86_400_000_000_000)
    }
}

/// `chrono::DateTime::signed_duration_since` followed by
/// `chrono::TimeDelta::num_days`, between two instants built with
/// `chrono::DateTime::from_timestamp`. Both instants are in the calendar's
/// range and neither stands for a leap second, so the subtraction is the
/// plain difference of seconds and nanoseconds, and `num_days` drops the
/// incomplete day on either side of zero.
#[verifier::external_body]
fn chrono_whole_days(later: Timestamp, earlier: Timestamp) -> (days: i64)
    requires
        later.is_valid(),
        earlier.is_valid(),
    ensures
        days == whole_days_between(later, earlier),
{
    let a = chrono::DateTime::from_timestamp(later.secs, later.nanos).unwrap();
    let b = chrono::DateTime::from_timestamp(earlier.secs, earlier.nanos).unwrap();
    a.signed_duration_since(b).num_days()
}

/// `chrono::TimeDelta::minutes` added with `+` to an instant built with
/// `chrono::DateTime::from_timestamp`. The sum stays in the calendar's
/// range, so the addition moves the seconds by sixty per minute and leaves
/// the nanoseconds alone.
#[verifier::external_body]
fn chrono_plus_minutes(t: Timestamp, minutes: i64) -> (moved: Timestamp)
    requires
        t.is_valid(),
        MIN_SECS <= t.secs + 60 * minutes <= MAX_SECS,
    ensures
        moved.secs == t.secs + 60 * minutes,
        moved.nanos == t.nanos,
{
    let start = chrono::DateTime::from_timestamp(t.secs, t.nanos).unwrap();
    let end = start + chrono::TimeDelta::minutes(minutes);
    Timestamp { secs: end.timestamp(), nanos: end.timestamp_subsec_nanos() }
}

/// `chrono::TimeDelta::days` added with `+` to an instant built with
/// `chrono::DateTime::from_timestamp`. The sum stays in the calendar's
/// range, so the addition moves the seconds by 86400 per day and leaves the
/// nanoseconds alone.
#[verifier::external_body]
fn chrono_plus_days(t: Timestamp, days: i64) -> (moved: Timestamp)
    requires
        t.is_valid(),
        MIN_SECS <= t.secs + 86_400 * days <= MAX_SECS,
    ensures
        moved.secs == t.secs + 86_400 * days,
        moved.nanos == t.nanos,
{
    let start = chrono::DateTime::from_timestamp(t.secs, t.nanos).unwrap();
    let end = start + chrono::TimeDelta::days(days);
    Timestamp { secs: end.timestamp(), nanos: end.timestamp_subsec_nanos() }
}

impl Timestamp {
    /// The instant lies in the calendar's range and does not stand for a
    /// leap second.
    pub open spec fn is_valid(self) -> bool {
        MIN_SECS <= self.secs <= MAX_SECS && self.nanos < NANOS_PER_SEC
    }

    /// The instant can be moved forward by `days` days.
    pub open spec fn reaches(self, days: int) -> bool {
        self.is_valid() && 0 <= days && self.secs + 86_400 * days <= MAX_SECS
    }

    /// The instant `secs` seconds and `nanos` nanoseconds after the epoch,
    /// where the calendar holds it.
    pub fn new(secs: i64, nanos: u32) -> (t: Option<Timestamp>)
        ensures
            t is Some <==> (Timestamp { secs, nanos }).is_valid(),
            t matches Some(at) ==> at == (Timestamp { secs, nanos }),
    {
        if MIN_SECS <= secs && secs <= MAX_SECS && nanos < NANOS_PER_SEC {
            Some(Timestamp { secs, nanos })
        } else {
            None
        }
    }

    /// The start of 1970.
    pub fn epoch() -> (t: Timestamp)
        ensures
            t == (Timestamp { secs: 0, nanos: 0 }),
            t.is_valid(),
    {
        Timestamp { secs: 0, nanos: 0 }
    }

    /// Whether the instant can be moved forward by `days` days.
    pub fn can_reach(self, days: i64) -> (ok: bool)
        ensures
            ok == self.reaches(days as int),
    {
        MIN_SECS <= self.secs && self.secs <= MAX_SECS && self.nanos < NANOS_PER_SEC && 0 <= days
            && days <= (MAX_SECS - self.secs) / SECS_PER_DAY
    }

    /// The whole days that have passed since `earlier`.
    pub fn whole_days_since(self, earlier: Timestamp) -> (days: i64)
        requires
            self.is_valid(),
            earlier.is_valid(),
        ensures
            days == whole_days_between(self, earlier),
    {
        chrono_whole_days(self, earlier)
    }

    /// The instant `minutes` minutes later.
    pub fn plus_minutes(self, minutes: i64) -> (moved: Timestamp)
        requires
            self.is_valid(),
            0 <= minutes,
            self.secs + 60 * minutes <= MAX_SECS,
        ensures
            moved.secs == self.secs + 60 * minutes,
            moved.nanos == self.nanos,
            moved.is_valid(),
    {
        chrono_plus_minutes(self, minutes)
    }

    /// The instant `days` days later.
    pub fn plus_days(self, days: i64) -> (moved: Timestamp)
        requires
            self.reaches(days as int),
        ensures
            moved.secs == self.secs + 86_400 * days,
            moved.nanos == self.nanos,
            moved.is_valid(),
    {
        chrono_plus_days(self, days)
    }
}

} // verus!
