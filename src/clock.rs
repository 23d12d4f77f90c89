//! Instants and calendar days, and the recency windows measured between them.

use vstd::prelude::*;

verus! {

/// An instant: whole seconds since 1970-01-01T00:00:00Z and the nanoseconds
/// past that second.
#[derive(Clone, Copy, Debug, PartialEq, Eq, Structural, PartialOrd, Ord, Hash)]
pub struct Timestamp {
    pub seconds: i64,
    pub nanos: u32,
}

/// A day of the proleptic Gregorian calendar.
#[derive(Clone, Copy, Debug, PartialEq, Eq, Structural)]
pub struct CalendarDate {
    pub year: i32,
    pub month: u32,
    pub day: u32,
}

/// Nanoseconds in an hour.
pub const HOUR_NANOS: i128 = 3_600_000_000_000;

/// Nanoseconds in a day.
pub const DAY_NANOS: i128 = 86_400_000_000_000;

/// Sort key of an optional instant: an absent instant comes before every
/// present one, and instants order by second, then by nanosecond.
pub open spec fn time_key(t: Option<Timestamp>) -> int {
    match t {
        None => -0x1_0000_0000_0000_0000_0000_0000,
        Some(t) => t.seconds * 0x1_0000_0000 + t.nanos,
    }
}

/// Sort key of an optional instant, as `time_key` computes it.
pub fn time_key_of(t: Option<Timestamp>) -> (r: i128)
    ensures
        r as int == time_key(t),
{
    match t {
        None => -0x1_0000_0000_0000_0000_0000_0000,
        Some(t) => t.seconds as i128 * 0x1_0000_0000 + t.nanos as i128,
    }
}

/// Whether `candidate` is strictly later than `current`; an absent instant is
/// never later, and a present one is later than an absent one.
pub open spec fn more_recent(candidate: Option<Timestamp>, current: Option<Timestamp>) -> bool {
    match (candidate, current) {
        (Some(a), Some(b)) => a.seconds > b.seconds || (a.seconds == b.seconds && a.nanos
            > b.nanos),
        (Some(_), None) => true,
        _ => false,
    }
}

/// Whether `candidate` is strictly later than `current` (see `more_recent`).
pub fn is_more_recent(candidate: Option<Timestamp>, current: Option<Timestamp>) -> (r: bool)
    ensures
        r == more_recent(candidate, current),
        r == (time_key(candidate) > time_key(current)),
{
    match (candidate, current) {
        (Some(a), Some(b)) => a.seconds > b.seconds || (a.seconds == b.seconds && a.nanos
            > b.nanos),
        (Some(_), None) => true,
        _ => false,
    }
}

/// The distance between two instants, in nanoseconds.
pub open spec fn nanos_apart(a: Timestamp, b: Timestamp) -> nat {
    let d = (a.seconds - b.seconds) * 1_000_000_000 + (a.nanos - b.nanos);
    if d < 0 {
        (-d) as nat
    } else {
        d as nat
    }
}

/// Whether `t` lies within `window` whole units of `unit` nanoseconds of the
/// anchor, the distance being counted in whole units, rounded toward zero.
/// Without an anchor or without an instant, it does.
pub open spec fn within_window(anchor: Option<Timestamp>, t: Option<Timestamp>, unit: int, window: int) -> bool {
    match (anchor, t) {
        (Some(a), Some(t)) => (nanos_apart(a, t) as int) / unit <= window,
        _ => true,
    }
}

fn within(anchor: Option<Timestamp>, t: Option<Timestamp>, unit: i128, window: u32) -> (r: bool)
    requires
        unit == HOUR_NANOS || unit == DAY_NANOS,
    ensures
        r == within_window(anchor, t, unit as int, window as int),
{
    match (anchor, t) {
        (Some(a), Some(t)) => {
            let d: i128 = (a.seconds as i128 - t.seconds as i128) * 1_000_000_000 + (a.nanos as i128
                - t.nanos as i128);
            let m: i128 = if d < 0 { -d } else { d };
            m / unit <= window as i128
        },
        _ => true,
    }
}

/// Whether a vital sign taken at `t` is recent: within `window_hours` hours of the anchor.
pub fn is_recent_vital(anchor: Option<Timestamp>, t: Option<Timestamp>, window_hours: u32) -> (r: bool)
    ensures
        r == within_window(anchor, t, HOUR_NANOS as int, window_hours as int),
{
    within(anchor, t, HOUR_NANOS, window_hours)
}

/// Whether a clinical event at `t` is recent: within `window_days` days of the anchor.
pub fn is_recent_event(anchor: Option<Timestamp>, t: Option<Timestamp>, window_days: u32) -> (r: bool)
    ensures
        r == within_window(anchor, t, DAY_NANOS as int, window_days as int),
{
    within(anchor, t, DAY_NANOS, window_days)
}

/// The instant that an RFC 3339 text denotes, as chrono reads it.
pub uninterp spec fn rfc3339_instant(text: Seq<char>) -> Option<Timestamp>;

/// Relies on chrono's `DateTime::parse_from_rfc3339`, taken to UTC: the
/// instant that an RFC 3339 date-time denotes, or nothing if the text is not one.
#[verifier::external_body]
pub(crate) fn parse_instant(text: &str) -> (r: Option<Timestamp>)
    ensures
        r == rfc3339_instant(text@),
{
    match chrono::DateTime::parse_from_rfc3339(text) {
        Ok(dt) => {
            let utc = dt.with_timezone(&chrono::Utc);
            Some(Timestamp { seconds: utc.timestamp(), nanos: utc.timestamp_subsec_nanos() })
        },
        Err(_) => None,
    }
}

/// The day that a "year-month-day" text denotes, as chrono reads it.
pub uninterp spec fn ymd_date(text: Seq<char>) -> Option<CalendarDate>;

/// Relies on chrono's `NaiveDate::parse_from_str` with the format `%Y-%m-%d`:
/// the calendar day written, or nothing if the text is not one.
#[verifier::external_body]
pub(crate) fn parse_date(text: &str) -> (r: Option<CalendarDate>)
    ensures
        r == ymd_date(text@),
{
    match chrono::NaiveDate::parse_from_str(text, "%Y-%m-%d") {
        Ok(d) => Some(CalendarDate {
            year: chrono::Datelike::year(&d),
            month: chrono::Datelike::month(&d),
            day: chrono::Datelike::day(&d),
        }),
        Err(_) => None,
    }
}

/// Relies on chrono's `Utc::now`: the current instant, of which nothing is assumed.
#[verifier::external_body]
pub fn clock_now() -> (r: Timestamp)
{
    let now = chrono::Utc::now();
    Timestamp { seconds: now.timestamp(), nanos: now.timestamp_subsec_nanos() }
}

/// The UTC calendar day of the instant `seconds` after the epoch, as chrono computes it.
pub uninterp spec fn utc_day_of(seconds: int) -> Option<CalendarDate>;

/// Relies on chrono's `DateTime::from_timestamp` and `date_naive`: the UTC day
/// of an instant, or nothing if chrono cannot represent it.
#[verifier::external_body]
pub(crate) fn utc_day(seconds: i64) -> (r: Option<CalendarDate>)
    ensures
        r == utc_day_of(seconds as int),
{
    match chrono::DateTime::from_timestamp(seconds, 0) {
        Some(dt) => {
            let d = dt.date_naive();
            Some(CalendarDate {
            year: chrono::Datelike::year(&d),
            month: chrono::Datelike::month(&d),
            day: chrono::Datelike::day(&d),
        })
        },
        None => None,
    }
}

/// Whole years from `birth` to `today`: the difference of the years, less one
/// while this year's birthday is still ahead; nothing if that is negative.
pub open spec fn age_on(birth: CalendarDate, today: CalendarDate) -> Option<int> {
    let before_birthday = today.month < birth.month || (today.month == birth.month && today.day
        < birth.day);
    let age = today.year - birth.year - if before_birthday { 1int } else { 0int };
    if age >= 0 {
        Some(age)
    } else {
        None
    }
}

/// Age in whole years on `today` of someone born on `birth` (see `age_on`).
pub fn age_in_years(birth: CalendarDate, today: CalendarDate) -> (r: Option<i64>)
    ensures
        match r {
            Some(a) => age_on(birth, today) == Some(a as int),
            None => age_on(birth, today) is None,
        },
{
    let before_birthday = today.month < birth.month || (today.month == birth.month && today.day
        < birth.day);
    let age: i64 = today.year as i64 - birth.year as i64 - if before_birthday { 1 } else { 0 };
    if age >= 0 {
        Some(age)
    } else {
        None
    }
}

} // verus!
