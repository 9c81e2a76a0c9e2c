//! Everything this library asks of the system clock, the local time zone and
//! the `chrono` calendar. Nothing in this file is proved: each function states
//! what the call it makes is relied on to do.

use vstd::prelude::*;
use chrono::Datelike;
use chrono::TimeZone;
use crate::calendar::{date_exists, day_number, weekday_from_monday, SECS_PER_DAY};
use crate::instant::Instant;
use crate::window::{shows_date, LocalMapping};

verus! {

/// The current time, from `chrono::Utc::now`, as its timestamp and the
/// nanoseconds past it. Relied on: the clock reading is in normal form, with
/// less than a second of nanoseconds. `chrono` panics if the system clock is
/// set before 1970.
#[verifier::external_body]
pub(crate) fn utc_now() -> (now: Instant)
    ensures
        now.nanos < 1_000_000_000,
{
    let now = chrono::Utc::now();
    Instant { secs: now.timestamp(), nanos: now.timestamp_subsec_nanos() }
}

/// The current time and the date that the local wall clock shows at it, both
/// from one call of `chrono::Local::now`: its timestamp with the nanoseconds
/// past it, and the year, month and day of `DateTime::date_naive`. Relied on:
/// the clock reading is in normal form, `chrono` only hands out dates that its
/// calendar has, and the date is that of the time moved by a zone offset of
/// less than a day.
#[verifier::external_body]
pub(crate) fn local_now() -> (reading: (Instant, (i32, u32, u32)))
    ensures
        reading.0.nanos < 1_000_000_000,
        date_exists(reading.1.0 as int, reading.1.1 as int, reading.1.2 as int),
        shows_date(
            reading.0.secs as int,
            reading.1.0 as int,
            reading.1.1 as int,
            reading.1.2 as int,
        ),
{
    let now = chrono::Local::now();
    let today = now.date_naive();
    (
        Instant { secs: now.timestamp(), nanos: now.timestamp_subsec_nanos() },
        (today.year(), today.month(), today.day()),
    )
}

/// A date of the calendar: the midnight at which it begins, as seconds on the
/// wall clock since 1970-01-01T00:00:00, and its day of the week, counted from
/// Monday as 0. From `chrono::NaiveDate::from_ymd_opt`, the timestamp of
/// `NaiveDate::and_hms_opt` at 0:00:00, and `Datelike::weekday` with
/// `Weekday::num_days_from_monday`. Relied on: `from_ymd_opt` accepts exactly
/// the dates of the proleptic Gregorian calendar in its range of years, the
/// timestamp counts 86 400 seconds for each day since 1970-01-01, and the
/// weekdays run in the seven-day cycle in which 1970-01-01 is a Thursday.
#[verifier::external_body]
pub(crate) fn calendar_day(year: i32, month: u32, day: u32) -> (found: Option<(i64, u32)>)
    ensures
        found is Some <==> date_exists(year as int, month as int, day as int),
        found matches Some((midnight, weekday)) ==> midnight == SECS_PER_DAY * day_number(
            year as int,
            month as int,
            day as int,
        ) && weekday == weekday_from_monday(day_number(year as int, month as int, day as int)),
{
    let date = chrono::NaiveDate::from_ymd_opt(year, month, day)?;
    let midnight = date.and_hms_opt(0, 0, 0)?;
    Some((midnight.and_utc().timestamp(), date.weekday().num_days_from_monday()))
}

/// The UTC second that a wall-clock second stands for in the local time zone,
/// from `chrono::DateTime::from_timestamp` and `TimeZone::from_local_datetime`
/// on `chrono::Local`. A wall-clock time beyond the years that `chrono` holds
/// comes back as `Nonexistent`, as one that the zone skips does. Relied on:
/// `chrono` takes a zone offset of less than a day off the wall-clock time.
/// What the zone is depends on the machine, so no more is said of the answer.
#[verifier::external_body]
pub(crate) fn map_local(local_secs: i64) -> (mapping: LocalMapping)
    ensures
        mapping.is_for(local_secs as int),
{
    let naive = match chrono::DateTime::from_timestamp(local_secs, 0) {
        Some(as_if_utc) => as_if_utc.naive_utc(),
        None => return LocalMapping::Nonexistent,
    };
    match chrono::Local.from_local_datetime(&naive) {
        chrono::LocalResult::Single(t) => LocalMapping::Single(t.timestamp()),
        chrono::LocalResult::Ambiguous(a, b) => LocalMapping::Ambiguous(a.timestamp(), b.timestamp()),
        chrono::LocalResult::None => LocalMapping::Nonexistent,
    }
}

} // verus!
