//! The proleptic Gregorian calendar: which dates exist, and how many days lie
//! between a date and 1970-01-01.

use vstd::prelude::*;

verus! {

/// The earliest year a `CivilDate` can carry.
pub const MIN_YEAR: i32 = -262_143;

/// The latest year a `CivilDate` can carry.
pub const MAX_YEAR: i32 = 262_142;

/// Seconds in one calendar day.
pub const SECS_PER_DAY: i64 = 86_400;

/// Every fourth year is a leap year, except the centuries that 400 does not
/// divide.
pub open spec fn is_leap_year(year: int) -> bool {
    year % 4 == 0 && (year % 100 != 0 || year % 400 == 0)
}

/// Days in the given month of the given year.
pub open spec fn days_in_month(year: int, month: int) -> int {
    if month == 2 {
        if is_leap_year(year) { 29 } else { 28 }
    } else if month == 4 || month == 6 || month == 9 || month == 11 {
        30
    } else {
        31
    }
}

/// Days of `year` that come before the first of `month`.
pub open spec fn days_before_month(year: int, month: int) -> int
    decreases month,
{
    if month <= 1 {
        0
    } else {
        days_before_month(year, month - 1) + days_in_month(year, month - 1)
    }
}

/// Days from 0001-01-01 to the first of January of `year`: 365 for each year
/// between, and one more for each leap year among them.
pub open spec fn days_before_year(year: int) -> int {
    let past = year - 1;
    365 * past + past / 4 - past / 100 + past / 400
}

/// Days from 1970-01-01 to the given date, negative for earlier dates.
pub open spec fn day_number(year: int, month: int, day: int) -> int {
    days_before_year(year) + days_before_month(year, month) + (day - 1) - 719_162
}

/// Day of the week of the day with the given number, counted from Monday as 0
/// to Sunday as 6. Day 0, 1970-01-01, was a Thursday.
pub open spec fn weekday_from_monday(day_number: int) -> int {
    (day_number + 3) % 7
}

/// Whether the calendar has this date, within the years supported.
pub open spec fn date_exists(year: int, month: int, day: int) -> bool {
    &&& MIN_YEAR <= year <= MAX_YEAR
    &&& 1 <= month <= 12
    &&& 1 <= day <= days_in_month(year, month)
}

/// The year and month that follow the given month.
pub open spec fn month_after(year: int, month: int) -> (int, int) {
    if month == 12 { (year + 1, 1) } else { (year, month + 1) }
}

/// How many multiples of `step` lie in the years up to `year`, against those up
/// to the year before: one more exactly when `step` divides `year`.
proof fn lemma_multiples_step(year: int, step: int)
    requires
        step == 4 || step == 100 || step == 400,
    ensures
        year / step - (year - 1) / step == if year % step == 0 { 1int } else { 0int },
{
}

/// A year has 365 days, and 366 when it is a leap year.
pub proof fn lemma_year_length(year: int)
    ensures
        days_before_year(year + 1) - days_before_year(year) == if is_leap_year(year) {
            366int
        } else {
            365int
        },
{
    lemma_multiples_step(year, 4);
    lemma_multiples_step(year, 100);
    lemma_multiples_step(year, 400);
    assert(year % 400 == 0 ==> year % 100 == 0);
    assert(year % 100 == 0 ==> year % 4 == 0);
}

/// The days of a year before each of its months, written out.
pub proof fn lemma_days_before_month_values(year: int, month: int)
    requires
        1 <= month <= 12,
    ensures
        days_before_month(year, month) == (if month == 1 {
            0int
        } else if month == 2 {
            31
        } else {
            (if is_leap_year(year) { 1int } else { 0int }) + (if month == 3 {
                59int
            } else if month == 4 {
                90
            } else if month == 5 {
                120
            } else if month == 6 {
                151
            } else if month == 7 {
                181
            } else if month == 8 {
                212
            } else if month == 9 {
                243
            } else if month == 10 {
                273
            } else if month == 11 {
                304
            } else {
                334
            })
        }),
    decreases month,
{
    if month > 1 {
        lemma_days_before_month_values(year, month - 1);
    }
}

/// The first of a month and the first of the next are as many days apart as
/// the month is long, across the turn of the year too.
pub proof fn lemma_month_length(year: int, month: int)
    requires
        1 <= month <= 12,
    ensures
        day_number(month_after(year, month).0, month_after(year, month).1, 1) - day_number(
            year,
            month,
            1,
        ) == days_in_month(year, month),
        28 <= days_in_month(year, month) <= 31,
{
    if month == 12 {
        lemma_days_before_month_values(year, 12);
        lemma_year_length(year);
    } else {
        assert(days_before_month(year, month + 1) == days_before_month(year, month)
            + days_in_month(year, month));
    }
}

/// Day numbers grow with the day of the month, and every day of a month falls
/// between its first and the first of the next month.
pub proof fn lemma_day_within_month(year: int, month: int, day: int)
    requires
        1 <= month <= 12,
        1 <= day <= days_in_month(year, month),
    ensures
        day_number(year, month, 1) <= day_number(year, month, day),
        day_number(year, month, day) < day_number(
            month_after(year, month).0,
            month_after(year, month).1,
            1,
        ),
{
    lemma_month_length(year, month);
}

/// Day numbers of the supported dates, and of the month after the last of
/// them, stay within 96.5 million of zero, so that counted in seconds they fit
/// a signed 64-bit count many times over.
pub proof fn lemma_day_number_bounds(year: int, month: int, day: int)
    requires
        MIN_YEAR <= year <= MAX_YEAR + 1,
        1 <= month <= 12,
        1 <= day <= 31,
    ensures
        -96_500_000 < day_number(year, month, day) < 96_500_000,
{
    lemma_days_before_month_values(year, month);
}

/// Whether `year` is a leap year.
pub fn leap_year(year: i32) -> (leap: bool)
    ensures
        leap == is_leap_year(year as int),
{
    // Shifting by a multiple of 400 keeps every remainder and leaves nothing
    // negative to divide.
    let shifted: i64 = year as i64 + 4_000_000_000;
    assert(shifted % 4 == (year as int) % 4 && shifted % 100 == (year as int) % 100 && shifted
        % 400 == (year as int) % 400);
    shifted % 4 == 0 && (shifted % 100 != 0 || shifted % 400 == 0)
}

/// The number of days in `month` of `year`.
pub fn month_length(year: i32, month: u32) -> (days: u32)
    ensures
        days == days_in_month(year as int, month as int),
{
    if month == 2 {
        if leap_year(year) { 29 } else { 28 }
    } else if month == 4 || month == 6 || month == 9 || month == 11 {
        30
    } else {
        31
    }
}

/// A date of the calendar, with no time of day and no time zone attached.
///
/// Only dates that exist can be held: the month is one of the twelve, the day
/// one that the month has in that year.
#[derive(Clone, Copy, Debug, PartialEq, Eq, Structural)]
pub struct CivilDate {
    year: i32,
    month: u32,
    day: u32,
}

impl CivilDate {
    /// The year of the date.
    pub closed spec fn year_of(self) -> int {
        self.year as int
    }

    /// The month of the date, 1 for January.
    pub closed spec fn month_of(self) -> int {
        self.month as int
    }

    /// The day of the month, 1 for the first.
    pub closed spec fn day_of(self) -> int {
        self.day as int
    }

    /// The calendar has the date. This holds of every date that running code
    /// holds; a proof about an arbitrary date has to ask for it.
    #[verifier::type_invariant]
    pub open spec fn is_valid(self) -> bool {
        date_exists(self.year_of(), self.month_of(), self.day_of())
    }

    /// Days from 1970-01-01 to this date.
    pub open spec fn number(self) -> int {
        day_number(self.year_of(), self.month_of(), self.day_of())
    }

    /// The date with the given year, month and day, where the calendar has it.
    pub fn new(year: i32, month: u32, day: u32) -> (date: Option<CivilDate>)
        ensures
            date is Some <==> date_exists(year as int, month as int, day as int),
            date matches Some(d) ==> d.year_of() == year && d.month_of() == month && d.day_of()
                == day,
    {
        if MIN_YEAR <= year && year <= MAX_YEAR && 1 <= month && month <= 12 && 1 <= day && day
            <= month_length(year, month) {
            Some(CivilDate { year, month, day })
        } else {
            None
        }
    }

    /// The year of the date.
    pub fn year(&self) -> (year: i32)
        ensures
            year == self.year_of(),
            MIN_YEAR <= year <= MAX_YEAR,
    {
        proof {
            use_type_invariant(self);
        }
        self.year
    }

    /// The month of the date, 1 for January.
    pub fn month(&self) -> (month: u32)
        ensures
            month == self.month_of(),
            1 <= month <= 12,
    {
        proof {
            use_type_invariant(self);
        }
        self.month
    }

    /// The day of the month, 1 for the first.
    pub fn day(&self) -> (day: u32)
        ensures
            day == self.day_of(),
            1 <= day <= days_in_month(self.year_of(), self.month_of()),
    {
        proof {
            use_type_invariant(self);
        }
        self.day
    }
}

} // verus!
