//! Reporting windows: the stretch of local wall-clock time that "today", "this
//! week" and "this month" cover for a date, and the UTC range that the local
//! time zone makes of it.

use vstd::prelude::*;
use vstd::pervasive::unreached;
use crate::calendar::{
    day_number, days_in_month, lemma_day_number_bounds, lemma_day_within_month,
    lemma_month_length, month_after, weekday_from_monday, CivilDate, SECS_PER_DAY,
};
use crate::clock;
use crate::instant::Instant;
use crate::period::Period;

verus! {

/// The window that a report covers.
#[derive(Clone, Copy, Debug, PartialEq, Eq, Structural)]
pub enum ReportingPeriod {
    /// The current local day, midnight to midnight.
    Today,
    /// The current local week, from Monday's midnight to the next.
    Week,
    /// The current local month, from the midnight of its first to that of the
    /// next month's first.
    Month,
}

/// A time on the local wall clock, with no zone attached: seconds counted on
/// the calendar from 1970-01-01T00:00:00, every day 86 400 of them.
#[derive(Clone, Copy, Debug, PartialEq, Eq, Structural)]
pub struct WallTime {
    pub secs: i64,
}

/// A stretch of wall-clock time from `start` up to, not including, `end`.
#[derive(Clone, Copy, Debug, PartialEq, Eq, Structural)]
pub struct LocalSpan {
    pub start: WallTime,
    pub end: WallTime,
}

/// What the local time zone makes of a wall-clock time: the UTC second it
/// stands for, as a count of seconds since the epoch.
#[derive(Clone, Copy, Debug, PartialEq, Eq, Structural)]
pub enum LocalMapping {
    /// The wall-clock time occurs once.
    Single(i64),
    /// Clocks were set back over it, so it occurs twice. The two readings
    /// come in the order in which the zone lookup gives them.
    Ambiguous(i64, i64),
    /// Clocks were set forward over it, or the zone lookup could not place it.
    Nonexistent,
}

/// Why a window could not be placed on the UTC timeline.
#[derive(Clone, Copy, Debug, PartialEq, Eq, Structural)]
pub enum WindowError {
    /// The boundary `local` occurs twice, at `first` and at `second`, and
    /// nothing says which was meant.
    AmbiguousLocalTime { local: WallTime, first: Instant, second: Instant },
    /// The boundary `local` never occurs in the local time zone.
    InvalidLocalTime { local: WallTime },
}

/// A zone's offset from UTC is less than a day either way, so a wall-clock
/// second and the UTC second it stands for are less than a day apart.
pub open spec fn within_a_day(local_secs: int, utc_secs: int) -> bool {
    local_secs - SECS_PER_DAY < utc_secs < local_secs + SECS_PER_DAY
}

impl LocalMapping {
    /// What holds of every answer that the zone lookup gives for `local_secs`.
    pub open spec fn is_for(self, local_secs: int) -> bool {
        match self {
            LocalMapping::Single(utc) => within_a_day(local_secs, utc as int),
            LocalMapping::Ambiguous(first, second) => within_a_day(local_secs, first as int)
                && within_a_day(local_secs, second as int),
            LocalMapping::Nonexistent => true,
        }
    }
}

/// The wall-clock second at which the given date begins.
pub open spec fn midnight_of(year: int, month: int, day: int) -> int {
    SECS_PER_DAY * day_number(year, month, day)
}

/// Whether a wall clock can show the given date at the given UTC second: the
/// second, moved by an offset of less than a day, falls on that date.
pub open spec fn shows_date(utc_secs: int, year: int, month: int, day: int) -> bool {
    midnight_of(year, month, day) - SECS_PER_DAY < utc_secs < midnight_of(year, month, day) + 2
        * SECS_PER_DAY
}

/// Today begins at the date's own midnight.
pub open spec fn today_start(date: CivilDate) -> int {
    midnight_of(date.year_of(), date.month_of(), date.day_of())
}

/// Today ends at the next midnight.
pub open spec fn today_end(date: CivilDate) -> int {
    today_start(date) + SECS_PER_DAY
}

/// The week begins at the midnight of the Monday on or before the date: as
/// many days back as the date's weekday counts from Monday.
pub open spec fn week_start(date: CivilDate) -> int {
    today_start(date) - SECS_PER_DAY * weekday_from_monday(date.number())
}

/// The week ends seven days after it began.
pub open spec fn week_end(date: CivilDate) -> int {
    week_start(date) + 7 * SECS_PER_DAY
}

/// The month begins at the midnight of its first day.
pub open spec fn month_start(date: CivilDate) -> int {
    midnight_of(date.year_of(), date.month_of(), 1)
}

/// The month ends at the midnight of the first day of the month after, which
/// for December is January of the next year.
pub open spec fn month_end(date: CivilDate) -> int {
    let next = month_after(date.year_of(), date.month_of());
    midnight_of(next.0, next.1, 1)
}

/// Where the window of the given kind begins for a date.
pub open spec fn span_start(kind: ReportingPeriod, date: CivilDate) -> int {
    match kind {
        ReportingPeriod::Today => today_start(date),
        ReportingPeriod::Week => week_start(date),
        ReportingPeriod::Month => month_start(date),
    }
}

/// Where the window of the given kind ends for a date.
pub open spec fn span_end(kind: ReportingPeriod, date: CivilDate) -> int {
    match kind {
        ReportingPeriod::Today => today_end(date),
        ReportingPeriod::Week => week_end(date),
        ReportingPeriod::Month => month_end(date),
    }
}

/// The wall-clock second at which `date` begins, and the date's weekday
/// counted from Monday.
fn day_of_calendar(date: &CivilDate) -> (found: (i64, u32))
    ensures
        found.0 == today_start(*date),
        found.1 == weekday_from_monday(date.number()),
        -96_500_000 * SECS_PER_DAY < found.0 < 96_500_000 * SECS_PER_DAY,
        found.1 <= 6,
{
    proof {
        use_type_invariant(date);
        lemma_day_number_bounds(date.year_of(), date.month_of(), date.day_of());
    }
    match clock::calendar_day(date.year(), date.month(), date.day()) {
        Some(found) => found,
        None => unreached(),
    }
}

/// The local day that `date` names.
pub fn today_span(date: CivilDate) -> (span: LocalSpan)
    ensures
        span.start.secs == today_start(date),
        span.end.secs == today_end(date),
        span.start.secs < span.end.secs,
{
    let (start, _): (i64, u32) = day_of_calendar(&date);
    LocalSpan { start: WallTime { secs: start }, end: WallTime { secs: start + SECS_PER_DAY } }
}

/// The local week, Monday to Monday, that holds `date`.
pub fn week_span(date: CivilDate) -> (span: LocalSpan)
    ensures
        span.start.secs == week_start(date),
        span.end.secs == week_end(date),
        span.start.secs < span.end.secs,
        span.start.secs <= today_start(date) && today_end(date) <= span.end.secs,
        span.start.secs % SECS_PER_DAY == 0 && weekday_from_monday(
            span.start.secs / SECS_PER_DAY,
        ) == 0,
{
    let (today, days_from_monday): (i64, u32) = day_of_calendar(&date);
    proof {
        use_type_invariant(&date);
        lemma_today_within_week(date);
    }
    let start: i64 = today - SECS_PER_DAY * (days_from_monday as i64);
    LocalSpan { start: WallTime { secs: start }, end: WallTime { secs: start + 7 * SECS_PER_DAY } }
}

/// The local month that holds `date`.
pub fn month_span(date: CivilDate) -> (span: LocalSpan)
    ensures
        span.start.secs == month_start(date),
        span.end.secs == month_end(date),
        span.start.secs < span.end.secs,
        span.start.secs <= today_start(date) && today_end(date) <= span.end.secs,
{
    let year: i32 = date.year();
    let month: u32 = date.month();
    proof {
        use_type_invariant(&date);
        lemma_today_within_month(date);
        lemma_day_number_bounds(year as int, month as int, 1);
        lemma_month_length(year as int, month as int);
    }
    let start: i64 = match clock::calendar_day(year, month, 1) {
        Some((midnight, _)) => midnight,
        None => unreached(),
    };
    let (next_year, next_month): (i32, u32) = if month == 12 {
        (year + 1, 1)
    } else {
        (year, month + 1)
    };
    let end: i64 = match clock::calendar_day(next_year, next_month, 1) {
        Some((midnight, _)) => midnight,
        // No date is known past the last supported year, but December has 31 days
        // there too.
        None => start + 31 * SECS_PER_DAY,
    };
    LocalSpan { start: WallTime { secs: start }, end: WallTime { secs: end } }
}

/// The local window of the given kind that holds `date`.
pub fn local_span(kind: ReportingPeriod, date: CivilDate) -> (span: LocalSpan)
    ensures
        span == local_span_of(kind, date),
        span.start.secs == span_start(kind, date),
        span.end.secs == span_end(kind, date),
        span.start.secs < span.end.secs,
{
    match kind {
        ReportingPeriod::Today => today_span(date),
        ReportingPeriod::Week => week_span(date),
        ReportingPeriod::Month => month_span(date),
    }
}

/// The window of the given kind for a date, as a span of wall-clock time.
pub open spec fn local_span_of(kind: ReportingPeriod, date: CivilDate) -> LocalSpan {
    LocalSpan {
        start: WallTime { secs: span_start(kind, date) as i64 },
        end: WallTime { secs: span_end(kind, date) as i64 },
    }
}

/// The instant at the start of the given UTC second.
pub open spec fn at_second(utc_secs: i64) -> Instant {
    Instant { secs: utc_secs, nanos: 0 }
}

/// What a zone lookup decides for one boundary: the instant where the wall
/// time occurs once, and otherwise the error that says why there is none.
pub open spec fn boundary_outcome(local: WallTime, mapping: LocalMapping) -> Result<
    Instant,
    WindowError,
> {
    match mapping {
        LocalMapping::Single(utc) => Ok(at_second(utc)),
        LocalMapping::Ambiguous(first, second) => Err(
            WindowError::AmbiguousLocalTime {
                local,
                first: at_second(first),
                second: at_second(second),
            },
        ),
        LocalMapping::Nonexistent => Err(WindowError::InvalidLocalTime { local }),
    }
}

/// What two zone lookups decide for a span: the UTC range between the two
/// instants, or the error of the first boundary that has none, the start's
/// before the end's.
pub open spec fn window_outcome(span: LocalSpan, start: LocalMapping, end: LocalMapping) -> Result<
    Period,
    WindowError,
> {
    match boundary_outcome(span.start, start) {
        Err(error) => Err(error),
        Ok(from) => match boundary_outcome(span.end, end) {
            Err(error) => Err(error),
            Ok(until) => Ok(Period { start: from, end: until }),
        },
    }
}

/// `outcome` is what some answer of the zone lookup decides for `local`.
pub open spec fn converts_to(local: WallTime, outcome: Result<Instant, WindowError>) -> bool {
    exists|mapping: LocalMapping|
        mapping.is_for(local.secs as int) && outcome == #[trigger] boundary_outcome(
            local,
            mapping,
        )
}

/// `outcome` is what some pair of answers of the zone lookup decides for
/// `span`.
pub open spec fn resolves_to(span: LocalSpan, outcome: Result<Period, WindowError>) -> bool {
    exists|start: LocalMapping, end: LocalMapping|
        start.is_for(span.start.secs as int) && end.is_for(span.end.secs as int) && outcome
            == #[trigger] window_outcome(span, start, end)
}

/// Turns the answer of a zone lookup for `local` into the instant it stands
/// for, or into the error that reports why it stands for none.
pub fn instant_from_mapping(local: WallTime, mapping: LocalMapping) -> (outcome: Result<
    Instant,
    WindowError,
>)
    ensures
        outcome == boundary_outcome(local, mapping),
{
    match mapping {
        LocalMapping::Single(utc) => Ok(Instant { secs: utc, nanos: 0 }),
        LocalMapping::Ambiguous(first, second) => Err(
            WindowError::AmbiguousLocalTime {
                local,
                first: Instant { secs: first, nanos: 0 },
                second: Instant { secs: second, nanos: 0 },
            },
        ),
        LocalMapping::Nonexistent => Err(WindowError::InvalidLocalTime { local }),
    }
}

/// Places a wall-clock time on the UTC timeline by the rules of the local time
/// zone. A time that the zone has twice, or not at all, is reported and never
/// guessed at.
pub fn naive_to_utc(local: WallTime) -> (outcome: Result<Instant, WindowError>)
    ensures
        converts_to(local, outcome),
{
    let mapping: LocalMapping = clock::map_local(local.secs);
    instant_from_mapping(local, mapping)
}

/// Places a span of wall-clock time on the UTC timeline, boundary by boundary,
/// the start first. The first boundary that the zone cannot place decides the
/// error, and the end is not looked up where the start has failed.
pub fn resolve_span(span: LocalSpan) -> (outcome: Result<Period, WindowError>)
    ensures
        resolves_to(span, outcome),
{
    let converted_start: Result<Instant, WindowError> = naive_to_utc(span.start);
    let ghost start_mapping: LocalMapping = choose|mapping: LocalMapping|
        mapping.is_for(span.start.secs as int) && converted_start == #[trigger] boundary_outcome(
            span.start,
            mapping,
        );
    let start: Instant = match converted_start {
        Ok(start) => start,
        Err(error) => {
            assert(window_outcome(span, start_mapping, LocalMapping::Nonexistent) == Err::<
                Period,
                WindowError,
            >(error));
            return Err(error);
        },
    };
    let converted_end: Result<Instant, WindowError> = naive_to_utc(span.end);
    let ghost end_mapping: LocalMapping = choose|mapping: LocalMapping|
        mapping.is_for(span.end.secs as int) && converted_end == #[trigger] boundary_outcome(
            span.end,
            mapping,
        );
    let outcome: Result<Period, WindowError> = match converted_end {
        Ok(end) => Ok(Period { start, end }),
        Err(error) => Err(error),
    };
    assert(outcome == window_outcome(span, start_mapping, end_mapping));
    outcome
}

/// One reading of the clock: the moment it was read, and the date that the
/// local wall clock showed at that moment.
#[derive(Clone, Copy, Debug, PartialEq, Eq, Structural)]
pub struct Snapshot {
    pub now: Instant,
    pub today: CivilDate,
}

/// Reads the clock once, for the present moment and the local date at it.
pub fn snapshot() -> (reading: Snapshot)
    ensures
        reading.now.nanos < 1_000_000_000,
        reading.today.is_valid(),
        shows_date(
            reading.now.secs as int,
            reading.today.year_of(),
            reading.today.month_of(),
            reading.today.day_of(),
        ),
{
    let (now, (year, month, day)): (Instant, (i32, u32, u32)) = clock::local_now();
    match CivilDate::new(year, month, day) {
        Some(today) => Snapshot { now, today },
        None => unreached(),
    }
}

/// The date that the local wall clock shows now.
pub fn today() -> (date: CivilDate)
    ensures
        date.is_valid(),
{
    snapshot().today
}

/// The UTC range of the window of the given kind that holds `date`, by the
/// rules of the local time zone.
pub fn window_for(kind: ReportingPeriod, date: CivilDate) -> (outcome: Result<Period, WindowError>)
    ensures
        resolves_to(local_span_of(kind, date), outcome),
        kind != ReportingPeriod::Today ==> (outcome matches Ok(window) ==> window.start@
            < window.end@),
{
    let outcome: Result<Period, WindowError> = resolve_span(local_span(kind, date));
    proof {
        use_type_invariant(&date);
        if kind != ReportingPeriod::Today {
            if let Ok(window) = outcome {
                lemma_week_and_month_run_forward_in_utc(kind, date, window);
            }
        }
    }
    outcome
}

/// The UTC range of the window of the given kind that holds the present
/// moment.
pub fn resolve_window(kind: ReportingPeriod) -> (outcome: Result<Period, WindowError>)
    ensures
        exists|date: CivilDate|
            date.is_valid() && #[trigger] resolves_to(local_span_of(kind, date), outcome),
        kind != ReportingPeriod::Today ==> (outcome matches Ok(window) ==> window.start@
            < window.end@),
{
    window_for(kind, today())
}

/// The UTC range of the current local day.
pub fn get_today_period() -> (outcome: Result<Period, WindowError>)
    ensures
        exists|date: CivilDate|
            date.is_valid() && #[trigger] resolves_to(
                local_span_of(ReportingPeriod::Today, date),
                outcome,
            ),
{
    resolve_window(ReportingPeriod::Today)
}

/// The UTC range of the current local week, Monday to Monday.
pub fn get_week_period() -> (outcome: Result<Period, WindowError>)
    ensures
        exists|date: CivilDate|
            date.is_valid() && #[trigger] resolves_to(
                local_span_of(ReportingPeriod::Week, date),
                outcome,
            ),
        outcome matches Ok(window) ==> window.start@ < window.end@,
{
    resolve_window(ReportingPeriod::Week)
}

/// The UTC range of the current local month.
pub fn get_month_period() -> (outcome: Result<Period, WindowError>)
    ensures
        exists|date: CivilDate|
            date.is_valid() && #[trigger] resolves_to(
                local_span_of(ReportingPeriod::Month, date),
                outcome,
            ),
        outcome matches Ok(window) ==> window.start@ < window.end@,
{
    resolve_window(ReportingPeriod::Month)
}

/// Every window runs forward on the wall clock: it ends after it begins.
pub proof fn lemma_windows_run_forward(date: CivilDate)
    requires
        date.is_valid(),
    ensures
        today_start(date) < today_end(date),
        week_start(date) < week_end(date),
        month_start(date) < month_end(date),
{
    lemma_month_length(date.year_of(), date.month_of());
}

/// The week begins on a Monday, at most six days before the date, and so
/// holds the whole of the date's day.
pub proof fn lemma_today_within_week(date: CivilDate)
    requires
        date.is_valid(),
    ensures
        week_start(date) == SECS_PER_DAY * (date.number() - weekday_from_monday(date.number())),
        weekday_from_monday(date.number() - weekday_from_monday(date.number())) == 0,
        0 <= weekday_from_monday(date.number()) <= 6,
        week_start(date) <= today_start(date),
        today_end(date) <= week_end(date),
{
}

/// December ends where January of the next year begins, 31 days after its
/// own first.
pub proof fn lemma_december_ends_with_the_year(date: CivilDate)
    requires
        date.is_valid(),
        date.month_of() == 12,
    ensures
        month_end(date) == midnight_of(date.year_of() + 1, 1, 1),
        month_end(date) == month_start(date) + 31 * SECS_PER_DAY,
{
    lemma_month_length(date.year_of(), 12);
}

/// The month holds the whole of the date's day.
pub proof fn lemma_today_within_month(date: CivilDate)
    requires
        date.is_valid(),
    ensures
        month_start(date) <= today_start(date),
        today_end(date) <= month_end(date),
{
    lemma_day_within_month(date.year_of(), date.month_of(), date.day_of());
}

/// The month holds the whole week exactly when the week's Monday and Sunday
/// both fall in the date's own month. A week that straddles the turn of a
/// month reaches out of it.
pub proof fn lemma_week_within_month(date: CivilDate)
    requires
        date.is_valid(),
    ensures
        (month_start(date) <= week_start(date) && week_end(date) <= month_end(date)) <==> (1
            <= date.day_of() - weekday_from_monday(date.number()) && date.day_of()
            - weekday_from_monday(date.number()) + 6 <= days_in_month(
            date.year_of(),
            date.month_of(),
        )),
{
    lemma_month_length(date.year_of(), date.month_of());
}

/// Whatever the time zone answers, both ends of the UTC range lie on whole
/// seconds less than a day from their wall-clock readings, so the range is
/// less than two days shorter or longer than the span. A span of two days or
/// more, as every week and every month is, therefore ends after it begins on
/// the UTC timeline too.
pub proof fn lemma_resolved_window_runs_forward(span: LocalSpan, window: Period)
    requires
        resolves_to(span, Ok(window)),
    ensures
        within_a_day(span.start.secs as int, window.start.secs as int),
        within_a_day(span.end.secs as int, window.end.secs as int),
        window.start.nanos == 0 && window.end.nanos == 0,
        (span.end.secs - span.start.secs) - 2 * SECS_PER_DAY < window.end.secs
            - window.start.secs < (span.end.secs - span.start.secs) + 2 * SECS_PER_DAY,
        span.end.secs - span.start.secs >= 2 * SECS_PER_DAY ==> window.start@ < window.end@,
{
    let (start, end) = choose|start: LocalMapping, end: LocalMapping|
        start.is_for(span.start.secs as int) && end.is_for(span.end.secs as int) && Ok::<
            Period,
            WindowError,
        >(window) == #[trigger] window_outcome(span, start, end);
    assert(boundary_outcome(span.start, start) == Ok::<Instant, WindowError>(window.start));
    assert(boundary_outcome(span.end, end) == Ok::<Instant, WindowError>(window.end));
}

/// The week and the month of any date, once the time zone has placed them,
/// end after they begin.
pub proof fn lemma_week_and_month_run_forward_in_utc(
    kind: ReportingPeriod,
    date: CivilDate,
    window: Period,
)
    requires
        date.is_valid(),
        kind != ReportingPeriod::Today,
        resolves_to(local_span_of(kind, date), Ok(window)),
    ensures
        window.start@ < window.end@,
{
    lemma_windows_run_forward(date);
    lemma_month_length(date.year_of(), date.month_of());
    lemma_spans_fit(kind, date);
    lemma_resolved_window_runs_forward(local_span_of(kind, date), window);
}

/// The boundaries of every window fit the wall clock's count of seconds.
pub proof fn lemma_spans_fit(kind: ReportingPeriod, date: CivilDate)
    requires
        date.is_valid(),
    ensures
        local_span_of(kind, date).start.secs == span_start(kind, date),
        local_span_of(kind, date).end.secs == span_end(kind, date),
{
    lemma_day_number_bounds(date.year_of(), date.month_of(), date.day_of());
    lemma_day_number_bounds(date.year_of(), date.month_of(), 1);
    lemma_month_length(date.year_of(), date.month_of());
}

/// The UTC range of a span in a zone that keeps one offset throughout.
pub open spec fn in_fixed_zone(span: LocalSpan, offset_secs: int) -> Result<Period, WindowError> {
    window_outcome(
        span,
        LocalMapping::Single((span.start.secs - offset_secs) as i64),
        LocalMapping::Single((span.end.secs - offset_secs) as i64),
    )
}

/// In a zone that keeps one offset, every window has a UTC range that ends
/// after it begins, and the ranges nest as the wall-clock spans do: the day
/// lies within the week and within the month.
pub proof fn lemma_windows_nest_in_fixed_zone(date: CivilDate, offset_secs: int)
    requires
        date.is_valid(),
        -SECS_PER_DAY < offset_secs < SECS_PER_DAY,
    ensures
        in_fixed_zone(local_span_of(ReportingPeriod::Today, date), offset_secs) matches Ok(day)
            && in_fixed_zone(local_span_of(ReportingPeriod::Week, date), offset_secs) matches Ok(
            week,
        ) && in_fixed_zone(local_span_of(ReportingPeriod::Month, date), offset_secs) matches Ok(
            month,
        ) && {
            &&& day.start@ < day.end@
            &&& week.start@ < week.end@
            &&& month.start@ < month.end@
            &&& week.start@ <= day.start@ && day.end@ <= week.end@
            &&& month.start@ <= day.start@ && day.end@ <= month.end@
            &&& (month.start@ <= week.start@ && week.end@ <= month.end@) <==> (month_start(date)
                <= week_start(date) && week_end(date) <= month_end(date))
        },
{
    lemma_spans_fit(ReportingPeriod::Today, date);
    lemma_spans_fit(ReportingPeriod::Week, date);
    lemma_spans_fit(ReportingPeriod::Month, date);
    lemma_day_number_bounds(date.year_of(), date.month_of(), date.day_of());
    lemma_day_number_bounds(date.year_of(), date.month_of(), 1);
    lemma_windows_run_forward(date);
    lemma_today_within_week(date);
    lemma_today_within_month(date);
}

} // verus!
