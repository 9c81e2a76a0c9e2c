//! How much tracked time falls within a window.

use vstd::prelude::*;
use crate::calendar::{lemma_month_length, CivilDate, SECS_PER_DAY};
use crate::clock;
use crate::instant::{Duration, Instant};
use crate::period::{earlier, later, Period};
use crate::timesheet::{TimeSheet, TimeSheetView};
use crate::window::{
    lemma_resolved_window_runs_forward, lemma_spans_fit, local_span_of, resolves_to, shows_date,
    snapshot, window_for, ReportingPeriod, Snapshot, WindowError,
};

verus! {

/// Nanoseconds that the given completed sessions share with `window`, each
/// session counted for itself.
pub open spec fn completed_total(periods: Seq<Period>, window: Period) -> int
    decreases periods.len(),
{
    if periods.len() == 0 {
        0
    } else {
        completed_total(periods.drop_last(), window) + periods.last().shared_nanos(window)
    }
}

/// Nanoseconds that the running session, taken to end at `now`, shares with
/// `window`; none where no session is running.
pub open spec fn active_share(active: Option<Instant>, window: Period, now: Instant) -> int {
    match active {
        Some(since) => (Period { start: since, end: now }).shared_nanos(window),
        None => 0,
    }
}

/// Nanoseconds of `window` that the sheet has tracked by `now`.
pub open spec fn tracked_total(sheet: TimeSheetView, window: Period, now: Instant) -> int {
    completed_total(sheet.periods, window) + active_share(sheet.active, window, now)
}

/// Sessions recorded one after another are counted one after another: the
/// total over two lists joined is the sum of the totals over each.
pub proof fn lemma_completed_total_is_additive(
    first: Seq<Period>,
    second: Seq<Period>,
    window: Period,
)
    ensures
        completed_total(first + second, window) == completed_total(first, window)
            + completed_total(second, window),
    decreases second.len(),
{
    if second.len() == 0 {
        assert(first + second =~= first);
    } else {
        assert((first + second).drop_last() =~= first + second.drop_last());
        lemma_completed_total_is_additive(first, second.drop_last(), window);
    }
}

/// Joining the sessions of two sheets, the first of them idle, gives a sheet
/// that has tracked as much of any window as the two together.
pub proof fn lemma_tracked_total_is_additive(
    first: TimeSheetView,
    second: TimeSheetView,
    window: Period,
    now: Instant,
)
    requires
        first.active is None,
    ensures
        tracked_total(
            TimeSheetView { periods: first.periods + second.periods, active: second.active },
            window,
            now,
        ) == tracked_total(first, window, now) + tracked_total(second, window, now),
{
    lemma_completed_total_is_additive(first.periods, second.periods, window);
}

/// A session that was started and stopped within a window adds its whole
/// length to what the sheet has tracked of that window.
pub proof fn lemma_stopped_session_is_counted(
    idle: TimeSheetView,
    started_at: Instant,
    stopped_at: Instant,
    window: Period,
    now: Instant,
)
    requires
        idle.active is None,
        window.start@ <= started_at@ <= stopped_at@ <= window.end@,
    ensures
        idle.start(started_at) matches Ok(tracking) && tracking.stop(stopped_at) matches Ok(
            (stopped, lasted),
        ) && tracked_total(stopped, window, now) == tracked_total(idle, window, now) + lasted
            && tracked_total(stopped, window, now) >= stopped_at@ - started_at@,
{
    let recorded = Period { start: started_at, end: stopped_at };
    assert(idle.periods.push(recorded).drop_last() =~= idle.periods);
    lemma_completed_total_bounds(idle.periods, window);
}

/// A session that is still running counts from its start, or from the start
/// of the window if that is later, up to now, or to the end of the window if
/// that is earlier.
pub proof fn lemma_running_session_is_clipped(since: Instant, window: Period, now: Instant)
    ensures
        active_share(Some(since), window, now) == later(
            0,
            earlier(now@, window.end@) - later(since@, window.start@),
        ),
        window.start@ <= since@ <= now@ <= window.end@ ==> active_share(Some(since), window, now)
            == now@ - since@,
        window.start@ <= since@ <= window.end@ <= now@ ==> active_share(Some(since), window, now)
            == window.end@ - since@,
{
}

/// No session counts for less than nothing or for more than the window
/// holds, so the total lies between zero and the window's length taken once
/// for each session.
pub proof fn lemma_completed_total_bounds(periods: Seq<Period>, window: Period)
    ensures
        0 <= completed_total(periods, window) <= periods.len() * later(0, window.length()),
    decreases periods.len(),
{
    if periods.len() > 0 {
        lemma_completed_total_bounds(periods.drop_last(), window);
        Period::lemma_overlap_bounds(periods.last(), window);
        assert(periods.len() * later(0, window.length()) == (periods.len() - 1) * later(
            0,
            window.length(),
        ) + later(0, window.length())) by (nonlinear_arith);
    }
}

/// What a sheet has tracked of a window is never negative, whatever the
/// clock says, and never more than the window's length taken once for each
/// session, the running one included.
pub proof fn lemma_tracked_total_bounds(sheet: TimeSheetView, window: Period, now: Instant)
    ensures
        0 <= tracked_total(sheet, window, now) <= (sheet.periods.len() + 1) * later(
            0,
            window.length(),
        ),
{
    lemma_completed_total_bounds(sheet.periods, window);
    if let Some(since) = sheet.active {
        Period::lemma_overlap_bounds(Period { start: since, end: now }, window);
    }
    assert((sheet.periods.len() + 1) * later(0, window.length()) == sheet.periods.len() * later(
        0,
        window.length(),
    ) + later(0, window.length())) by (nonlinear_arith);
}

/// Whether the window's length, taken once for each session of the sheet and
/// once more for a running one, fits a `Duration`. Where it does, so does
/// whatever the sheet has tracked of the window.
pub open spec fn window_fits(sheet: TimeSheetView, window: Period) -> bool {
    (sheet.periods.len() + 1) * later(0, window.length()) <= i128::MAX
}

/// The time that the completed sessions of the sheet share with
/// `reporting_period`.
pub fn completed_time_in(time_sheet: &TimeSheet, reporting_period: &Period) -> (total: Duration)
    requires
        completed_total(time_sheet@.periods, *reporting_period) <= i128::MAX,
    ensures
        total@ == completed_total(time_sheet@.periods, *reporting_period),
        total@ >= 0,
{
    let ghost all: Seq<Period> = time_sheet.periods@;
    let ghost window: Period = *reporting_period;
    proof {
        lemma_completed_total_bounds(all, window);
    }
    let mut completed: i128 = 0;
    let mut i: usize = 0;
    while i < time_sheet.periods.len()
        invariant
            i <= time_sheet.periods.len(),
            all == time_sheet.periods@,
            window == *reporting_period,
            completed == completed_total(all.take(i as int), window),
            completed_total(all, window) <= i128::MAX,
        decreases time_sheet.periods.len() - i,
    {
        let shared: Duration = time_sheet.periods[i].overlap(reporting_period);
        proof {
            let counted: Seq<Period> = all.take(i as int + 1);
            assert(counted.drop_last() =~= all.take(i as int));
            assert(counted.last() == all[i as int]);
            assert(all =~= counted + all.skip(i as int + 1));
            lemma_completed_total_is_additive(counted, all.skip(i as int + 1), window);
            lemma_completed_total_bounds(all.skip(i as int + 1), window);
        }
        completed = completed + shared.nanos;
        i = i + 1;
    }
    assert(all.take(i as int) =~= all);
    Duration { nanos: completed }
}

/// The time that the sheet has tracked within `reporting_period` by `now`:
/// what each completed session shares with the window, and what the running
/// session would share if it ended at `now`.
pub fn tracked_time_at(time_sheet: &TimeSheet, reporting_period: &Period, now: Instant) -> (total:
    Duration)
    requires
        tracked_total(time_sheet@, *reporting_period, now) <= i128::MAX,
    ensures
        total@ == tracked_total(time_sheet@, *reporting_period, now),
        total@ >= 0,
{
    proof {
        lemma_completed_total_bounds(time_sheet@.periods, *reporting_period);
    }
    match time_sheet.active_period_start {
        Some(since) => {
            let running: Duration = (Period { start: since, end: now }).overlap(reporting_period);
            let completed: Duration = completed_time_in(time_sheet, reporting_period);
            Duration { nanos: completed.nanos + running.nanos }
        },
        None => completed_time_in(time_sheet, reporting_period),
    }
}

/// The time that the sheet has tracked within `reporting_period` by the
/// present moment. The clock is read once, and only where a session is
/// running.
///
/// The total has to fit a `Duration` whatever the clock says. It does where
/// `window_fits` holds: see `lemma_tracked_total_bounds`.
pub fn calculate_tracked_time_in_period(time_sheet: &TimeSheet, reporting_period: &Period) -> (total:
    Duration)
    requires
        forall|now: Instant| #[trigger]
            tracked_total(time_sheet@, *reporting_period, now) <= i128::MAX,
    ensures
        total@ >= 0,
        exists|now: Instant|
            now.nanos < 1_000_000_000 && total@ == #[trigger] tracked_total(
                time_sheet@,
                *reporting_period,
                now,
            ),
        time_sheet@.active is None ==> total@ == completed_total(
            time_sheet@.periods,
            *reporting_period,
        ),
{
    if time_sheet.is_tracking() {
        let now: Instant = clock::utc_now();
        tracked_time_at(time_sheet, reporting_period, now)
    } else {
        let ghost any_time: Instant = Instant { secs: 0, nanos: 0 };
        assert(tracked_total(time_sheet@, *reporting_period, any_time) == completed_total(
            time_sheet@.periods,
            *reporting_period,
        ));
        completed_time_in(time_sheet, reporting_period)
    }
}

/// The time that the sheet has tracked within `reporting_period` by the
/// present moment, or `None` where the window is so long, and the sessions so
/// many, that `window_fits` fails.
pub fn try_tracked_time_in_period(time_sheet: &TimeSheet, reporting_period: &Period) -> (total:
    Option<Duration>)
    ensures
        total is Some <==> window_fits(time_sheet@, *reporting_period),
        total matches Some(sum) ==> sum@ >= 0,
        total matches Some(sum) ==> exists|now: Instant|
            now.nanos < 1_000_000_000 && sum@ == #[trigger] tracked_total(
                time_sheet@,
                *reporting_period,
                now,
            ),
        total matches Some(sum) ==> (time_sheet@.active is None ==> sum@ == completed_total(
            time_sheet@.periods,
            *reporting_period,
        )),
{
    let sessions: i128 = time_sheet.periods.len() as i128 + 1;
    let length: i128 = reporting_period.end.as_nanos() - reporting_period.start.as_nanos();
    let fits: bool = if length <= 0 {
        true
    } else {
        match sessions.checked_mul(length) {
            Some(_) => true,
            None => false,
        }
    };
    proof {
        if length <= 0 {
            assert((time_sheet@.periods.len() + 1) * 0 == 0);
        }
    }
    assert(fits == window_fits(time_sheet@, *reporting_period));
    if fits {
        assert forall|now: Instant| #[trigger]
            tracked_total(time_sheet@, *reporting_period, now) <= i128::MAX by {
            lemma_tracked_total_bounds(time_sheet@, *reporting_period, now);
        }
        Some(calculate_tracked_time_in_period(time_sheet, reporting_period))
    } else {
        None
    }
}

/// What a report says once the window is known: the nanoseconds tracked
/// within it by `now`, or the error that left the report without a window.
pub open spec fn report_outcome(
    sheet: TimeSheetView,
    window: Result<Period, WindowError>,
    now: Instant,
) -> Result<int, WindowError> {
    match window {
        Ok(window) => Ok(tracked_total(sheet, window, now)),
        Err(error) => Err(error),
    }
}

/// The outcome of a report with its total in nanoseconds.
pub open spec fn in_nanos(outcome: Result<Duration, WindowError>) -> Result<int, WindowError> {
    match outcome {
        Ok(total) => Ok(total@),
        Err(error) => Err(error),
    }
}

/// `outcome` is what a report of the given kind can say for a clock reading
/// of `now` on the local date `date`: what it says once the time zone has
/// placed the window, for some answer that the zone may give.
pub open spec fn reports(
    sheet: TimeSheetView,
    kind: ReportingPeriod,
    date: CivilDate,
    now: Instant,
    outcome: Result<Duration, WindowError>,
) -> bool {
    exists|window: Result<Period, WindowError>|
        resolves_to(local_span_of(kind, date), window) && in_nanos(outcome)
            == #[trigger] report_outcome(sheet, window, now)
}

/// The window of a day, a week or a month, wherever the time zone places it,
/// is shorter than 33 days: a month has 31 at most, and a zone's offset moves
/// each end by less than one.
pub proof fn lemma_resolved_window_is_short(kind: ReportingPeriod, date: CivilDate, window: Period)
    requires
        date.is_valid(),
        resolves_to(local_span_of(kind, date), Ok(window)),
    ensures
        window.length() < 33 * SECS_PER_DAY * 1_000_000_000,
{
    lemma_spans_fit(kind, date);
    lemma_month_length(date.year_of(), date.month_of());
    lemma_resolved_window_runs_forward(local_span_of(kind, date), window);
}

/// However many sessions a sheet in memory holds, what it has tracked of a
/// day, a week or a month fits a `Duration`.
pub proof fn lemma_resolved_window_fits(
    sheet: TimeSheetView,
    kind: ReportingPeriod,
    date: CivilDate,
    window: Period,
)
    requires
        date.is_valid(),
        resolves_to(local_span_of(kind, date), Ok(window)),
        sheet.periods.len() <= usize::MAX,
    ensures
        window_fits(sheet, window),
{
    lemma_resolved_window_is_short(kind, date, window);
    let sessions: int = sheet.periods.len() as int + 1;
    let length: int = later(0, window.length());
    assert(sessions * length <= 0x1_0000_0000_0000_0000 * (33 * 86_400 * 1_000_000_000))
        by (nonlinear_arith)
        requires
            0 <= sessions <= 0x1_0000_0000_0000_0000,
            0 <= length <= 33 * 86_400 * 1_000_000_000,
    ;
}

/// The time that the sheet has tracked, by the moment of the clock reading,
/// within the window of the given kind around the date of the same reading.
/// The time zone is asked where the window lies; a window that it cannot
/// place ends the report with the error, and no total is made up.
pub fn report_at(time_sheet: &TimeSheet, kind: ReportingPeriod, reading: &Snapshot) -> (outcome:
    Result<Duration, WindowError>)
    ensures
        reports(time_sheet@, kind, reading.today, reading.now, outcome),
        outcome matches Ok(total) ==> total@ >= 0,
{
    let window: Result<Period, WindowError> = window_for(kind, reading.today);
    match window {
        Ok(reporting_period) => {
            proof {
                use_type_invariant(&reading.today);
                assert(time_sheet@.periods.len() == time_sheet.periods.len());
                lemma_resolved_window_fits(time_sheet@, kind, reading.today, reporting_period);
                lemma_tracked_total_bounds(time_sheet@, reporting_period, reading.now);
            }
            let total: Duration = tracked_time_at(time_sheet, &reporting_period, reading.now);
            assert(in_nanos(Ok(total)) == report_outcome(time_sheet@, window, reading.now));
            Ok(total)
        },
        Err(error) => {
            assert(in_nanos(Err(error)) == report_outcome(time_sheet@, window, reading.now));
            Err(error)
        },
    }
}

/// The time that the sheet has tracked by now within the current window of
/// the given kind. The clock is read once: the same reading says which date
/// it is and where a running session is cut off.
pub fn report(time_sheet: &TimeSheet, kind: ReportingPeriod) -> (outcome: Result<
    Duration,
    WindowError,
>)
    ensures
        exists|date: CivilDate, now: Instant|
            now.nanos < 1_000_000_000 && date.is_valid() && shows_date(
                now.secs as int,
                date.year_of(),
                date.month_of(),
                date.day_of(),
            ) && #[trigger] reports(time_sheet@, kind, date, now, outcome),
        outcome matches Ok(total) ==> total@ >= 0,
{
    let reading: Snapshot = snapshot();
    report_at(time_sheet, kind, &reading)
}

} // verus!
