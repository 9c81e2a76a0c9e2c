use work_time_tracker::calendar::CivilDate;
use work_time_tracker::instant::{ClockReading, Duration, Instant};
use work_time_tracker::period::Period;
use work_time_tracker::report::{
    calculate_tracked_time_in_period, completed_time_in, report, report_at, tracked_time_at,
    try_tracked_time_in_period,
};
use work_time_tracker::window::{
    snapshot, today_span, window_for, ReportingPeriod, Snapshot, WindowError,
};
use work_time_tracker::timesheet::{
    start_tracking, start_tracking_at, stop_tracking, stop_tracking_at, TimeSheet, TrackingError,
};

const SECOND: i128 = 1_000_000_000;
const T0: i64 = 1_710_064_800;

fn at(secs: i64) -> Instant {
    Instant::new(secs, 0)
}

fn span(start: i64, end: i64) -> Period {
    Period { start: at(start), end: at(end) }
}

fn seconds(n: i128) -> Duration {
    Duration { nanos: n * SECOND }
}

#[test]
fn a_new_sheet_is_empty_and_idle() {
    let sheet = TimeSheet::new();
    assert!(sheet.periods.is_empty());
    assert_eq!(sheet.active_period_start, None);
    assert!(!sheet.is_tracking());
    assert_eq!(sheet, TimeSheet::default());
}

#[test]
fn start_then_stop_after_ninety_seconds_records_the_session() {
    let mut sheet = TimeSheet::new();
    assert_eq!(start_tracking_at(&mut sheet, at(T0)), Ok(()));
    assert_eq!(sheet.active_period_start, Some(at(T0)));
    assert!(sheet.is_tracking());

    assert_eq!(stop_tracking_at(&mut sheet, at(T0 + 90)), Ok(seconds(90)));
    assert_eq!(sheet.periods, vec![span(T0, T0 + 90)]);
    assert_eq!(sheet.active_period_start, None);

    let window = span(T0 - 3_600, T0 + 3_600);
    let total = tracked_time_at(&sheet, &window, at(T0 + 1_000));
    assert!(total.nanos >= 90 * SECOND);
    assert_eq!(total, seconds(90));
}

#[test]
fn a_running_session_counts_up_to_now() {
    let mut sheet = TimeSheet::new();
    assert_eq!(start_tracking_at(&mut sheet, at(T0)), Ok(()));
    let today = span(T0 - 36_000, T0 + 50_400);
    assert_eq!(tracked_time_at(&sheet, &today, at(T0 + 1_234)), seconds(1_234));
}

#[test]
fn a_running_session_is_clipped_at_the_end_of_the_window() {
    let mut sheet = TimeSheet::new();
    assert_eq!(start_tracking_at(&mut sheet, at(T0)), Ok(()));
    let today = span(T0 - 36_000, T0 + 50_400);
    assert_eq!(tracked_time_at(&sheet, &today, at(T0 + 90_000)), seconds(50_400));
}

#[test]
fn a_running_session_that_began_before_the_window_is_clipped_at_its_start() {
    let mut sheet = TimeSheet::new();
    assert_eq!(start_tracking_at(&mut sheet, at(T0 - 40_000)), Ok(()));
    let today = span(T0 - 36_000, T0 + 50_400);
    assert_eq!(tracked_time_at(&sheet, &today, at(T0)), seconds(36_000));
}

#[test]
fn starting_twice_reports_already_tracking_and_changes_nothing() {
    let mut sheet = TimeSheet::new();
    assert_eq!(start_tracking_at(&mut sheet, at(T0)), Ok(()));
    let before = sheet.clone();
    assert_eq!(start_tracking_at(&mut sheet, at(T0 + 5)), Err(TrackingError::AlreadyTracking));
    assert_eq!(sheet, before);
    assert_eq!(sheet.active_period_start, Some(at(T0)));
    assert!(sheet.periods.is_empty());
}

#[test]
fn starting_twice_on_the_real_clock_reports_already_tracking() {
    let mut sheet = TimeSheet::new();
    assert_eq!(start_tracking(&mut sheet), Ok(()));
    let before = sheet.clone();
    assert_eq!(start_tracking(&mut sheet), Err(TrackingError::AlreadyTracking));
    assert_eq!(sheet, before);
}

#[test]
fn stopping_an_idle_sheet_reports_no_active_session_and_changes_nothing() {
    let mut sheet = TimeSheet::new();
    sheet.periods.push(span(T0, T0 + 10));
    let before = sheet.clone();
    assert_eq!(stop_tracking_at(&mut sheet, at(T0 + 100)), Err(TrackingError::NoActiveSession));
    assert_eq!(sheet, before);
    assert_eq!(stop_tracking(&mut sheet), Err(TrackingError::NoActiveSession));
    assert_eq!(sheet, before);
}

#[test]
fn stopping_appends_after_the_sessions_already_recorded() {
    let mut sheet = TimeSheet::new();
    sheet.periods.push(span(T0 + 500, T0 + 600));
    sheet.periods.push(span(T0 - 900, T0 - 800));
    assert_eq!(start_tracking_at(&mut sheet, at(T0)), Ok(()));
    assert_eq!(stop_tracking_at(&mut sheet, at(T0 + 7)), Ok(seconds(7)));
    assert_eq!(
        sheet.periods,
        vec![span(T0 + 500, T0 + 600), span(T0 - 900, T0 - 800), span(T0, T0 + 7)]
    );
}

#[test]
fn stopping_before_the_start_records_what_was_measured() {
    let mut sheet = TimeSheet::new();
    assert_eq!(start_tracking_at(&mut sheet, at(T0)), Ok(()));
    let length = stop_tracking_at(&mut sheet, at(T0 - 30));
    assert_eq!(length, Ok(seconds(-30)));
    assert_eq!(sheet.periods, vec![span(T0, T0 - 30)]);
    let window = span(T0 - 3_600, T0 + 3_600);
    assert_eq!(tracked_time_at(&sheet, &window, at(T0)), Duration::zero());
}

#[test]
fn the_sheet_cycles_between_idle_and_tracking() {
    let mut sheet = TimeSheet::new();
    for round in 0..3 {
        let begin = T0 + round * 1_000;
        assert_eq!(start_tracking_at(&mut sheet, at(begin)), Ok(()));
        assert!(sheet.is_tracking());
        assert_eq!(stop_tracking_at(&mut sheet, at(begin + 60)), Ok(seconds(60)));
        assert!(!sheet.is_tracking());
    }
    assert_eq!(sheet.periods.len(), 3);
    let window = span(T0, T0 + 10_000);
    assert_eq!(completed_time_in(&sheet, &window), seconds(180));
}

#[test]
fn start_on_the_real_clock_records_the_present() {
    let mut sheet = TimeSheet::new();
    assert_eq!(start_tracking(&mut sheet), Ok(()));
    let since = sheet.active_period_start.expect("a session is running");
    assert!(since.secs > 1_700_000_000);
    assert!(since.nanos < 1_000_000_000);
}

#[test]
fn stop_on_the_real_clock_records_a_session_that_ends_now() {
    let mut sheet = TimeSheet::new();
    assert_eq!(start_tracking_at(&mut sheet, at(T0)), Ok(()));
    let length = stop_tracking(&mut sheet).expect("a session was running");
    assert_eq!(sheet.active_period_start, None);
    assert_eq!(sheet.periods.len(), 1);
    let recorded = sheet.periods[0];
    assert_eq!(recorded.start, at(T0));
    assert!(recorded.end.secs > 1_700_000_000);
    assert_eq!(length, recorded.end.since(&recorded.start));
    assert!(!length.is_negative());
}

#[test]
fn tracked_time_sums_every_session_against_the_window() {
    let mut sheet = TimeSheet::new();
    sheet.periods.push(span(0, 100));
    sheet.periods.push(span(150, 250));
    sheet.periods.push(span(900, 1_000));
    sheet.periods.push(span(180, 220));
    let window = span(50, 200);
    assert_eq!(completed_time_in(&sheet, &window), seconds(50 + 50 + 0 + 20));
    assert_eq!(tracked_time_at(&sheet, &window, at(5_000)), seconds(120));
    assert_eq!(calculate_tracked_time_in_period(&sheet, &window), seconds(120));
    assert_eq!(try_tracked_time_in_period(&sheet, &window), Some(seconds(120)));
}

#[test]
fn tracked_time_of_an_empty_sheet_is_zero() {
    let sheet = TimeSheet::new();
    let window = span(0, 86_400);
    assert_eq!(completed_time_in(&sheet, &window), Duration::zero());
    assert_eq!(tracked_time_at(&sheet, &window, at(10)), Duration::zero());
    assert_eq!(calculate_tracked_time_in_period(&sheet, &window), Duration::zero());
}

#[test]
fn tracked_time_adds_up_over_joined_sheets() {
    let window = span(1_000, 2_000);
    let mut first = TimeSheet::new();
    first.periods.push(span(900, 1_100));
    first.periods.push(span(1_200, 1_300));
    let mut second = TimeSheet::new();
    second.periods.push(span(1_900, 2_500));
    second.periods.push(span(3_000, 4_000));
    second.periods.push(span(1_250, 1_260));
    let mut joined = TimeSheet::new();
    joined.periods.extend(first.periods.iter().copied());
    joined.periods.extend(second.periods.iter().copied());

    let now = at(9_999);
    let one = tracked_time_at(&first, &window, now);
    let two = tracked_time_at(&second, &window, now);
    let both = tracked_time_at(&joined, &window, now);
    assert_eq!(one, seconds(200));
    assert_eq!(two, seconds(110));
    assert_eq!(both, seconds(310));
    assert_eq!(both.nanos, one.nanos + two.nanos);
}

#[test]
fn tracked_time_on_the_real_clock_counts_the_running_session() {
    let mut sheet = TimeSheet::new();
    sheet.periods.push(span(T0, T0 + 90));
    assert_eq!(start_tracking_at(&mut sheet, at(T0 + 100)), Ok(()));
    let window = span(T0 - 10, T0 + 160);
    assert_eq!(calculate_tracked_time_in_period(&sheet, &window), seconds(90 + 60));
    assert_eq!(try_tracked_time_in_period(&sheet, &window), Some(seconds(150)));
}

#[test]
fn tracked_time_in_a_reversed_window_is_zero() {
    let mut sheet = TimeSheet::new();
    sheet.periods.push(span(T0, T0 + 90));
    let reversed = span(T0 + 1_000, T0 - 1_000);
    assert_eq!(tracked_time_at(&sheet, &reversed, at(T0 + 500)), Duration::zero());
    assert_eq!(try_tracked_time_in_period(&sheet, &reversed), Some(Duration::zero()));
}

#[test]
fn the_longest_window_fits_a_sheet_of_many_sessions() {
    let whole = Period { start: Instant::new(i64::MIN, 0), end: Instant::new(i64::MAX, 0) };
    let mut sheet = TimeSheet::new();
    sheet.periods = vec![whole; 1_000];
    let length = (i64::MAX as i128 - i64::MIN as i128) * SECOND;
    assert_eq!(
        try_tracked_time_in_period(&sheet, &whole),
        Some(Duration { nanos: 1_000 * length })
    );
}

#[test]
fn clock_reading_splits_whole_seconds() {
    let reading = Duration { nanos: 3_661 * SECOND + 999_999_999 }.clock_reading();
    assert_eq!(reading, ClockReading { hours: 1, minutes: 1, seconds: 1 });
}

#[test]
fn clock_reading_of_ninety_seconds() {
    let reading = seconds(90).clock_reading();
    assert_eq!(reading, ClockReading { hours: 0, minutes: 1, seconds: 30 });
}

#[test]
fn clock_reading_counts_hours_past_a_day() {
    let reading = seconds(100 * 3_600 + 59 * 60 + 59).clock_reading();
    assert_eq!(reading, ClockReading { hours: 100, minutes: 59, seconds: 59 });
}

#[test]
fn clock_reading_of_a_negative_span_is_zero() {
    let reading = seconds(-5).clock_reading();
    assert_eq!(reading, ClockReading { hours: 0, minutes: 0, seconds: 0 });
    assert!(seconds(-5).is_negative());
    assert!(!Duration::zero().is_negative());
}

/// 2024-01-17T12:00:00Z, a Wednesday in the middle of its week and month.
const MIDWEEK_NOON: i64 = 1_705_492_800;

fn midweek_reading() -> Snapshot {
    let today = CivilDate::new(2024, 1, 17).expect("the calendar has this date");
    Snapshot { now: at(MIDWEEK_NOON), today }
}

#[test]
fn a_report_counts_what_falls_within_the_window_of_the_reading() {
    let mut sheet = TimeSheet::new();
    sheet.periods.push(span(MIDWEEK_NOON - 7_200, MIDWEEK_NOON - 3_600));
    sheet.periods.push(span(MIDWEEK_NOON - 40 * 86_400, MIDWEEK_NOON - 40 * 86_400 + 500));
    let reading = midweek_reading();
    assert_eq!(report_at(&sheet, ReportingPeriod::Week, &reading), Ok(seconds(3_600)));
    assert_eq!(report_at(&sheet, ReportingPeriod::Month, &reading), Ok(seconds(3_600)));
}

#[test]
fn a_report_cuts_the_running_session_off_at_the_reading() {
    let mut sheet = TimeSheet::new();
    sheet.periods.push(span(MIDWEEK_NOON - 7_200, MIDWEEK_NOON - 3_600));
    assert_eq!(start_tracking_at(&mut sheet, at(MIDWEEK_NOON - 90)), Ok(()));
    let reading = midweek_reading();
    assert_eq!(report_at(&sheet, ReportingPeriod::Week, &reading), Ok(seconds(3_690)));
    assert_eq!(report_at(&sheet, ReportingPeriod::Month, &reading), Ok(seconds(3_690)));
}

#[test]
fn a_report_is_the_tracked_time_in_the_window_of_its_kind() {
    let mut sheet = TimeSheet::new();
    sheet.periods.push(span(MIDWEEK_NOON - 100_000, MIDWEEK_NOON - 50_000));
    sheet.periods.push(span(MIDWEEK_NOON - 20_000, MIDWEEK_NOON + 60_000));
    assert_eq!(start_tracking_at(&mut sheet, at(MIDWEEK_NOON - 10)), Ok(()));
    let reading = midweek_reading();
    for kind in [ReportingPeriod::Today, ReportingPeriod::Week, ReportingPeriod::Month] {
        let expected = window_for(kind, reading.today)
            .map(|window| tracked_time_at(&sheet, &window, reading.now));
        assert_eq!(report_at(&sheet, kind, &reading), expected);
    }
}

#[test]
fn a_report_of_an_empty_sheet_is_zero() {
    let sheet = TimeSheet::new();
    let reading = midweek_reading();
    for kind in [ReportingPeriod::Today, ReportingPeriod::Week, ReportingPeriod::Month] {
        assert_eq!(report_at(&sheet, kind, &reading), Ok(Duration::zero()));
    }
}

#[test]
fn a_report_on_the_real_clock_counts_a_session_that_just_began() {
    let reading = snapshot();
    let mut sheet = TimeSheet::new();
    assert_eq!(start_tracking_at(&mut sheet, reading.now), Ok(()));
    for kind in [ReportingPeriod::Today, ReportingPeriod::Week, ReportingPeriod::Month] {
        match report(&sheet, kind) {
            Ok(total) => {
                assert!(!total.is_negative());
                assert!(total.nanos < 60 * SECOND);
            }
            Err(WindowError::AmbiguousLocalTime { .. }) => {}
            Err(WindowError::InvalidLocalTime { .. }) => {}
        }
    }
}

#[test]
fn a_snapshot_is_one_reading_of_clock_and_calendar() {
    let reading = snapshot();
    assert!(reading.now.secs > 1_700_000_000);
    assert!(reading.now.nanos < 1_000_000_000);
    assert!(reading.today.year() >= 2024);
    let midnight = today_span(reading.today).start.secs;
    assert!(midnight - 86_400 < reading.now.secs);
    assert!(reading.now.secs < midnight + 2 * 86_400);
}
