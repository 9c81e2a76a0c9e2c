//! The timesheet: the sessions recorded so far, the one that may be running,
//! and the two moves that start and stop it.

use vstd::prelude::*;
use crate::clock;
use crate::instant::{Duration, Instant};
use crate::period::Period;

verus! {

/// All that is recorded: the completed sessions in the order in which they
/// were stopped, and the start of the session that is running, if one is.
///
/// The sheet is idle while `active_period_start` is `None` and tracking while
/// it is `Some`. There is never more than one running session.
#[derive(Clone, Debug, PartialEq, Eq)]
pub struct TimeSheet {
    pub periods: Vec<Period>,
    pub active_period_start: Option<Instant>,
}

/// A timesheet as a mathematical value.
pub struct TimeSheetView {
    pub periods: Seq<Period>,
    pub active: Option<Instant>,
}

impl View for TimeSheet {
    type V = TimeSheetView;

    open spec fn view(&self) -> TimeSheetView {
        TimeSheetView { periods: self.periods@, active: self.active_period_start }
    }
}

/// A move that the state of the sheet does not allow. Neither is fatal, and
/// neither changes the sheet.
#[derive(Clone, Copy, Debug, PartialEq, Eq, Structural)]
pub enum TrackingError {
    /// A session is already running, so none can be started.
    AlreadyTracking,
    /// No session is running, so none can be stopped.
    NoActiveSession,
}

impl TimeSheetView {
    /// The sheet with nothing recorded and nothing running.
    pub open spec fn empty() -> TimeSheetView {
        TimeSheetView { periods: Seq::empty(), active: None }
    }

    /// Starting at `now`: an idle sheet begins to track from `now`, and a
    /// tracking sheet refuses.
    pub open spec fn start(self, now: Instant) -> Result<TimeSheetView, TrackingError> {
        match self.active {
            Some(_) => Err(TrackingError::AlreadyTracking),
            None => Ok(TimeSheetView { periods: self.periods, active: Some(now) }),
        }
    }

    /// Stopping at `now`: a tracking sheet records the session from its start
    /// to `now` after all the others and falls idle, and yields the nanoseconds
    /// that the session lasted. An idle sheet refuses.
    pub open spec fn stop(self, now: Instant) -> Result<(TimeSheetView, int), TrackingError> {
        match self.active {
            Some(since) => Ok(
                (
                    TimeSheetView {
                        periods: self.periods.push(Period { start: since, end: now }),
                        active: None,
                    },
                    now@ - since@,
                ),
            ),
            None => Err(TrackingError::NoActiveSession),
        }
    }
}

/// From idle, a start begins a session and a stop ends it: the sheet is idle
/// again, holds the session from start to stop after all it held before, and
/// the stop yields the session's length. In between, a second start is
/// refused; afterwards, a second stop is.
pub proof fn lemma_session_cycle(idle: TimeSheetView, started_at: Instant, stopped_at: Instant)
    requires
        idle.active is None,
    ensures
        idle.stop(stopped_at) == Err::<(TimeSheetView, int), TrackingError>(
            TrackingError::NoActiveSession,
        ),
        idle.start(started_at) matches Ok(tracking) && {
            &&& tracking.active == Some(started_at)
            &&& tracking.periods == idle.periods
            &&& tracking.start(stopped_at) == Err::<TimeSheetView, TrackingError>(
                TrackingError::AlreadyTracking,
            )
            &&& tracking.stop(stopped_at) matches Ok((stopped, lasted)) && {
                &&& stopped.active is None
                &&& stopped.periods == idle.periods.push(
                    Period { start: started_at, end: stopped_at },
                )
                &&& lasted == stopped_at@ - started_at@
                &&& stopped.stop(stopped_at) == Err::<(TimeSheetView, int), TrackingError>(
                    TrackingError::NoActiveSession,
                )
            }
        },
{
}

impl TimeSheet {
    /// A sheet with nothing recorded and nothing running.
    pub fn new() -> (sheet: TimeSheet)
        ensures
            sheet@ == TimeSheetView::empty(),
    {
        TimeSheet { periods: Vec::new(), active_period_start: None }
    }

    /// Whether a session is running.
    pub fn is_tracking(&self) -> (tracking: bool)
        ensures
            tracking == self@.active is Some,
    {
        self.active_period_start.is_some()
    }
}

impl Default for TimeSheet {
    fn default() -> (sheet: TimeSheet)
        ensures
            sheet@ == TimeSheetView::empty(),
    {
        TimeSheet::new()
    }
}

/// Starts a session at `now`, unless one is running already.
pub fn start_tracking_at(time_sheet: &mut TimeSheet, now: Instant) -> (outcome: Result<
    (),
    TrackingError,
>)
    ensures
        match old(time_sheet)@.start(now) {
            Ok(started) => outcome is Ok && final(time_sheet)@ == started,
            Err(refusal) => outcome == Err::<(), TrackingError>(refusal) && *final(time_sheet)
                == *old(time_sheet),
        },
{
    if time_sheet.active_period_start.is_some() {
        Err(TrackingError::AlreadyTracking)
    } else {
        time_sheet.active_period_start = Some(now);
        Ok(())
    }
}

/// Stops the running session at `now` and returns how long it lasted, unless
/// none is running. The length is negative where the clock went back between
/// start and stop; the session is recorded as it was measured.
pub fn stop_tracking_at(time_sheet: &mut TimeSheet, now: Instant) -> (outcome: Result<
    Duration,
    TrackingError,
>)
    ensures
        match old(time_sheet)@.stop(now) {
            Ok((stopped, lasted)) => final(time_sheet)@ == stopped && (outcome matches Ok(length)
                && length@ == lasted),
            Err(refusal) => outcome == Err::<Duration, TrackingError>(refusal)
                && *final(time_sheet) == *old(time_sheet),
        },
{
    match time_sheet.active_period_start {
        Some(since) => {
            time_sheet.active_period_start = None;
            time_sheet.periods.push(Period { start: since, end: now });
            Ok(now.since(&since))
        },
        None => Err(TrackingError::NoActiveSession),
    }
}

/// Starts a session at the present moment, unless one is running already.
/// The clock is read only where a session is started.
pub fn start_tracking(time_sheet: &mut TimeSheet) -> (outcome: Result<(), TrackingError>)
    ensures
        old(time_sheet)@.active is Some ==> outcome == Err::<(), TrackingError>(
            TrackingError::AlreadyTracking,
        ) && *final(time_sheet) == *old(time_sheet),
        old(time_sheet)@.active is None ==> outcome is Ok && exists|now: Instant|
            now.nanos < 1_000_000_000 && Ok::<TimeSheetView, TrackingError>(final(time_sheet)@)
                == #[trigger] old(time_sheet)@.start(now),
{
    if time_sheet.is_tracking() {
        return Err(TrackingError::AlreadyTracking);
    }
    let now: Instant = clock::utc_now();
    start_tracking_at(time_sheet, now)
}

/// Stops the running session at the present moment and returns how long it
/// lasted, unless none is running. The clock is read only where a session is
/// stopped.
pub fn stop_tracking(time_sheet: &mut TimeSheet) -> (outcome: Result<Duration, TrackingError>)
    ensures
        old(time_sheet)@.active is None ==> outcome == Err::<Duration, TrackingError>(
            TrackingError::NoActiveSession,
        ) && *final(time_sheet) == *old(time_sheet),
        old(time_sheet)@.active is Some ==> (outcome matches Ok(length) && exists|now: Instant|
            now.nanos < 1_000_000_000 && Ok::<(TimeSheetView, int), TrackingError>(
                (final(time_sheet)@, length@),
            ) == #[trigger] old(time_sheet)@.stop(now)),
{
    if !time_sheet.is_tracking() {
        return Err(TrackingError::NoActiveSession);
    }
    let now: Instant = clock::utc_now();
    stop_tracking_at(time_sheet, now)
}

} // verus!
