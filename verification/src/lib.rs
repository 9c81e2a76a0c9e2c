//! Work-time tracking: recorded sessions, the arithmetic of overlapping time
//! ranges, and the calendar windows (today, this week, this month) over which
//! tracked time is reported.

pub mod calendar;
mod clock;
pub mod instant;
pub mod period;
pub mod report;
pub mod timesheet;
pub mod window;
