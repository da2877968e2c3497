//! Rows of the task table.
use vstd::prelude::*;
use crate::clock::Clock;
use crate::stopwatch::{Stopwatch, StopwatchData, elapsed_spec, whole_secs};

verus! {

/// A task of the task table. Times are milliseconds since the Unix epoch.
#[derive(Debug)]
pub struct TaskInfo {
    pub name: String,
    pub status: String,
    pub planned_start: String,
    pub planned_end: String,
    pub actual_start: Option<u64>,
    pub actual_end: Option<u64>,
    pub stopwatch: Stopwatch,
}

/// What is stored of a task.
#[derive(Debug, PartialEq, Eq)]
pub struct TaskInfoData {
    pub name: String,
    pub status: String,
    pub planned_start: String,
    pub planned_end: String,
    pub actual_start: Option<u64>,
    pub actual_end: Option<u64>,
    pub stopwatch: StopwatchData,
}

impl Default for TaskInfo {
    fn default() -> (t: Self)
        ensures
            t.name@ == Seq::<char>::empty(),
            t.status@ == Seq::<char>::empty(),
            t.planned_start@ == Seq::<char>::empty(),
            t.planned_end@ == Seq::<char>::empty(),
            t.actual_start is None,
            t.actual_end is None,
            t.stopwatch@ == (None::<u128>, 0u128),
    {
        TaskInfo {
            name: String::new(),
            status: String::new(),
            planned_start: String::new(),
            planned_end: String::new(),
            actual_start: None,
            actual_end: None,
            stopwatch: Stopwatch::new(),
        }
    }
}

impl TaskInfo {
    /// What to store of the task at `now` on the monotonic clock.
    pub fn to_data_at(&self, now: u128) -> (d: TaskInfoData)
        ensures
            d.name == self.name,
            d.status == self.status,
            d.planned_start == self.planned_start,
            d.planned_end == self.planned_end,
            d.actual_start == self.actual_start,
            d.actual_end == self.actual_end,
            d.stopwatch.elapsed_secs == whole_secs(elapsed_spec(self.stopwatch@, now)),
            d.stopwatch.running == self.stopwatch@.0 is Some,
    {
        TaskInfoData {
            name: self.name.clone(),
            status: self.status.clone(),
            planned_start: self.planned_start.clone(),
            planned_end: self.planned_end.clone(),
            actual_start: self.actual_start,
            actual_end: self.actual_end,
            stopwatch: self.stopwatch.to_data_at(now),
        }
    }

    /// What to store of the task now on `clock`.
    pub fn to_data(&self, clock: &mut Clock) -> (d: TaskInfoData)
        ensures
            final(clock)@ >= old(clock)@,
            d.name == self.name,
            d.status == self.status,
            d.planned_start == self.planned_start,
            d.planned_end == self.planned_end,
            d.actual_start == self.actual_start,
            d.actual_end == self.actual_end,
            d.stopwatch.elapsed_secs == whole_secs(elapsed_spec(self.stopwatch@, final(clock)@)),
            d.stopwatch.running == self.stopwatch@.0 is Some,
    {
        let now = clock.tick();
        self.to_data_at(now)
    }

    /// The task that was stored; its stopwatch is stopped at the stored time.
    pub fn from_data(data: TaskInfoData) -> (t: TaskInfo)
        ensures
            t.name == data.name,
            t.status == data.status,
            t.planned_start == data.planned_start,
            t.planned_end == data.planned_end,
            t.actual_start == data.actual_start,
            t.actual_end == data.actual_end,
            t.stopwatch@.0 is None,
            t.stopwatch@.1 == data.stopwatch.elapsed_secs * 1000,
    {
        TaskInfo {
            name: data.name,
            status: data.status,
            planned_start: data.planned_start,
            planned_end: data.planned_end,
            actual_start: data.actual_start,
            actual_end: data.actual_end,
            stopwatch: Stopwatch::from_data(data.stopwatch),
        }
    }
}

/// The last millisecond after the Unix epoch that chrono can hold as a
/// date and time: 31 December 262142, 23:59:59.999 UTC.
pub const LAST_INSTANT_MS: u64 = 8210266876799999;

/// `DateTime<Local>::from(t).format("%H:%M")` for the instant `ms`
/// milliseconds after the Unix epoch. chrono's conversion unwraps
/// `Utc.timestamp_opt`, which has no date past `LAST_INSTANT_MS`, so later
/// instants are left out. Which hour and minute come out depends on the
/// machine's time zone, so that is left unsaid; what is claimed holds of
/// every outcome: a zero-padded hour and minute of a day.
#[verifier::external_body]
fn local_hour_minute(ms: u64) -> (r: String)
    requires
        ms <= LAST_INSTANT_MS,
    ensures
        r@.len() == 5,
        r@[2] == ':',
        crate::text::digits_value(r@.subrange(0, 2)) is Some && crate::text::digits_value(r@.subrange(0, 2))->0 < 24,
        crate::text::digits_value(r@.subrange(3, 5)) is Some && crate::text::digits_value(r@.subrange(3, 5))->0 < 60,
{
    let t = std::time::UNIX_EPOCH + std::time::Duration::from_millis(ms);
    let datetime: chrono::DateTime<chrono::Local> = t.into();
    datetime.format("%H:%M").to_string()
}

/// Whether a moment can be shown as a time of day: no moment, or one no
/// later than `LAST_INSTANT_MS`.
pub open spec fn time_shown(time: Option<u64>) -> bool {
    time matches Some(t) ==> t <= LAST_INSTANT_MS
}

/// Whether `format_time` accepts this moment.
pub fn time_fits(time: Option<u64>) -> (r: bool)
    ensures
        r == time_shown(time),
{
    match time {
        Some(t) => t <= LAST_INSTANT_MS,
        None => true,
    }
}

/// A moment as local `HH:MM`, or an empty text for no moment.
pub fn format_time(time: Option<u64>) -> (s: String)
    requires
        time_shown(time),
    ensures
        time is None ==> s@ == Seq::<char>::empty(),
        time is Some ==> {
            &&& s@.len() == 5
            &&& s@[2] == ':'
            &&& crate::text::digits_value(s@.subrange(0, 2)) is Some && crate::text::digits_value(s@.subrange(0, 2))->0 < 24
            &&& crate::text::digits_value(s@.subrange(3, 5)) is Some && crate::text::digits_value(s@.subrange(3, 5))->0 < 60
        },
{
    match time {
        Some(t) => local_hour_minute(t),
        None => String::new(),
    }
}

} // verus!
