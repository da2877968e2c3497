//! A stopwatch that adds up the time it has been running.
use vstd::prelude::*;
use crate::clock::Clock;
use crate::text::{format_two_digits, string_of, two_digits};

verus! {

/// A stopwatch. Times are milliseconds on the monotonic clock.
#[derive(Clone, Copy, Debug)]
pub struct Stopwatch {
    started_at: Option<u128>,
    stopwatch: u128,
}

/// What is stored of a stopwatch: whole seconds and whether it ran.
#[derive(Clone, Copy, Debug, PartialEq, Eq, Structural)]
pub struct StopwatchData {
    pub elapsed_secs: u64,
    pub running: bool,
}

/// `a + b`, or `u64::MAX` when that does not fit.
pub open spec fn sat_add(a: int, b: int) -> int {
    if a + b > u64::MAX { u64::MAX as int } else { a + b }
}

/// `a + b`, or `u128::MAX` when that does not fit.
pub open spec fn sat_add_wide(a: int, b: int) -> int {
    if a + b > u128::MAX { u128::MAX as int } else { a + b }
}

/// `a - b`, or zero when `b` is larger.
pub open spec fn sat_sub(a: int, b: int) -> int {
    if a >= b { a - b } else { 0 }
}

/// Whole seconds in `ms` milliseconds, or `u64::MAX` when they do not fit.
pub open spec fn whole_secs(ms: int) -> int {
    if ms / 1000 > u64::MAX { u64::MAX as int } else { ms / 1000 }
}

impl View for Stopwatch {
    /// When the current run started, if running, and the time of the runs
    /// before it.
    type V = (Option<u128>, u128);

    closed spec fn view(&self) -> (Option<u128>, u128) {
        (self.started_at, self.stopwatch)
    }
}

/// The time on a stopwatch at `now`: earlier runs plus the current one.
pub open spec fn elapsed_spec(v: (Option<u128>, u128), now: u128) -> int {
    match v.0 {
        Some(s) => sat_add_wide(v.1 as int, sat_sub(now as int, s as int)),
        None => v.1 as int,
    }
}

/// Whether a stopwatch has ever run since it was last reset.
pub open spec fn started_spec(v: (Option<u128>, u128)) -> bool {
    v.0 is Some || v.1 != 0
}

/// The stopwatch's time as `HH:MM:SS`, or nothing if it never ran.
pub open spec fn formatted_spec(v: (Option<u128>, u128), now: u128) -> Seq<char> {
    if !started_spec(v) {
        Seq::empty()
    } else {
        let secs = whole_secs(elapsed_spec(v, now)) as nat;
        two_digits(secs / 3600) + seq![':'] + two_digits((secs % 3600) / 60) + seq![':'] + two_digits(secs % 60)
    }
}

/// A stopwatch after starting a run at `now`, unless one is going.
pub open spec fn run_started(v: (Option<u128>, u128), now: u128) -> (Option<u128>, u128) {
    if v.0 is None { (Some(now), v.1) } else { v }
}

impl Default for Stopwatch {
    fn default() -> (s: Self)
        ensures
            s@ == (None::<u128>, 0u128),
    {
        Stopwatch { started_at: None, stopwatch: 0 }
    }
}

impl Stopwatch {
    /// A stopped stopwatch at zero.
    pub fn new() -> (s: Self)
        ensures
            s@ == (None::<u128>, 0u128),
    {
        Stopwatch { started_at: None, stopwatch: 0 }
    }

    /// What to store of the stopwatch at `now`.
    pub fn to_data_at(&self, now: u128) -> (d: StopwatchData)
        ensures
            d.elapsed_secs == whole_secs(elapsed_spec(self@, now)),
            d.running == self@.0 is Some,
    {
        StopwatchData { elapsed_secs: secs_of_millis(self.elapsed_at(now)), running: self.running() }
    }

    /// What to store of the stopwatch now, on `clock`.
    pub fn to_data(&self, clock: &mut Clock) -> (d: StopwatchData)
        ensures
            final(clock)@ >= old(clock)@,
            d.elapsed_secs == whole_secs(elapsed_spec(self@, final(clock)@)),
            d.running == self@.0 is Some,
    {
        let now = clock.tick();
        self.to_data_at(now)
    }

    /// A stopped stopwatch holding the stored seconds.
    pub fn from_data(data: StopwatchData) -> (s: Self)
        ensures
            s@.0 is None,
            s@.1 == data.elapsed_secs * 1000,
    {
        Stopwatch { started_at: None, stopwatch: data.elapsed_secs as u128 * 1000 }
    }

    /// Whether it has run since it was last reset.
    pub fn started(&self) -> (r: bool)
        ensures
            r == started_spec(self@),
    {
        self.started_at.is_some() || self.stopwatch != 0
    }

    /// Starts a run at `now`, unless one is going.
    pub fn start_at(&mut self, now: u128)
        ensures
            final(self)@ == run_started(old(self)@, now),
    {
        if self.started_at.is_none() {
            self.started_at = Some(now);
        }
    }

    /// Starts a run now on `clock`, unless one is going.
    pub fn start(&mut self, clock: &mut Clock)
        ensures
            final(clock)@ >= old(clock)@,
            final(self)@ == run_started(old(self)@, final(clock)@),
    {
        let now = clock.tick();
        self.start_at(now);
    }

    /// Ends the current run at `now` and adds it to the total.
    pub fn stop_at(&mut self, now: u128)
        ensures
            final(self)@.0 is None,
            final(self)@.1 == elapsed_spec(old(self)@, now),
    {
        if let Some(start) = self.started_at {
            let run = if now >= start { now - start } else { 0 };
            self.stopwatch = if self.stopwatch <= u128::MAX - run { self.stopwatch + run } else { u128::MAX };
            self.started_at = None;
        }
    }

    /// Ends the current run now on `clock` and adds it to the total.
    pub fn stop(&mut self, clock: &mut Clock)
        ensures
            final(clock)@ >= old(clock)@,
            final(self)@.0 is None,
            final(self)@.1 == elapsed_spec(old(self)@, final(clock)@),
    {
        let now = clock.tick();
        self.stop_at(now);
    }

    /// Whether a run is going.
    pub fn running(&self) -> (r: bool)
        ensures
            r == self@.0 is Some,
    {
        self.started_at.is_some()
    }

    /// The total time at `now`, in milliseconds.
    pub fn elapsed_at(&self, now: u128) -> (r: u128)
        ensures
            r == elapsed_spec(self@, now),
    {
        match self.started_at {
            Some(start) => {
                let run = if now >= start { now - start } else { 0 };
                if self.stopwatch <= u128::MAX - run { self.stopwatch + run } else { u128::MAX }
            },
            None => self.stopwatch,
        }
    }

    /// The total time now on `clock`, in milliseconds.
    pub fn elapsed(&self, clock: &mut Clock) -> (r: u128)
        ensures
            final(clock)@ >= old(clock)@,
            r == elapsed_spec(self@, final(clock)@),
    {
        let now = clock.tick();
        self.elapsed_at(now)
    }

    /// Stops and clears the stopwatch.
    pub fn reset(&mut self)
        ensures
            final(self)@ == (None::<u128>, 0u128),
    {
        self.started_at = None;
        self.stopwatch = 0;
    }

    /// The time at `now` as `HH:MM:SS` (hours may take more than two
    /// digits), or an empty text if it never ran.
    pub fn formatted_at(&self, now: u128) -> (s: String)
        ensures
            s@ == formatted_spec(self@, now),
    {
        if !self.started() {
            return string_of(&[]);
        }
        let secs = secs_of_millis(self.elapsed_at(now));
        let hours = secs / 3600;
        let minutes = (secs % 3600) / 60;
        let seconds = secs % 60;
        let mut out = format_two_digits(hours);
        out.append(":");
        let m = format_two_digits(minutes);
        out.append(m.as_str());
        out.append(":");
        let sec = format_two_digits(seconds);
        out.append(sec.as_str());
        proof {
            reveal_strlit(":");
        }
        out
    }

    /// The time now on `clock` as `HH:MM:SS`, or an empty text if it never
    /// ran.
    pub fn formatted(&self, clock: &mut Clock) -> (s: String)
        ensures
            final(clock)@ >= old(clock)@,
            s@ == formatted_spec(self@, final(clock)@),
    {
        let now = clock.tick();
        self.formatted_at(now)
    }
}

/// Whole seconds in a number of milliseconds, at most `u64::MAX`.
pub fn secs_of_millis(ms: u128) -> (r: u64)
    ensures
        r == whole_secs(ms as int),
{
    let secs = ms / 1000;
    if secs > u64::MAX as u128 { u64::MAX } else { secs as u64 }
}

/// Once stopped, a stopwatch shows the same time whenever it is read.
pub proof fn lemma_stopped_time_is_constant(s: (Option<u128>, u128), t1: u128, t2: u128)
    requires
        s.0 is None,
    ensures
        elapsed_spec(s, t1) == elapsed_spec(s, t2),
{
}

/// A run from `t1` to `t2` adds exactly `t2 - t1` to the total, unless the
/// total would pass `u128::MAX` milliseconds.
pub proof fn lemma_run_adds_its_length(total: u128, t1: u128, t2: u128)
    requires
        t1 <= t2,
        total + (t2 - t1) <= u128::MAX,
    ensures
        elapsed_spec((Some(t1), total), t2) == total + (t2 - t1),
{
}

/// While running, the time never goes down as the clock goes forward.
pub proof fn lemma_elapsed_is_monotonic(s: (Option<u128>, u128), t1: u128, t2: u128)
    requires
        t1 <= t2,
    ensures
        elapsed_spec(s, t1) <= elapsed_spec(s, t2),
{
}

/// Stopping at `t2` keeps at least the time read at any earlier `t1`, and
/// the stopped time then stays the same whenever it is read.
pub proof fn lemma_stop_keeps_time(s: (Option<u128>, u128), t1: u128, t2: u128, t3: u128)
    requires
        t1 <= t2,
    ensures
        elapsed_spec((None::<u128>, elapsed_spec(s, t2) as u128), t3) >= elapsed_spec(s, t1),
        elapsed_spec((None::<u128>, elapsed_spec(s, t2) as u128), t3) == elapsed_spec(s, t2),
{
}

} // verus!
