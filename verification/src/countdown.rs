//! A countdown that can be started, paused and restored after a restart.
use vstd::prelude::*;
use crate::clock::{Clock, Moment, secs_of, millis_to_secs};
use crate::stopwatch::{sat_add_wide, sat_sub};

verus! {

/// A countdown. Times are milliseconds on the monotonic clock; the end is
/// also kept as a Unix timestamp in seconds on the wall clock, which is
/// what gets stored.
#[derive(Clone, Copy, Debug)]
pub struct Countdown {
    ends_at: Option<u128>,
    ends_at_timestamp: Option<i64>,
    remaining: u128,
}

/// The abstract state of a countdown: when it ends if it runs, the stored
/// end timestamp, and the time left when paused.
pub struct CountdownView {
    pub ends_at: Option<u128>,
    pub ends_at_timestamp: Option<i64>,
    pub remaining: u128,
}

impl View for Countdown {
    type V = CountdownView;

    closed spec fn view(&self) -> CountdownView {
        CountdownView {
            ends_at: self.ends_at,
            ends_at_timestamp: self.ends_at_timestamp,
            remaining: self.remaining,
        }
    }
}

/// `a + b` on timestamps, or `i64::MAX` when that does not fit.
pub open spec fn sat_add_i64(a: int, b: int) -> int {
    if a + b > i64::MAX { i64::MAX as int } else { a + b }
}

/// The time left at `now` on the monotonic clock.
pub open spec fn remaining_spec(v: CountdownView, now: u128) -> int {
    match v.ends_at {
        Some(e) => sat_sub(e as int, now as int),
        None => v.remaining as int,
    }
}

/// A stored countdown as restored at the wall-clock time `unix_ms` and the
/// monotonic time `tick`: a stored end in the past gives a finished
/// countdown, a future one keeps running with the whole seconds left until
/// it, and without a stored end the countdown is paused with the stored
/// time left.
pub open spec fn restored_view(remaining: u128, ends_at_timestamp: Option<i64>, unix_ms: u64, tick: u128) -> CountdownView {
    match ends_at_timestamp {
        None => CountdownView { ends_at: None, ends_at_timestamp: None, remaining },
        Some(ts) => if ts <= millis_to_secs(unix_ms) {
            CountdownView { ends_at: None, ends_at_timestamp: None, remaining: 0 }
        } else {
            let left = (ts - millis_to_secs(unix_ms)) * 1000;
            CountdownView {
                ends_at: Some(sat_add_wide(tick as int, left) as u128),
                ends_at_timestamp: Some(ts),
                remaining: left as u128,
            }
        },
    }
}

/// A countdown started at the wall-clock time `unix_ms` and the monotonic
/// time `tick`: it ends its time left after `tick`, and the stored end is
/// the whole seconds left after `unix_ms`; unless it runs already or has
/// nothing left.
pub open spec fn started_view(v: CountdownView, unix_ms: u64, tick: u128) -> CountdownView {
    if v.ends_at is None && v.remaining > 0 {
        CountdownView {
            ends_at: Some(sat_add_wide(tick as int, v.remaining as int) as u128),
            ends_at_timestamp: Some(sat_add_i64(millis_to_secs(unix_ms) as int, (v.remaining / 1000) as int) as i64),
            remaining: v.remaining,
        }
    } else {
        v
    }
}

/// A countdown paused at `now`, keeping the time left.
pub open spec fn paused_view(v: CountdownView, now: u128) -> CountdownView {
    match v.ends_at {
        Some(e) => CountdownView { ends_at: None, ends_at_timestamp: None, remaining: sat_sub(e as int, now as int) as u128 },
        None => v,
    }
}

/// A countdown runs exactly when it has a stored end.
pub open spec fn consistent(v: CountdownView) -> bool {
    v.ends_at is Some <==> v.ends_at_timestamp is Some
}

impl Countdown {
    /// Every countdown runs exactly when it has a stored end.
    #[verifier::type_invariant]
    spec fn runs_with_stored_end(self) -> bool {
        self.ends_at is Some <==> self.ends_at_timestamp is Some
    }
}

impl Default for Countdown {
    fn default() -> (c: Self)
        ensures
            c@ == (CountdownView { ends_at: None, ends_at_timestamp: None, remaining: 0 }),
            consistent(c@),
    {
        Countdown { ends_at: None, ends_at_timestamp: None, remaining: 0 }
    }
}

impl Countdown {
    /// A paused countdown of `duration` milliseconds.
    pub fn new(duration: u128) -> (c: Self)
        ensures
            c@ == (CountdownView { ends_at: None, ends_at_timestamp: None, remaining: duration }),
            consistent(c@),
    {
        Countdown { ends_at: None, ends_at_timestamp: None, remaining: duration }
    }

    /// Restores a stored countdown at the moment `now`. A stored end in
    /// the past gives a finished countdown; a future one keeps running,
    /// with the whole seconds left until it.
    pub fn from_data_at(remaining: u128, ends_at_timestamp: Option<i64>, now: Moment) -> (c: Self)
        ensures
            c@ == restored_view(remaining, ends_at_timestamp, now.unix_ms, now.tick),
            consistent(c@),
    {
        let timestamp = match ends_at_timestamp {
            None => return Countdown { ends_at: None, ends_at_timestamp: None, remaining },
            Some(ts) => ts,
        };
        let now_secs = secs_of(now.unix_ms);
        if timestamp <= now_secs {
            return Countdown { ends_at: None, ends_at_timestamp: None, remaining: 0 };
        }
        let left = (timestamp - now_secs) as u128 * 1000;
        let ends_at = if now.tick <= u128::MAX - left { now.tick + left } else { u128::MAX };
        Countdown { ends_at: Some(ends_at), ends_at_timestamp: Some(timestamp), remaining: left }
    }

    /// Restores a stored countdown now, on `clock`.
    pub fn from_data(remaining: u128, ends_at_timestamp: Option<i64>, clock: &mut Clock) -> (c: Self)
        ensures
            final(clock)@ >= old(clock)@,
            exists|unix_ms: u64| c@ == #[trigger] restored_view(remaining, ends_at_timestamp, unix_ms, final(clock)@),
            consistent(c@),
    {
        let now = clock.now();
        Self::from_data_at(remaining, ends_at_timestamp, now)
    }

    /// Starts the countdown at the moment `now`, unless it runs already or
    /// has nothing left.
    pub fn start_at(&mut self, now: Moment)
        ensures
            final(self)@ == started_view(old(self)@, now.unix_ms, now.tick),
            consistent(final(self)@),
    {
        proof { use_type_invariant(&*self); }
        if self.ends_at.is_none() && self.remaining > 0 {
            let remaining = self.remaining;
            let e = if now.tick <= u128::MAX - remaining { now.tick + remaining } else { u128::MAX };
            let timestamp = secs_of(now.unix_ms);
            let secs = remaining / 1000;
            let stored = if secs <= (i64::MAX - timestamp) as u128 { timestamp + secs as i64 } else { i64::MAX };
            *self = Countdown { ends_at: Some(e), ends_at_timestamp: Some(stored), remaining };
        }
        proof { use_type_invariant(&*self); }
    }

    /// Starts the countdown now on `clock`, unless it runs already or has
    /// nothing left.
    pub fn start(&mut self, clock: &mut Clock)
        ensures
            final(clock)@ >= old(clock)@,
            exists|unix_ms: u64| final(self)@ == #[trigger] started_view(old(self)@, unix_ms, final(clock)@),
            consistent(final(self)@),
    {
        let now = clock.now();
        self.start_at(now);
    }

    /// Pauses at `now`, keeping the time left.
    pub fn pause_at(&mut self, now: u128)
        ensures
            final(self)@ == paused_view(old(self)@, now),
            final(self)@.ends_at is None,
            final(self)@.ends_at_timestamp is None,
            old(self)@.ends_at is None ==> *final(self) == *old(self),
    {
        proof { use_type_invariant(&*self); }
        if let Some(ends_at) = self.ends_at {
            let left = if ends_at >= now { ends_at - now } else { 0 };
            *self = Countdown { ends_at: None, ends_at_timestamp: None, remaining: left };
        }
    }

    /// Pauses now on `clock`, keeping the time left.
    pub fn pause(&mut self, clock: &mut Clock)
        ensures
            final(clock)@ >= old(clock)@,
            final(self)@ == paused_view(old(self)@, final(clock)@),
            final(self)@.ends_at is None,
            final(self)@.ends_at_timestamp is None,
            old(self)@.ends_at is None ==> *final(self) == *old(self),
    {
        let now = clock.tick();
        self.pause_at(now);
    }

    /// The time left at `now`.
    pub fn remaining_at(&self, now: u128) -> (r: u128)
        ensures
            r == remaining_spec(self@, now),
    {
        match self.ends_at {
            Some(e) => if e >= now { e - now } else { 0 },
            None => self.remaining,
        }
    }

    /// The time left now on `clock`.
    pub fn remaining(&self, clock: &mut Clock) -> (r: u128)
        ensures
            final(clock)@ >= old(clock)@,
            r == remaining_spec(self@, final(clock)@),
    {
        let now = clock.tick();
        self.remaining_at(now)
    }

    /// Whether the countdown runs.
    pub fn running(&self) -> (r: bool)
        ensures
            r == self@.ends_at is Some,
            r == self@.ends_at_timestamp is Some,
    {
        proof { use_type_invariant(self); }
        self.ends_at.is_some()
    }

    /// The stored end, as a Unix timestamp in seconds.
    pub fn ends_at_timestamp(&self) -> (r: Option<i64>)
        ensures
            r == self@.ends_at_timestamp,
            r is Some == self@.ends_at is Some,
    {
        proof { use_type_invariant(self); }
        self.ends_at_timestamp
    }
}

/// Pausing right after starting loses no time.
pub proof fn lemma_start_then_pause_keeps_time(remaining: u128, now: u128)
    requires
        now + remaining <= u128::MAX,
    ensures
        sat_sub(sat_add_wide(now as int, remaining as int), now as int) == remaining,
{
}

/// A running countdown goes down by exactly the time that passes, until it
/// reaches zero.
pub proof fn lemma_running_countdown_goes_down(v: CountdownView, t: u128, d: u128)
    requires
        v.ends_at is Some,
        t + d <= u128::MAX,
    ensures
        remaining_spec(v, (t + d) as u128) == sat_sub(remaining_spec(v, t), d as int),
{
}

/// A paused countdown keeps its time whenever it is read.
pub proof fn lemma_paused_countdown_is_constant(v: CountdownView, t1: u128, t2: u128)
    requires
        v.ends_at is None,
    ensures
        remaining_spec(v, t1) == remaining_spec(v, t2) == v.remaining,
{
}

/// The time left never goes up as the clock goes forward.
pub proof fn lemma_remaining_never_grows(v: CountdownView, t1: u128, t2: u128)
    requires
        t1 <= t2,
    ensures
        remaining_spec(v, t2) <= remaining_spec(v, t1),
{
}

/// After a countdown is restored from a stored end in the future, it runs
/// with that end stored, and at any later reading of the monotonic clock the
/// time left is at most the whole seconds that were left until the end.
pub proof fn lemma_restored_time_bounded(remaining: u128, ts: i64, unix_ms: u64, tick: u128, later: u128)
    requires
        ts > millis_to_secs(unix_ms),
        tick <= later,
    ensures
        restored_view(remaining, Some(ts), unix_ms, tick).ends_at is Some,
        restored_view(remaining, Some(ts), unix_ms, tick).ends_at_timestamp == Some(ts),
        remaining_spec(restored_view(remaining, Some(ts), unix_ms, tick), later) <= (ts - millis_to_secs(unix_ms)) * 1000,
{
}

/// After a stopped countdown with time left is started, it runs, and at any
/// later reading of the monotonic clock the time left is at most what it
/// had before.
pub proof fn lemma_started_time_bounded(v: CountdownView, unix_ms: u64, tick: u128, later: u128)
    requires
        v.ends_at is None,
        v.remaining > 0,
        tick <= later,
    ensures
        started_view(v, unix_ms, tick).ends_at is Some,
        remaining_spec(started_view(v, unix_ms, tick), later) <= v.remaining,
{
}

/// Pausing at `t2` leaves at most the time read at any earlier `t1`, and
/// that time then stays the same whenever it is read.
pub proof fn lemma_paused_time_bounded(v: CountdownView, t1: u128, t2: u128, t3: u128)
    requires
        t1 <= t2,
    ensures
        remaining_spec(paused_view(v, t2), t3) <= remaining_spec(v, t1),
        remaining_spec(paused_view(v, t2), t3) == remaining_spec(v, t2),
{
}

} // verus!
