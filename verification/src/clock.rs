//! The clocks: the wall clock, read as milliseconds since the Unix epoch,
//! and a monotonic clock for measuring how long things take.
use vstd::prelude::*;

verus! {

/// `std::time::Instant`, a reading of the monotonic clock.
#[verifier::external_type_specification]
#[verifier::external_body]
pub struct ExInstant(std::time::Instant);

/// `Instant::now()`: a reading of the monotonic clock. Nothing is claimed
/// of it.
#[verifier::external_body]
fn instant_now() -> (r: std::time::Instant) {
    std::time::Instant::now()
}

/// `origin.elapsed().as_millis()`: whole milliseconds on the monotonic
/// clock since the reading `origin`. Nothing is claimed of the value: it
/// is whatever the clock shows.
#[verifier::external_body]
fn millis_since(origin: &std::time::Instant) -> (r: u128) {
    origin.elapsed().as_millis()
}

/// A moment as both clocks give it: milliseconds since the Unix epoch on
/// the wall clock, and milliseconds on the monotonic clock since it was
/// set up.
#[derive(Clone, Copy, Debug, PartialEq, Eq, Structural)]
pub struct Moment {
    pub unix_ms: u64,
    pub tick: u128,
}

/// A clock whose readings never go back: the monotonic clock, counted in
/// milliseconds from when this clock was set up, with each reading held to
/// at least the one before it.
pub struct Clock {
    origin: std::time::Instant,
    last: u128,
}

impl View for Clock {
    /// The last reading.
    type V = u128;

    closed spec fn view(&self) -> u128 {
        self.last
    }
}

impl Clock {
    /// A clock set up now; no reading has been taken.
    pub fn new() -> (c: Clock)
        ensures
            c@ == 0,
    {
        Clock { origin: instant_now(), last: 0 }
    }

    /// The milliseconds since the clock was set up: never less than the
    /// reading before.
    pub fn tick(&mut self) -> (r: u128)
        ensures
            r >= old(self)@,
            final(self)@ == r,
    {
        let t = millis_since(&self.origin);
        let r = if t < self.last { self.last } else { t };
        self.last = r;
        r
    }

    /// The current moment on both clocks; its monotonic reading is never
    /// less than the one before.
    pub fn now(&mut self) -> (m: Moment)
        ensures
            m.tick >= old(self)@,
            final(self)@ == m.tick,
    {
        let unix_ms = now_millis();
        let tick = self.tick();
        Moment { unix_ms, tick }
    }
}

/// `SystemTime::now()` measured from `UNIX_EPOCH`, in whole milliseconds;
/// `None` when the clock is set before the epoch. Nothing is claimed of the
/// value: it is whatever the clock shows.
#[verifier::external_body]
fn system_millis() -> (r: Option<u64>) {
    match std::time::SystemTime::now().duration_since(std::time::UNIX_EPOCH) {
        Ok(d) => Some(d.as_millis() as u64),
        Err(_) => None,
    }
}

/// A clock reading in milliseconds since the Unix epoch: the reading
/// itself, or the epoch for a clock set before it.
pub fn millis_since_epoch(reading: Option<u64>) -> (r: u64)
    ensures
        r == (match reading { Some(t) => t, None => 0 }),
{
    match reading {
        Some(t) => t,
        None => 0,
    }
}

/// The current time in milliseconds since the Unix epoch. A clock set
/// before the epoch reads as the epoch itself.
pub fn now_millis() -> (r: u64) {
    millis_since_epoch(system_millis())
}

/// Whole seconds in a number of milliseconds, as an `i64` timestamp.
pub open spec fn millis_to_secs(ms: u64) -> i64 {
    (ms / 1000) as i64
}

/// Converts milliseconds since the epoch to whole seconds since the epoch.
pub fn secs_of(ms: u64) -> (r: i64)
    ensures
        r == millis_to_secs(ms),
        r >= 0,
{
    (ms / 1000) as i64
}

} // verus!
