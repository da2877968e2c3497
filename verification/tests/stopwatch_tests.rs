use duetime::clock::Clock;
use duetime::stopwatch::{Stopwatch, StopwatchData};

#[test]
fn stopwatch_adds_up_runs() {
    let mut s = Stopwatch::new();
    assert!(!s.started());
    assert_eq!(s.formatted_at(0), "");
    s.start_at(1_000);
    assert!(s.running());
    assert_eq!(s.elapsed_at(4_500), 3_500);
    s.stop_at(4_500);
    assert!(!s.running());
    assert_eq!(s.elapsed_at(100_000), 3_500);
    s.start_at(10_000);
    s.stop_at(12_000);
    assert_eq!(s.elapsed_at(0), 5_500);
    assert!(s.started());
}

#[test]
fn stopwatch_format() {
    let s = Stopwatch::from_data(StopwatchData { elapsed_secs: 3723, running: false });
    assert_eq!(s.formatted_at(0), "01:02:03");
    let mut r = Stopwatch::new();
    r.start_at(0);
    assert_eq!(r.formatted_at(61_999), "00:01:01");
}

#[test]
fn stopwatch_data_round_trip() {
    let s = Stopwatch::from_data(StopwatchData { elapsed_secs: 42, running: true });
    assert!(!s.running());
    assert_eq!(s.to_data_at(0), StopwatchData { elapsed_secs: 42, running: false });
    let mut t = Stopwatch::new();
    t.start_at(0);
    assert_eq!(t.to_data_at(2_500), StopwatchData { elapsed_secs: 2, running: true });
}

#[test]
fn stopwatch_reset() {
    let mut s = Stopwatch::new();
    s.start_at(0);
    s.stop_at(5_000);
    s.reset();
    assert!(!s.started());
    assert_eq!(s.elapsed_at(9_000), 0);
}

#[test]
fn stopped_stopwatch_is_constant() {
    let mut s = Stopwatch::new();
    s.start_at(100);
    s.stop_at(900);
    assert_eq!(s.elapsed_at(1_000), s.elapsed_at(5_000_000));
}

#[test]
fn clock_readings() {
    assert_eq!(duetime::clock::millis_since_epoch(Some(1_234)), 1_234);
    assert_eq!(duetime::clock::millis_since_epoch(None), 0);
}

#[test]
fn stored_seconds_come_back_exactly() {
    let s = Stopwatch::from_data(StopwatchData { elapsed_secs: u64::MAX, running: false });
    assert_eq!(s.elapsed_at(0), u64::MAX as u128 * 1000);
    assert_eq!(s.to_data_at(0), StopwatchData { elapsed_secs: u64::MAX, running: false });
}

#[test]
fn the_clock_never_goes_back() {
    let mut clock = Clock::new();
    let mut last = 0u128;
    for _ in 0..100 {
        let t = clock.tick();
        assert!(t >= last);
        last = t;
    }
    let m = clock.now();
    assert!(m.tick >= last);
    assert!(m.unix_ms > 1_600_000_000_000);
}

#[test]
fn stopping_keeps_what_was_read() {
    let mut clock = Clock::new();
    let mut s = Stopwatch::new();
    s.start(&mut clock);
    assert!(s.running());
    let before = s.elapsed(&mut clock);
    s.stop(&mut clock);
    assert!(!s.running());
    let after = s.elapsed(&mut clock);
    assert!(after >= before);
    assert_eq!(s.elapsed(&mut clock), after);
    let shown = if after == 0 { "" } else { "00:00:00" };
    assert_eq!(s.formatted(&mut clock), shown);
}
