use duetime::clock::{Clock, Moment};
use duetime::countdown::Countdown;
use duetime::timers::{above, below, duration_in_range, get_big_glyph, left_of, millis_of_secs, parse_duration, render_time_display, right_of, TimerInfo, TimerInfoData};

fn at(ms: u64) -> Moment {
    Moment { unix_ms: ms, tick: ms as u128 }
}


#[test]
fn parse_durations() {
    assert_eq!(parse_duration("00:00:00"), Some(0));
    assert_eq!(parse_duration("01:02:03"), Some(3723));
    assert_eq!(parse_duration("01:30:05"), Some(5405));
    assert_eq!(parse_duration("100:00:00"), Some(360000));
    assert_eq!(parse_duration("00:60:00"), None);
    assert_eq!(parse_duration("00:00:60"), None);
    assert_eq!(parse_duration("00:00"), None);
    assert_eq!(parse_duration("aa:00:00"), None);
    assert_eq!(parse_duration(""), None);
}

#[test]
fn duration_range_check() {
    assert!(duration_in_range("01:00:00"));
    assert!(duration_in_range("not a duration"));
    assert!(duration_in_range("99999999999999999999:00:00"));
    assert!(duration_in_range("5124095576030431:00:00"));
    assert!(!duration_in_range("5124095576030432:00:00"));
    assert_eq!(parse_duration("5124095576030431:00:15"), Some(18446744073709551615));
}

#[test]
fn seconds_to_millis_saturates() {
    assert_eq!(millis_of_secs(3), 3000);
    assert_eq!(millis_of_secs(u64::MAX), u64::MAX as u128 * 1000);
}

#[test]
fn big_digits() {
    assert_eq!(get_big_glyph('1'), ("█", "█", "▀"));
    assert_eq!(get_big_glyph('x'), ("   ", "   ", "   "));
    let (top, mid, bot) = render_time_display("1:0");
    assert_eq!(top, "█ ▄ █▀█");
    assert_eq!(mid, "█ ▄ █ █");
    assert_eq!(bot, "▀   ▀▀▀");
}

#[test]
fn grid_moves() {
    assert_eq!(left_of(0), 0);
    assert_eq!(left_of(4), 3);
    assert_eq!(right_of(0, 0), None);
    assert_eq!(right_of(1, 3), Some(2));
    assert_eq!(right_of(2, 3), Some(2));
    assert_eq!(below(1, 4), Some(3));
    assert_eq!(below(2, 5), Some(4));
    assert_eq!(below(1, 5), Some(3));
    assert_eq!(below(0, 6), Some(3));
    assert_eq!(below(2, 4), Some(3));
    assert_eq!(below(3, 6), None);
    assert_eq!(above(3, 4), Some(1));
    assert_eq!(above(4, 5), Some(2));
    assert_eq!(above(5, 6), Some(2));
    assert_eq!(above(2, 6), None);
}

#[test]
fn down_then_up_returns_in_a_full_grid() {
    for current in 0..3usize {
        let down = below(current, 6).unwrap();
        assert_eq!(above(down, 6), Some(current));
    }
}

#[test]
fn timer_data_round_trip() {
    let data = TimerInfoData { name: "Tea".to_string(), duration: 180, status: "READY".to_string() };
    let timer = TimerInfo::from_data(TimerInfoData { name: "Tea".to_string(), duration: 180, status: "READY".to_string() });
    assert_eq!(timer.to_data(), data);
    assert_eq!(timer.countdown.remaining_at(0), 180_000);
    assert!(!timer.countdown.running());
}

#[test]
fn countdown_runs_and_pauses() {
    let mut c = Countdown::new(5_000);
    assert_eq!(c.remaining_at(1_000), 5_000);
    c.start_at(at(10_000));
    assert!(c.running());
    assert_eq!(c.ends_at_timestamp(), Some(15));
    assert_eq!(c.remaining_at(12_000), 3_000);
    assert_eq!(c.remaining_at(20_000), 0);
    c.pause_at(12_000);
    assert!(!c.running());
    assert_eq!(c.remaining_at(50_000), 3_000);
    assert_eq!(c.ends_at_timestamp(), None);
}

#[test]
fn countdown_restored_from_storage() {
    let c = Countdown::from_data_at(7_000, None, at(1_000));
    assert_eq!(c.remaining_at(99_000), 7_000);
    let past = Countdown::from_data_at(7_000, Some(5), at(10_000));
    assert_eq!(past.remaining_at(10_000), 0);
    assert!(!past.running());
    let future = Countdown::from_data_at(7_000, Some(20), at(10_000));
    assert!(future.running());
    assert_eq!(future.remaining_at(10_000), 10_000);
    assert_eq!(future.ends_at_timestamp(), Some(20));
}

#[test]
fn countdown_runs_exactly_when_it_has_a_stored_end() {
    let mut cs = vec![
        Countdown::new(0),
        Countdown::new(4_000),
        Countdown::default(),
        Countdown::from_data_at(7_000, None, at(1_000)),
        Countdown::from_data_at(7_000, Some(5), at(10_000)),
        Countdown::from_data_at(7_000, Some(20), at(10_000)),
    ];
    for c in cs.iter_mut() {
        assert_eq!(c.running(), c.ends_at_timestamp().is_some());
        c.start_at(at(30_000));
        assert_eq!(c.running(), c.ends_at_timestamp().is_some());
        c.pause_at(31_000);
        assert!(!c.running());
        assert_eq!(c.ends_at_timestamp(), None);
        c.pause_at(32_000);
        assert_eq!(c.ends_at_timestamp(), None);
    }
}

#[test]
fn pausing_a_stopped_countdown_changes_nothing() {
    let mut c = Countdown::new(9_000);
    c.pause_at(1_000);
    assert!(!c.running());
    assert_eq!(c.remaining_at(5_000), 9_000);
    assert_eq!(c.ends_at_timestamp(), None);
}

#[test]
fn long_durations_stay_exact() {
    let t = TimerInfo::from_data(TimerInfoData { name: "age".to_string(), duration: u64::MAX, status: "READY".to_string() });
    assert_eq!(t.countdown.remaining_at(0), u64::MAX as u128 * 1000);
    let t2 = TimerInfo::from_data(TimerInfoData { name: "long".to_string(), duration: u64::MAX / 1000 + 1, status: "READY".to_string() });
    assert_eq!(t2.countdown.remaining_at(0), (u64::MAX / 1000 + 1) as u128 * 1000);
    let mut c = Countdown::new(t2.countdown.remaining_at(0));
    c.start_at(at(5_000));
    assert_eq!(c.remaining_at(6_000), (u64::MAX / 1000 + 1) as u128 * 1000 - 1_000);
}

#[test]
fn countdowns_on_the_monotonic_clock() {
    let mut clock = Clock::new();
    let mut c = Countdown::new(60_000);
    let before = c.remaining(&mut clock);
    assert_eq!(before, 60_000);
    c.start(&mut clock);
    assert!(c.running());
    assert!(c.ends_at_timestamp().is_some());
    let mid = c.remaining(&mut clock);
    assert!(mid <= 60_000);
    c.pause(&mut clock);
    let after = c.remaining(&mut clock);
    assert!(after <= mid);
    assert_eq!(c.remaining(&mut clock), after);
    assert!(!c.running());
    assert_eq!(c.ends_at_timestamp(), None);
    let restored = Countdown::from_data(0, Some(i64::MAX), &mut clock);
    assert!(restored.running());
    assert_eq!(restored.ends_at_timestamp(), Some(i64::MAX));
}
