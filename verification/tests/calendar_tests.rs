use duetime::agenda::{events_roll_in_calendar, roll_reaches, update_repeating_events_on, AgendaEvent};
use duetime::dates::{add_days, current_date, day_count, day_diff, has_days_after, instant_for_date, Date, LAST_LOCAL_MS};
use duetime::tasks::{format_time, time_fits, LAST_INSTANT_MS};

fn d(year: i32, month: u32, day: u32) -> Date {
    Date { year, month, day }
}

#[test]
fn day_counts_from_the_epoch() {
    assert_eq!(day_count(d(1970, 1, 1)), 0);
    assert_eq!(day_count(d(1970, 1, 2)), 1);
    assert_eq!(day_count(d(1969, 12, 31)), -1);
    assert_eq!(day_count(d(2000, 1, 1)), 10957);
    assert_eq!(day_count(d(2024, 3, 1)), 19783);
    assert_eq!(day_count(d(2024, 2, 29)), 19782);
    assert_eq!(day_count(d(0, 1, 1)), -719528);
    assert_eq!(day_count(d(262142, 12, 31)) + 1, 95026237);
}

#[test]
fn day_counts_agree_with_differences() {
    let pairs = [(d(2024, 3, 1), d(2024, 2, 28)), (d(2023, 1, 1), d(2024, 12, 31)), (d(-5, 3, 1), d(1970, 1, 1))];
    for (a, b) in pairs {
        assert_eq!(day_diff(a, b), day_count(a) - day_count(b));
    }
    assert_eq!(day_diff(d(2024, 3, 1), d(2024, 2, 28)), 2);
    assert_eq!(day_diff(d(2023, 3, 1), d(2023, 2, 28)), 1);
}

#[test]
fn adding_days_moves_the_count() {
    let start = d(2024, 2, 28);
    for n in [0u32, 1, 2, 30, 365, 1000] {
        let later = add_days(start, n);
        assert_eq!(day_count(later), day_count(start) + n as i64);
        assert_eq!(day_diff(later, start), n as i64);
    }
    assert_eq!(add_days(start, 2), d(2024, 3, 1));
    assert_eq!(add_days(d(262142, 12, 1), 30), d(262142, 12, 31));
}

#[test]
fn the_window_fits_until_a_month_before_the_last_date() {
    assert!(has_days_after(d(2024, 5, 1), 30));
    assert!(has_days_after(d(262142, 6, 1), 30));
    assert!(has_days_after(d(262142, 12, 1), 30));
    assert!(!has_days_after(d(262142, 12, 2), 30));
    assert!(has_days_after(d(262142, 12, 31), 0));
}

#[test]
fn times_past_the_last_date_are_refused() {
    assert!(time_fits(None));
    assert!(time_fits(Some(0)));
    assert!(time_fits(Some(LAST_INSTANT_MS)));
    assert!(!time_fits(Some(LAST_INSTANT_MS + 1)));
    assert!(!time_fits(Some(u64::MAX)));
}

#[test]
fn moments_show_as_hours_and_minutes() {
    for t in [Some(0u64), Some(1_700_000_000_000), Some(LAST_INSTANT_MS)] {
        let s = format_time(t);
        assert_eq!(s.chars().count(), 5);
        assert_eq!(s.chars().nth(2), Some(':'));
        let hours: u32 = s[0..2].parse().unwrap();
        let minutes: u32 = s[3..5].parse().unwrap();
        assert!(hours < 24 && minutes < 60);
    }
    assert_eq!(format_time(None), "");
}

#[test]
fn repeating_events_roll_within_the_last_year() {
    let today = d(262142, 3, 1);
    assert!(roll_reaches(d(262141, 6, 1), today));
    assert!(!roll_reaches(d(262141, 2, 1), today));
    assert!(roll_reaches(d(2024, 5, 1), d(2025, 1, 1)));
    let mut events = vec![
        AgendaEvent { name: "yearly".to_string(), date: d(262141, 6, 1), time: None, repeat: true },
        AgendaEvent { name: "once".to_string(), date: d(262141, 2, 1), time: None, repeat: false },
    ];
    assert!(events_roll_in_calendar(&events, today));
    update_repeating_events_on(&mut events, today);
    assert_eq!(events[0].date, d(262142, 6, 1));
    assert_eq!(events[1].date, d(262141, 2, 1));
    let late = vec![AgendaEvent { name: "late".to_string(), date: d(262141, 2, 1), time: None, repeat: true }];
    assert!(!events_roll_in_calendar(&late, today));
}

#[test]
fn today_comes_from_a_clamped_instant() {
    assert_eq!(instant_for_date(0), 0);
    assert_eq!(instant_for_date(1_700_000_000_000), 1_700_000_000_000);
    assert_eq!(instant_for_date(LAST_LOCAL_MS), LAST_LOCAL_MS);
    assert_eq!(instant_for_date(u64::MAX), LAST_LOCAL_MS);
    let today = current_date();
    assert!(today.year >= 1969 && (1..=12).contains(&today.month));
}
