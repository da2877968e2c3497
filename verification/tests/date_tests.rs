use duetime::dates::{add_days, date_from_ymd, day_diff, format_dmy, format_hm, is_before, is_not_after, parse_dmy, parse_hm, with_day, with_year, Date};

fn d(year: i32, month: u32, day: u32) -> Date {
    Date { year, month, day }
}

#[test]
fn dates_that_exist() {
    assert_eq!(date_from_ymd(2024, 2, 29), Some(d(2024, 2, 29)));
    assert_eq!(date_from_ymd(2023, 2, 29), None);
    assert_eq!(date_from_ymd(1900, 2, 29), None);
    assert_eq!(date_from_ymd(2000, 2, 29), Some(d(2000, 2, 29)));
    assert_eq!(date_from_ymd(2024, 13, 1), None);
    assert_eq!(date_from_ymd(2024, 4, 31), None);
    assert_eq!(date_from_ymd(2024, 0, 1), None);
}

#[test]
fn adding_days() {
    assert_eq!(add_days(d(2024, 12, 20), 30), d(2025, 1, 19));
    assert_eq!(add_days(d(2024, 2, 28), 1), d(2024, 2, 29));
    assert_eq!(add_days(d(2023, 2, 28), 1), d(2023, 3, 1));
    assert_eq!(add_days(d(2024, 5, 5), 0), d(2024, 5, 5));
}

#[test]
fn days_between_dates() {
    assert_eq!(day_diff(d(2024, 3, 1), d(2024, 2, 1)), 29);
    assert_eq!(day_diff(d(2024, 2, 1), d(2024, 3, 1)), -29);
    assert_eq!(day_diff(d(2025, 1, 1), d(2024, 1, 1)), 366);
}

#[test]
fn reading_dates_and_times() {
    assert_eq!(parse_dmy("05-03-24"), Some(d(2024, 3, 5)));
    assert_eq!(parse_dmy("31-02-24"), None);
    assert_eq!(parse_dmy("not a date"), None);
    assert_eq!(parse_hm("09:30"), Some(9 * 3600 + 30 * 60));
    assert_eq!(parse_hm("24:00"), None);
    assert_eq!(parse_hm("--:--"), None);
}

#[test]
fn writing_dates_and_times() {
    assert_eq!(format_dmy(d(2024, 3, 5)), "05-03-24");
    assert_eq!(format_dmy(d(1999, 12, 31)), "31-12-99");
    assert_eq!(format_hm(9 * 3600 + 5 * 60), "09:05");
    assert_eq!(format_hm(0), "00:00");
}

#[test]
fn written_date_reads_back() {
    let date = d(2031, 7, 14);
    assert_eq!(parse_dmy(&format_dmy(date)), Some(date));
    assert_eq!(parse_hm(&format_hm(13 * 3600 + 45 * 60)), Some(13 * 3600 + 45 * 60));
}

#[test]
fn comparing_dates() {
    assert!(is_before(d(2024, 1, 31), d(2024, 2, 1)));
    assert!(!is_before(d(2024, 2, 1), d(2024, 2, 1)));
    assert!(is_not_after(d(2024, 2, 1), d(2024, 2, 1)));
    assert!(!is_not_after(d(2025, 1, 1), d(2024, 12, 31)));
}

#[test]
fn changing_year_or_day() {
    assert_eq!(with_year(d(2024, 2, 29), 2025), None);
    assert_eq!(with_year(d(2024, 3, 1), 2025), Some(d(2025, 3, 1)));
    assert_eq!(with_day(d(2024, 2, 10), 28), Some(d(2024, 2, 28)));
    assert_eq!(with_day(d(2023, 2, 10), 29), None);
}
