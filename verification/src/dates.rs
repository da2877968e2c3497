//! Calendar dates and times of day.
use vstd::prelude::*;
use chrono::{Datelike, Timelike};
use crate::text::{format_two_digits, string_of, two_digits, chars_of};

verus! {

/// A date of the proleptic Gregorian calendar.
#[derive(Clone, Copy, Debug, PartialEq, Eq, Structural)]
pub struct Date {
    pub year: i32,
    pub month: u32,
    pub day: u32,
}

/// The first year a date can have.
pub open spec fn min_year() -> int {
    -262143
}

/// The last year a date can have.
pub open spec fn max_year() -> int {
    262142
}

/// Whether `y` is a leap year.
pub open spec fn is_leap(y: int) -> bool {
    (y % 4 == 0 && y % 100 != 0) || y % 400 == 0
}

/// The number of days in month `m` of year `y`.
pub open spec fn days_in_month(y: int, m: int) -> int {
    if m == 2 {
        if is_leap(y) { 29 } else { 28 }
    } else if m == 4 || m == 6 || m == 9 || m == 11 {
        30
    } else {
        31
    }
}

/// Whether year, month and day name a day that exists.
pub open spec fn valid_ymd(y: int, m: int, d: int) -> bool {
    &&& min_year() <= y <= max_year()
    &&& 1 <= m <= 12
    &&& 1 <= d <= days_in_month(y, m)
}

/// Whether a date names a day that exists.
pub open spec fn valid_date(d: Date) -> bool {
    valid_ymd(d.year as int, d.month as int, d.day as int)
}

/// Whether `a` is earlier than `b`.
pub open spec fn date_lt(a: Date, b: Date) -> bool {
    a.year < b.year || (a.year == b.year && (a.month < b.month || (a.month == b.month && a.day < b.day)))
}

/// Whether `a` is not later than `b`.
pub open spec fn date_le(a: Date, b: Date) -> bool {
    date_lt(a, b) || a == b
}

/// The last date chrono holds: 31 December of the last year.
pub open spec fn last_date() -> Date {
    Date { year: 262142, month: 12, day: 31 }
}

/// The number of days from 1 January 1970 to `d` (negative before it), by
/// counting whole 400-year cycles and the days before `d` in its cycle,
/// with March taken as the first month so that 29 February ends a year.
/// The year is shifted by whole cycles so that every division is of a
/// number that is not negative.
pub open spec fn day_number(d: Date) -> int {
    let y: int = (if d.month <= 2 { d.year - 1 } else { d.year as int }) + 400 * 700;
    let era: int = y / 400;
    let yoe: int = y % 400;
    let mp: int = if d.month > 2 { d.month - 3 } else { d.month + 9 };
    let doy: int = (153 * mp + 2) / 5 + d.day - 1;
    let doe: int = yoe * 365 + yoe / 4 - yoe / 100 + doy;
    (era - 700) * 146097 + doe - 719468
}

/// Whether the date `n` days after `d` is still one that chrono holds.
pub open spec fn fits_days_after(d: Date, n: int) -> bool {
    valid_date(d) && 0 <= n && day_number(d) + n <= day_number(last_date())
}

/// The date `n` days after `d`: the date that exists and lies `n` further
/// in the count of days (there is only one such date).
pub open spec fn date_plus_days(d: Date, n: u32) -> Date {
    choose|r: Date| valid_date(r) && day_number(r) == day_number(d) + n
}

/// The date that `NaiveDate::parse_from_str(s, "%d-%m-%y")` reads.
pub uninterp spec fn parsed_dmy(s: Seq<char>) -> Option<Date>;

/// The seconds after midnight that `NaiveTime::parse_from_str(s, "%H:%M")`
/// reads.
pub uninterp spec fn parsed_hm(s: Seq<char>) -> Option<u32>;

/// `NaiveDate::from_ymd_opt`: the date with these parts, if it exists.
#[verifier::external_body]
fn ymd_opt(y: i32, m: u32, d: u32) -> (r: Option<Date>)
    ensures
        r == (if valid_ymd(y as int, m as int, d as int) { Some(Date { year: y, month: m, day: d }) } else { None }),
{
    match chrono::NaiveDate::from_ymd_opt(y, m, d) {
        Some(n) => Some(Date { year: n.year(), month: n.month(), day: n.day() }),
        None => None,
    }
}

/// The last millisecond after the Unix epoch whose local date chrono holds
/// in every time zone: a day before the last instant it holds,
/// 31 December 262142, 23:59:59.999 UTC.
pub const LAST_LOCAL_MS: u64 = 8210180476799999;

/// `DateTime::from_timestamp_millis(ms).with_timezone(&Local).date_naive()`:
/// the date in the machine's time zone at the instant `ms` milliseconds
/// after the Unix epoch. Which day that is depends on the time zone, so
/// nothing is claimed but that it is a date that exists; the instant is
/// kept a day short of the last one chrono holds, so that no time zone
/// moves it past the last date.
#[verifier::external_body]
fn local_date_of(ms: u64) -> (r: Date)
    requires
        ms <= LAST_LOCAL_MS,
    ensures
        valid_date(r),
{
    let utc = chrono::DateTime::from_timestamp_millis(ms as i64).unwrap();
    let n = utc.with_timezone(&chrono::Local).date_naive();
    Date { year: n.year(), month: n.month(), day: n.day() }
}

/// `NaiveDate + Duration::days(n)`: the date `n` days later: a date that
/// exists, `n` days further in the count of days, so the one date that
/// `date_plus_days` describes, and not earlier than `d` (later when `n` is
/// not zero). The sum panics past the last date chrono holds, so that is
/// left out.
#[verifier::external_body]
fn plus_days(d: Date, n: u32) -> (r: Date)
    requires
        fits_days_after(d, n as int),
    ensures
        r == date_plus_days(d, n),
        valid_date(r),
        day_number(r) == day_number(d) + n,
        date_le(d, r),
        n > 0 ==> date_lt(d, r),
{
    let n0 = chrono::NaiveDate::from_ymd_opt(d.year, d.month, d.day).unwrap();
    let r = n0 + chrono::Duration::days(n as i64);
    Date { year: r.year(), month: r.month(), day: r.day() }
}

/// `(a - b).num_days()`: the number of days from `b` to `a`.
#[verifier::external_body]
fn days_between(a: Date, b: Date) -> (r: i64)
    requires
        valid_date(a),
        valid_date(b),
    ensures
        r == day_number(a) - day_number(b),
{
    let na = chrono::NaiveDate::from_ymd_opt(a.year, a.month, a.day).unwrap();
    let nb = chrono::NaiveDate::from_ymd_opt(b.year, b.month, b.day).unwrap();
    (na - nb).num_days()
}

/// `NaiveDate::parse_from_str(s, "%d-%m-%y")`: the date that the text
/// spells as day, month and two-digit year, named `parsed_dmy`; a date that
/// exists when there is one.
#[verifier::external_body]
fn parse_dmy_text(s: &str) -> (r: Option<Date>)
    ensures
        r == parsed_dmy(s@),
        r matches Some(d) ==> valid_date(d),
{
    match chrono::NaiveDate::parse_from_str(s, "%d-%m-%y") {
        Ok(n) => Some(Date { year: n.year(), month: n.month(), day: n.day() }),
        Err(_) => None,
    }
}

/// `NaiveTime::parse_from_str(s, "%H:%M")`: the time of day that the text
/// spells as hours and minutes, in seconds after midnight, named
/// `parsed_hm`; less than a day when there is one.
#[verifier::external_body]
fn parse_hm_text(s: &str) -> (r: Option<u32>)
    ensures
        r == parsed_hm(s@),
        r matches Some(t) ==> t < 86400,
{
    match chrono::NaiveTime::parse_from_str(s, "%H:%M") {
        Ok(t) => Some(t.num_seconds_from_midnight()),
        Err(_) => None,
    }
}

/// The instant whose local date is taken as today for a wall-clock
/// reading of `ms` milliseconds since the epoch: the reading itself, or the
/// last instant whose local date chrono holds when the clock is past it.
pub open spec fn date_instant(ms: u64) -> u64 {
    if ms <= LAST_LOCAL_MS { ms } else { LAST_LOCAL_MS }
}

/// The instant whose local date is taken as today for a wall-clock
/// reading.
pub fn instant_for_date(ms: u64) -> (r: u64)
    ensures
        r == date_instant(ms),
{
    if ms <= LAST_LOCAL_MS { ms } else { LAST_LOCAL_MS }
}

/// Today's date in the machine's time zone. A clock set before the epoch
/// reads as the epoch, and one past the last date chrono holds as the last
/// instant whose date it holds.
pub fn current_date() -> (r: Date)
    ensures
        valid_date(r),
{
    let ms = instant_for_date(crate::clock::now_millis());
    local_date_of(ms)
}

/// The date with these parts, if it exists.
pub fn date_from_ymd(y: i32, m: u32, d: u32) -> (r: Option<Date>)
    ensures
        r == (if valid_ymd(y as int, m as int, d as int) { Some(Date { year: y, month: m, day: d }) } else { None }),
{
    ymd_opt(y, m, d)
}

/// The date `n` days after `d`.
pub fn add_days(d: Date, n: u32) -> (r: Date)
    requires
        fits_days_after(d, n as int),
    ensures
        r == date_plus_days(d, n),
        valid_date(r),
        day_number(r) == day_number(d) + n,
        date_le(d, r),
        n > 0 ==> date_lt(d, r),
{
    plus_days(d, n)
}

/// The number of days from `b` to `a`.
pub fn day_diff(a: Date, b: Date) -> (r: i64)
    requires
        valid_date(a),
        valid_date(b),
    ensures
        r == day_number(a) - day_number(b),
{
    days_between(a, b)
}

/// The number of days from 1 January 1970 to a date that exists.
pub fn day_count(d: Date) -> (r: i64)
    requires
        valid_date(d),
    ensures
        r == day_number(d),
{
    let y: i64 = (if d.month <= 2 { d.year as i64 - 1 } else { d.year as i64 }) + 400 * 700;
    let era: i64 = y / 400;
    let yoe: i64 = y % 400;
    let m: i64 = d.month as i64;
    let mp: i64 = if m > 2 { m - 3 } else { m + 9 };
    let doy: i64 = (153 * mp + 2) / 5 + d.day as i64 - 1;
    let doe: i64 = yoe * 365 + yoe / 4 - yoe / 100 + doy;
    (era - 700) * 146097 + doe - 719468
}

/// Whether the date `n` days after the date `d` is still one that chrono
/// holds.
pub fn has_days_after(d: Date, n: u32) -> (r: bool)
    requires
        valid_date(d),
    ensures
        r == fits_days_after(d, n as int),
{
    let last = Date { year: 262142, month: 12, day: 31 };
    day_count(d) + n as i64 <= day_count(last)
}


/// Reads a `DD-MM-YY` date.
pub fn parse_dmy(s: &str) -> (r: Option<Date>)
    ensures
        r == parsed_dmy(s@),
        r matches Some(d) ==> valid_date(d),
{
    parse_dmy_text(s)
}

/// Reads an `HH:MM` time as seconds after midnight.
pub fn parse_hm(s: &str) -> (r: Option<u32>)
    ensures
        r == parsed_hm(s@),
        r matches Some(t) ==> t < 86400,
{
    parse_hm_text(s)
}

/// Whether `a` is earlier than `b`.
pub fn is_before(a: Date, b: Date) -> (r: bool)
    ensures
        r == date_lt(a, b),
{
    a.year < b.year || (a.year == b.year && (a.month < b.month || (a.month == b.month && a.day < b.day)))
}

/// Whether `a` is not later than `b`.
pub fn is_not_after(a: Date, b: Date) -> (r: bool)
    ensures
        r == date_le(a, b),
{
    is_before(a, b) || a == b
}

/// `d` with its year set to `y`, if that day exists; as
/// `Datelike::with_year` does.
pub fn with_year(d: Date, y: i32) -> (r: Option<Date>)
    ensures
        r == (if valid_ymd(y as int, d.month as int, d.day as int) { Some(Date { year: y, ..d }) } else { None }),
{
    date_from_ymd(y, d.month, d.day)
}

/// `d` with its day of the month set to `day`, if that day exists; as
/// `Datelike::with_day` does.
pub fn with_day(d: Date, day: u32) -> (r: Option<Date>)
    ensures
        r == (if valid_ymd(d.year as int, d.month as int, day as int) { Some(Date { day, ..d }) } else { None }),
{
    date_from_ymd(d.year, d.month, day)
}

/// `year mod 100`, always between 0 and 99.
pub open spec fn year_of_century(y: int) -> nat {
    (y % 100) as nat
}

/// A date written as `DD-MM-YY`, as chrono's `%d-%m-%y` writes it.
pub open spec fn dmy_text(d: Date) -> Seq<char> {
    two_digits(d.day as nat) + seq!['-'] + two_digits(d.month as nat) + seq!['-'] + two_digits(year_of_century(d.year as int))
}

/// A time of day written as `HH:MM`, as chrono's `%H:%M` writes it.
pub open spec fn hm_text(secs: nat) -> Seq<char> {
    two_digits((secs / 3600) % 24) + seq![':'] + two_digits((secs % 3600) / 60)
}

/// Writes a date as `DD-MM-YY`.
pub fn format_dmy(d: Date) -> (s: String)
    ensures
        s@ == dmy_text(d),
{
    let yy = (d.year % 100 + 100) % 100;
    assert(yy == (d.year as int) % 100);
    let mut out: Vec<char> = Vec::new();
    let dd = format_two_digits(d.day as u64);
    let mm = format_two_digits(d.month as u64);
    let yr = format_two_digits(yy as u64);
    let mut a = chars_of(dd.as_str());
    let mut b = chars_of(mm.as_str());
    let mut c = chars_of(yr.as_str());
    out.append(&mut a);
    out.push('-');
    out.append(&mut b);
    out.push('-');
    out.append(&mut c);
    assert(out@ =~= dmy_text(d));
    string_of(out.as_slice())
}

/// Writes seconds after midnight as `HH:MM`.
pub fn format_hm(secs: u32) -> (s: String)
    ensures
        s@ == hm_text(secs as nat),
{
    let mut out: Vec<char> = Vec::new();
    let hh = format_two_digits(((secs / 3600) % 24) as u64);
    let mm = format_two_digits(((secs % 3600) / 60) as u64);
    let mut a = chars_of(hh.as_str());
    let mut b = chars_of(mm.as_str());
    out.append(&mut a);
    out.push(':');
    out.append(&mut b);
    assert(out@ =~= hm_text(secs as nat));
    string_of(out.as_slice())
}

/// Dates are ordered: never both before and after each other.
pub proof fn lemma_date_order(a: Date, b: Date, c: Date)
    ensures
        !(date_lt(a, b) && date_lt(b, a)),
        date_lt(a, b) && date_lt(b, c) ==> date_lt(a, c),
        date_lt(a, b) || date_lt(b, a) || a == b,
{
}

} // verus!
