use duetime::text::{chars_of, contains, decimal_chars, format_two_digits, format_u64, parse_u64, split_chars, starts_with, string_of};

fn chars(s: &str) -> Vec<char> {
    s.chars().collect()
}

#[test]
fn chars_round_trip() {
    let v = chars_of("héllo");
    assert_eq!(v, vec!['h', 'é', 'l', 'l', 'o']);
    assert_eq!(string_of(&v), "héllo");
}

#[test]
fn prefix_and_substring() {
    assert!(starts_with(&chars("planner"), &chars("plan")));
    assert!(!starts_with(&chars("plan"), &chars("planner")));
    assert!(contains(&chars("write the report"), &chars("the")));
    assert!(!contains(&chars("write the report"), &chars("xyz")));
    assert!(contains(&chars("abc"), &chars("")));
}

#[test]
fn decimal_formatting() {
    assert_eq!(format_u64(0), "0");
    assert_eq!(format_u64(1234), "1234");
    assert_eq!(format_u64(u64::MAX), "18446744073709551615");
    assert_eq!(decimal_chars(42), vec!['4', '2']);
    assert_eq!(format_two_digits(7), "07");
    assert_eq!(format_two_digits(59), "59");
}

#[test]
fn parse_decimal() {
    assert_eq!(parse_u64(&chars("0042")), Some(42));
    assert_eq!(parse_u64(&chars("18446744073709551615")), Some(u64::MAX));
    assert_eq!(parse_u64(&chars("18446744073709551616")), None);
    assert_eq!(parse_u64(&chars("")), None);
    assert_eq!(parse_u64(&chars("4a")), None);
    assert_eq!(parse_u64(&chars("-1")), None);
}

#[test]
fn split_on_separator() {
    let parts = split_chars(&chars("01:02:03"), ':');
    assert_eq!(parts, vec![chars("01"), chars("02"), chars("03")]);
    let parts = split_chars(&chars("::"), ':');
    assert_eq!(parts, vec![vec![], vec![], vec![]]);
    let parts = split_chars(&chars("abc"), ':');
    assert_eq!(parts, vec![chars("abc")]);
}
