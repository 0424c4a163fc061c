use feed_ingest::dates::{
    date_le, days_in_month, is_leap_year, is_valid_date, parse_date, sub_months, Date,
};

fn ymd(year: i32, month: u32, day: u32) -> Date {
    Date { year, month, day }
}

#[test]
fn parses_internet_message_format_timestamps() {
    let d = parse_date(&"Tue, 20 Feb 2024 10:15:00 GMT".to_string());
    assert_eq!(d, Some(ymd(2024, 2, 20)));
}

#[test]
fn parses_rfc3339_timestamps() {
    let d = parse_date(&"2024-02-20T10:15:00+00:00".to_string());
    assert_eq!(d, Some(ymd(2024, 2, 20)));
}

#[test]
fn parses_bare_dates() {
    let d = parse_date(&"2024-02-20".to_string());
    assert_eq!(d, Some(ymd(2024, 2, 20)));
}

#[test]
fn rejects_text_matching_no_format() {
    assert_eq!(parse_date(&"not a date".to_string()), None);
    assert_eq!(parse_date(&"".to_string()), None);
    assert_eq!(parse_date(&"2024/02/20".to_string()), None);
}

#[test]
fn subtracts_whole_months() {
    assert_eq!(sub_months(&ymd(2024, 3, 15), 1), Some(ymd(2024, 2, 15)));
    assert_eq!(sub_months(&ymd(2024, 3, 15), 0), Some(ymd(2024, 3, 15)));
    assert_eq!(sub_months(&ymd(2024, 1, 15), 1), Some(ymd(2023, 12, 15)));
    assert_eq!(sub_months(&ymd(2022, 2, 20), 6), Some(ymd(2021, 8, 20)));
}

#[test]
fn clamps_the_day_into_shorter_months() {
    assert_eq!(sub_months(&ymd(2024, 3, 31), 1), Some(ymd(2024, 2, 29)));
    assert_eq!(sub_months(&ymd(2023, 3, 31), 1), Some(ymd(2023, 2, 28)));
    assert_eq!(sub_months(&ymd(2024, 7, 31), 1), Some(ymd(2024, 6, 30)));
}

#[test]
fn fails_when_the_subtraction_leaves_the_year_range() {
    assert_eq!(sub_months(&ymd(2024, 3, 15), u32::MAX), None);
    assert_eq!(sub_months(&ymd(-262143, 1, 15), 1), None);
}

#[test]
fn knows_the_gregorian_leap_rule() {
    assert!(is_leap_year(2024));
    assert!(!is_leap_year(1900));
    assert!(is_leap_year(2000));
    assert!(!is_leap_year(2023));
    assert_eq!(days_in_month(2024, 2), 29);
    assert_eq!(days_in_month(1900, 2), 28);
    assert_eq!(days_in_month(2024, 4), 30);
    assert_eq!(days_in_month(2024, 1), 31);
}

#[test]
fn orders_dates_by_calendar() {
    assert!(date_le(&ymd(2024, 2, 15), &ymd(2024, 2, 20)));
    assert!(date_le(&ymd(2024, 2, 20), &ymd(2024, 2, 20)));
    assert!(!date_le(&ymd(2024, 2, 21), &ymd(2024, 2, 20)));
    assert!(date_le(&ymd(2023, 12, 31), &ymd(2024, 1, 1)));
}

#[test]
fn validates_dates() {
    assert!(is_valid_date(&ymd(2024, 2, 29)));
    assert!(!is_valid_date(&ymd(2023, 2, 29)));
    assert!(!is_valid_date(&ymd(2024, 13, 1)));
    assert!(!is_valid_date(&ymd(2024, 0, 1)));
    assert!(!is_valid_date(&ymd(2024, 1, 0)));
}
