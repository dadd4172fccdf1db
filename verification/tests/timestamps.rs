use madcap_fast::clock::{now_unix_s, unix_seconds_or_zero};
use madcap_fast::isotime::{days_since_epoch, parse_iso_fields, parse_iso_utc};

#[test]
fn days_since_epoch_known_dates() {
    assert_eq!(days_since_epoch(1970, 1, 1), Some(0));
    assert_eq!(days_since_epoch(1969, 12, 31), Some(-1));
    assert_eq!(days_since_epoch(2000, 3, 1), Some(11017));
    assert_eq!(days_since_epoch(2024, 2, 29), Some(19782));
}

#[test]
fn days_since_epoch_day_past_month_end() {
    assert_eq!(days_since_epoch(2024, 2, 31), days_since_epoch(2024, 3, 2));
}

#[test]
fn days_since_epoch_rejects_out_of_range() {
    assert_eq!(days_since_epoch(2024, 0, 1), None);
    assert_eq!(days_since_epoch(2024, 13, 1), None);
    assert_eq!(days_since_epoch(2024, 1, 0), None);
    assert_eq!(days_since_epoch(2024, 1, 32), None);
}

#[test]
fn days_since_epoch_four_centuries() {
    let a = days_since_epoch(1625, 7, 14).unwrap();
    let b = days_since_epoch(2025, 7, 14).unwrap();
    assert_eq!(b - a, 146097);
}

#[test]
fn parse_iso_utc_naive_timestamp() {
    assert_eq!(parse_iso_utc("2026-04-21T12:34:56"), Some(1776774896));
    assert_eq!(parse_iso_utc("1970-01-01T00:00:00"), Some(0));
}

#[test]
fn parse_iso_utc_ignores_fraction_and_zone() {
    assert_eq!(parse_iso_utc("2026-04-21T12:34:56.789"), Some(1776774896));
    assert_eq!(parse_iso_utc("2026-04-21T12:34:56Z"), Some(1776774896));
    assert_eq!(parse_iso_utc("2026-04-21T12:34:56.5Z"), Some(1776774896));
    assert_eq!(parse_iso_utc("2026-04-21T12:34:56ZZ"), Some(1776774896));
}

#[test]
fn parse_iso_utc_failures() {
    assert_eq!(parse_iso_utc("2026-04-21"), None);
    assert_eq!(parse_iso_utc("2026-04-21T12:34"), None);
    assert_eq!(parse_iso_utc("2026-13-01T00:00:00"), None);
    assert_eq!(parse_iso_utc("2026-04-21T12:34:56+02:00"), None);
    assert_eq!(parse_iso_utc("-2026-04-21T00:00:00"), None);
    assert_eq!(parse_iso_utc("2026-04-xxT00:00:00"), None);
    assert_eq!(parse_iso_utc(""), None);
}

#[test]
fn parse_iso_utc_lenient_fields() {
    // extra date or time items are ignored, a leading '+' is accepted
    assert_eq!(parse_iso_utc("2026-04-21-9T12:34:56:7"), Some(1776774896));
    assert_eq!(parse_iso_utc("+2026-04-21T12:34:56"), Some(1776774896));
}

#[test]
fn parse_iso_fields_reads_numbers() {
    let f = parse_iso_fields("2026-04-21T12:34:56").unwrap();
    assert_eq!((f.year, f.month, f.day, f.hour, f.minute, f.second), (2026, 4, 21, 12, 34, 56));
    assert!(parse_iso_fields("nope").is_none());
}

#[test]
fn unix_seconds_default_and_value() {
    assert_eq!(unix_seconds_or_zero(None), 0);
    assert_eq!(unix_seconds_or_zero(Some(1776774896)), 1776774896);
}

#[test]
fn now_is_after_2024() {
    assert!(now_unix_s() > 1_700_000_000);
}

#[test]
fn next_date_is_the_next_day_across_month_and_year_ends() {
    let d = |y, m, dd| days_since_epoch(y, m, dd).unwrap();
    assert_eq!(d(1970, 1, 1), 0);
    assert_eq!(d(2024, 2, 29) + 1, d(2024, 3, 1));
    assert_eq!(d(2023, 2, 28) + 1, d(2023, 3, 1));
    assert_eq!(d(1900, 2, 28) + 1, d(1900, 3, 1));
    assert_eq!(d(2000, 2, 29) + 1, d(2000, 3, 1));
    assert_eq!(d(2023, 12, 31) + 1, d(2024, 1, 1));
    assert_eq!(d(2023, 4, 30) + 1, d(2023, 5, 1));
    assert_eq!(d(2023, 1, 31) + 1, d(2023, 2, 1));
    assert_eq!(d(1569, 7, 4) + 146097, d(1969, 7, 4));
}

#[test]
fn padded_timestamps_read_back() {
    for &(y, m, dd, h, mi, s) in &[(1970u32, 1u32, 1u32, 0u32, 0u32, 0u32), (2026, 4, 21, 12, 34, 56), (7, 12, 31, 23, 59, 59)] {
        let text = format!("{:04}-{:02}-{:02}T{:02}:{:02}:{:02}", y, m, dd, h, mi, s);
        let expected = days_since_epoch(y as i32, m, dd).unwrap() * 86400 + (h as i64) * 3600 + (mi as i64) * 60 + s as i64;
        assert_eq!(parse_iso_utc(&text), Some(expected));
        assert_eq!(parse_iso_utc(&format!("{text}Z")), Some(expected));
        assert_eq!(parse_iso_utc(&format!("{text}.123")), Some(expected));
        assert_eq!(parse_iso_utc(&format!("{text}.5Z")), Some(expected));
    }
    assert_eq!(parse_iso_utc("2026-04-21T12:34:56"), Some(1_776_774_896));
}
