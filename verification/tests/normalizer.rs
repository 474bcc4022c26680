//! Behavior of the timestamp normalizer on each supported date encoding
//! and on strings no encoding matches.

use ajour_catalog::datetime::normalize_date;
use ajour_catalog::model::UtcInstant;
use ajour_catalog::numeric::millis_to_seconds;
use ajour_catalog::numeric::parse_i64;

#[test]
fn rfc3339_utc_offset_normalizes() {
    let got = normalize_date("2021-05-01T12:00:00+00:00");
    assert_eq!(got, Some(UtcInstant { epoch_seconds: 1619870400 }));
}

#[test]
fn rfc3339_nonzero_offset_converts_to_utc() {
    let got = normalize_date("2021-05-01T14:00:00+02:00");
    assert_eq!(got, Some(UtcInstant { epoch_seconds: 1619870400 }));
}

#[test]
fn naive_datetime_is_read_as_utc() {
    let got = normalize_date("2021-05-01 12:00:00");
    assert_eq!(got, Some(UtcInstant { epoch_seconds: 1619870400 }));
}

#[test]
fn date_only_becomes_midnight() {
    let got = normalize_date("2021-05-01");
    assert_eq!(got, Some(UtcInstant { epoch_seconds: 1619827200 }));
}

#[test]
fn millisecond_epoch_is_truncated_to_seconds() {
    let got = normalize_date("1619870400000");
    assert_eq!(got, Some(UtcInstant { epoch_seconds: 1619870400 }));
}

#[test]
fn millisecond_remainder_is_dropped() {
    let got = normalize_date("1619870400999");
    assert_eq!(got, Some(UtcInstant { epoch_seconds: 1619870400 }));
}

#[test]
fn negative_millis_truncate_toward_zero() {
    let got = normalize_date("-1500");
    assert_eq!(got, Some(UtcInstant { epoch_seconds: -1 }));
}

#[test]
fn unmatched_strings_give_no_date() {
    assert_eq!(normalize_date("not a date"), None);
    assert_eq!(normalize_date("2021/05/01"), None);
    assert_eq!(normalize_date("99-99"), None);
    assert_eq!(normalize_date("12:00:00"), None);
    assert_eq!(normalize_date(""), None);
}

#[test]
fn overflowing_epoch_gives_no_date() {
    assert_eq!(normalize_date("9223372036854775808"), None);
}

#[test]
fn largest_epoch_still_parses() {
    let got = normalize_date("9223372036854775807");
    assert_eq!(got, Some(UtcInstant { epoch_seconds: 9223372036854775807 / 1000 }));
}

#[test]
fn parse_i64_reads_signs_and_rejects_junk() {
    assert_eq!(parse_i64("123"), Some(123));
    assert_eq!(parse_i64("+123"), Some(123));
    assert_eq!(parse_i64("-123"), Some(-123));
    assert_eq!(parse_i64("9223372036854775807"), Some(i64::MAX));
    assert_eq!(parse_i64("-9223372036854775808"), Some(i64::MIN));
    assert_eq!(parse_i64("9223372036854775808"), None);
    assert_eq!(parse_i64(""), None);
    assert_eq!(parse_i64("+"), None);
    assert_eq!(parse_i64("-"), None);
    assert_eq!(parse_i64("12 3"), None);
    assert_eq!(parse_i64(" 123"), None);
    assert_eq!(parse_i64("12a"), None);
}

#[test]
fn millis_to_seconds_truncates_both_signs() {
    assert_eq!(millis_to_seconds(1999), 1);
    assert_eq!(millis_to_seconds(-1999), -1);
    assert_eq!(millis_to_seconds(0), 0);
    assert_eq!(millis_to_seconds(i64::MIN), i64::MIN / 1000);
}
