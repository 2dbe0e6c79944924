use twitchapi::digits::encode_uint_as_numeric_string;
use twitchapi::timestamp::encode_assumed_utc_timestamp;
use twitchapi::{decode_assumed_utc_timestamp, decode_numeric_string_as_uint, Timestamp};

#[test]
fn numeric_string_decodes_plain_digits() {
    assert_eq!(decode_numeric_string_as_uint("id", "123").unwrap(), 123);
    assert_eq!(decode_numeric_string_as_uint("id", "0").unwrap(), 0);
    assert_eq!(decode_numeric_string_as_uint("id", "007").unwrap(), 7);
    assert_eq!(
        decode_numeric_string_as_uint("id", "18446744073709551615").unwrap(),
        u64::MAX
    );
}

#[test]
fn numeric_string_rejects_non_digits() {
    assert!(decode_numeric_string_as_uint("id", "12a").is_err());
    assert!(decode_numeric_string_as_uint("id", "-5").is_err());
    assert!(decode_numeric_string_as_uint("id", "+5").is_err());
    assert!(decode_numeric_string_as_uint("id", "").is_err());
    assert!(decode_numeric_string_as_uint("id", " 1").is_err());
    assert!(decode_numeric_string_as_uint("id", "1 ").is_err());
    assert!(decode_numeric_string_as_uint("id", "1.0").is_err());
}

#[test]
fn numeric_string_rejects_overflow() {
    assert!(decode_numeric_string_as_uint("id", "18446744073709551616").is_err());
    assert!(decode_numeric_string_as_uint("id", "99999999999999999999999").is_err());
}

#[test]
fn numeric_string_error_retains_field_and_value() {
    let e = decode_numeric_string_as_uint("game_id", "12a").unwrap_err();
    assert_eq!(e.field, "game_id");
    assert_eq!(e.value, "12a");
}

#[test]
fn timestamp_decodes_wire_shape() {
    let t = decode_assumed_utc_timestamp("started_at", "2023-01-15T10:30:00Z").unwrap();
    assert_eq!(
        t,
        Timestamp { year: 2023, month: 1, day: 15, hour: 10, minute: 30, second: 0 }
    );
}

#[test]
fn timestamp_rejects_missing_suffix_and_malformed_dates() {
    assert!(decode_assumed_utc_timestamp("started_at", "2023-01-15T10:30:00").is_err());
    assert!(decode_assumed_utc_timestamp("started_at", "2023-01-15 10:30:00Z").is_err());
    assert!(decode_assumed_utc_timestamp("started_at", "2023-13-01T00:00:00Z").is_err());
    assert!(decode_assumed_utc_timestamp("started_at", "2023-00-01T00:00:00Z").is_err());
    assert!(decode_assumed_utc_timestamp("started_at", "2023-01-32T00:00:00Z").is_err());
    assert!(decode_assumed_utc_timestamp("started_at", "2023-01-00T00:00:00Z").is_err());
    assert!(decode_assumed_utc_timestamp("started_at", "2023-01-15T24:00:00Z").is_err());
    assert!(decode_assumed_utc_timestamp("started_at", "2023-01-15T10:60:00Z").is_err());
    assert!(decode_assumed_utc_timestamp("started_at", "2023-01-15T10:30:60Z").is_err());
    assert!(decode_assumed_utc_timestamp("started_at", "not a time").is_err());
    assert!(decode_assumed_utc_timestamp("started_at", "").is_err());
}

#[test]
fn timestamp_knows_leap_years() {
    assert!(decode_assumed_utc_timestamp("started_at", "2024-02-29T00:00:00Z").is_ok());
    assert!(decode_assumed_utc_timestamp("started_at", "2023-02-29T00:00:00Z").is_err());
    assert!(decode_assumed_utc_timestamp("started_at", "2000-02-29T00:00:00Z").is_ok());
    assert!(decode_assumed_utc_timestamp("started_at", "1900-02-29T00:00:00Z").is_err());
}

#[test]
fn timestamp_error_retains_field_and_value() {
    let e = decode_assumed_utc_timestamp("started_at", "nope").unwrap_err();
    assert_eq!(e.field, "started_at");
    assert_eq!(e.value, "nope");
}

#[test]
fn uint_encoding_round_trips() {
    assert_eq!(encode_uint_as_numeric_string(0), "0");
    assert_eq!(encode_uint_as_numeric_string(123), "123");
    assert_eq!(encode_uint_as_numeric_string(u64::MAX), "18446744073709551615");
    assert_eq!(
        decode_numeric_string_as_uint("id", &encode_uint_as_numeric_string(98765)).unwrap(),
        98765
    );
}

#[test]
fn timestamp_encoding_round_trips() {
    let t = Timestamp { year: 2023, month: 1, day: 15, hour: 10, minute: 30, second: 0 };
    let s = encode_assumed_utc_timestamp(&t);
    assert_eq!(s, "2023-01-15T10:30:00Z");
    assert_eq!(decode_assumed_utc_timestamp("started_at", &s).unwrap(), t);
    let t2 = Timestamp { year: 4, month: 12, day: 9, hour: 0, minute: 5, second: 59 };
    let s2 = encode_assumed_utc_timestamp(&t2);
    assert_eq!(s2, "0004-12-09T00:05:59Z");
    assert_eq!(decode_assumed_utc_timestamp("started_at", &s2).unwrap(), t2);
}
