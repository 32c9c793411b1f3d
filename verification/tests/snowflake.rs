use std::num::IntErrorKind;
use snownite::decimal::decimal_string;
use snownite::decimal::trim_str;
use snownite::snowflake::parse_id;
use snownite::snowflake::timestamp_to_chrono;
use snownite::snowflake::Snowflake;
use snownite::snowflake::SnowflakeError;
use snownite::snowflake::Timestamp;
use snownite::snowflake::CHRONO_MAX_UTC_MILLIS;
use snownite::snowflake::DISCORD_EPOCH_MS;

#[test]
fn parses_snowflake_id() {
    let parsed = parse_id("1480908521355874518");
    match parsed {
        Ok(value) => assert_eq!(value, 1_480_908_521_355_874_518),
        Err(error) => panic!("expected valid snowflake id: {}", error.to_string()),
    }
}

#[test]
fn rejects_empty_id() {
    let error = parse_id(" ");
    assert!(matches!(error, Err(SnowflakeError::EmptyId)));
}

#[test]
fn decodes_snowflake_fields() {
    let value = Snowflake::from_raw(1_480_908_521_355_874_518);
    assert_eq!(value.timestamp_ms, 1_773_146_505_441);

    let rebuilt = ((value.timestamp_ms - DISCORD_EPOCH_MS) << 22)
        | ((value.worker_id as u64) << 17)
        | ((value.process_id as u64) << 12)
        | (value.increment as u64);
    assert_eq!(rebuilt, value.raw);
}

#[test]
fn converts_snowflake_to_chrono() {
    let value = Snowflake::from_raw(1_480_908_521_355_874_518);
    let datetime = match value.to_chrono() {
        Ok(value) => value,
        Err(error) => panic!("expected valid chrono conversion: {}", error.to_string()),
    };

    assert_eq!(datetime.timestamp_millis(), value.timestamp_ms as i64);
}

#[test]
fn rejects_out_of_range_timestamp_for_chrono() {
    let timestamp = (i64::MAX as u64) + 1;
    let result = timestamp_to_chrono(timestamp);

    assert!(matches!(
        result,
        Err(SnowflakeError::TimestampOutOfRange(value)) if value == timestamp
    ));
}

#[test]
fn parse_id_trims_unicode_white_space() {
    assert_eq!(parse_id(" \t42\n").unwrap(), 42);
    assert_eq!(parse_id("\u{3000}12\u{a0}").unwrap(), 12);
    assert_eq!(parse_id("\u{2028}7\u{85}").unwrap(), 7);
    assert!(matches!(parse_id("\u{a0}\u{2000}"), Err(SnowflakeError::EmptyId)));
    assert!(matches!(parse_id(""), Err(SnowflakeError::EmptyId)));
}

#[test]
fn parse_id_accepts_plus_sign_and_bounds() {
    assert_eq!(parse_id("+7").unwrap(), 7);
    assert_eq!(parse_id("0").unwrap(), 0);
    assert_eq!(parse_id("007").unwrap(), 7);
    assert_eq!(parse_id("18446744073709551615").unwrap(), u64::MAX);
}

#[test]
fn parse_id_rejects_invalid_text() {
    for text in ["abc", "-1", "+", "1 2", "12a", "18446744073709551616", "\u{0663}"] {
        assert!(
            matches!(parse_id(text), Err(SnowflakeError::InvalidId(_))),
            "{text:?} should be rejected"
        );
    }
}

#[test]
fn from_raw_unpacks_extremes() {
    let zero = Snowflake::from_raw(0);
    assert_eq!(zero.timestamp_ms, DISCORD_EPOCH_MS);
    assert_eq!((zero.worker_id, zero.process_id, zero.increment), (0, 0, 0));
    let max = Snowflake::from_raw(u64::MAX);
    assert_eq!(max.timestamp_ms, DISCORD_EPOCH_MS + (1u64 << 42) - 1);
    assert_eq!((max.worker_id, max.process_id, max.increment), (31, 31, 4095));
    assert_eq!(max.as_u64(), u64::MAX);
}

#[test]
fn packed_fields_unpack() {
    let raw = (123_456u64 << 22) | (17u64 << 17) | (5u64 << 12) | 4000;
    let value = Snowflake::from_raw(raw);
    assert_eq!(value.timestamp_ms, DISCORD_EPOCH_MS + 123_456);
    assert_eq!(value.worker_id, 17);
    assert_eq!(value.process_id, 5);
    assert_eq!(value.increment, 4000);
}

#[test]
fn id_string_round_trips() {
    for raw in [0u64, 9, 10, 1_480_908_521_355_874_518, u64::MAX] {
        let value = Snowflake::from_raw(raw);
        let text = value.to_id_string();
        assert_eq!(text, raw.to_string());
        let back = Snowflake::parse(&text).unwrap();
        assert_eq!(back, value);
    }
}

#[test]
fn snowflake_parse_reads_text() {
    let value = Snowflake::parse("1480908521355874518").unwrap();
    assert_eq!(value, Snowflake::from_raw(1_480_908_521_355_874_518));
    assert!(matches!(Snowflake::parse("  "), Err(SnowflakeError::EmptyId)));
    assert!(matches!(Snowflake::parse("x1"), Err(SnowflakeError::InvalidId(_))));
}

#[test]
fn every_snowflake_time_converts() {
    let value = Snowflake::from_raw(u64::MAX);
    let datetime = value.to_chrono().unwrap();
    assert_eq!(datetime.timestamp_millis(), value.timestamp_ms as i64);
    let first = Snowflake::from_raw(0).to_chrono().unwrap();
    assert_eq!(first.timestamp_millis(), 1_420_070_400_000);
}

#[test]
fn chrono_range_upper_bound() {
    let last = CHRONO_MAX_UTC_MILLIS as u64;
    assert_eq!(timestamp_to_chrono(last).unwrap().timestamp_millis(), CHRONO_MAX_UTC_MILLIS);
    assert!(matches!(
        timestamp_to_chrono(last + 1),
        Err(SnowflakeError::TimestampOutOfRange(value)) if value == last + 1
    ));
    assert!(matches!(
        timestamp_to_chrono(i64::MAX as u64),
        Err(SnowflakeError::TimestampOutOfRange(value)) if value == i64::MAX as u64
    ));
    assert_eq!(timestamp_to_chrono(0).unwrap().timestamp_millis(), 0);
}

#[test]
fn error_messages() {
    assert_eq!(SnowflakeError::EmptyId.to_string(), "snowflake id is empty");
    assert_eq!(
        SnowflakeError::TimestampOutOfRange(9_223_372_036_854_775_808).to_string(),
        "timestamp is out of range for chrono: 9223372036854775808"
    );
    match parse_id("abc") {
        Err(error) => assert_eq!(error.to_string(), "invalid snowflake id: invalid digit found in string"),
        Ok(_) => panic!("abc is no identifier"),
    }
}

#[test]
fn decimal_and_trim_helpers() {
    assert_eq!(decimal_string(0), "0");
    assert_eq!(decimal_string(1_000_000), "1000000");
    assert_eq!(trim_str("  a b\t"), "a b");
    assert_eq!(trim_str("\u{205f}x\u{3000}"), "x");
    assert_eq!(trim_str("   "), "");
}

#[test]
fn invalid_id_error_kinds() {
    let kind_of = |text: &str| match parse_id(text) {
        Err(SnowflakeError::InvalidId(error)) => error.kind().clone(),
        _ => panic!("{text:?} should be an invalid id"),
    };
    assert_eq!(kind_of("abc"), IntErrorKind::InvalidDigit);
    assert_eq!(kind_of("+"), IntErrorKind::InvalidDigit);
    assert_eq!(kind_of("-"), IntErrorKind::InvalidDigit);
    assert_eq!(kind_of("-1"), IntErrorKind::InvalidDigit);
    assert_eq!(kind_of("1234567890123456789x"), IntErrorKind::InvalidDigit);
    assert_eq!(kind_of("18446744073709551616"), IntErrorKind::PosOverflow);
    assert_eq!(kind_of("+99999999999999999999999"), IntErrorKind::PosOverflow);
}

#[test]
fn padding_changes_nothing() {
    for id in ["42", "abc", "+7", "18446744073709551616", " 5 "] {
        let plain = parse_id(id);
        let padded = parse_id(&format!("\u{2003}\t{id}\u{3000} \n"));
        match (plain, padded) {
            (Ok(a), Ok(b)) => assert_eq!(a, b),
            (Err(SnowflakeError::InvalidId(a)), Err(SnowflakeError::InvalidId(b))) => assert_eq!(a, b),
            (Err(SnowflakeError::EmptyId), Err(SnowflakeError::EmptyId)) => {}
            (a, b) => panic!("{id:?}: {a:?} and {b:?} differ"),
        }
    }
}

#[test]
fn invalid_id_error_is_std_parse_error_of_trimmed_text() {
    for (id, trimmed) in [(" 12a ", "12a"), ("\t+", "+"), ("99999999999999999999", "99999999999999999999")] {
        match parse_id(id) {
            Err(SnowflakeError::InvalidId(error)) => {
                assert_eq!(error, trimmed.parse::<u64>().unwrap_err())
            }
            other => panic!("{id:?} gave {other:?}"),
        }
    }
}
