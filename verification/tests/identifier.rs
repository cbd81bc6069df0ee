use discord::errors::DiscordError;
use discord::object::{oldest_object, Object};
use discord::snowflake::Snowflake;

#[test]
fn accepts_numeric_and_textual_forms() {
    let from_int = Snowflake::new(123456789012345678);
    assert_eq!(from_int.0, 123456789012345678);
    let from_text = Snowflake::parse_str("123456789012345678").unwrap();
    assert_eq!(from_text.0, 123456789012345678);
    assert_eq!(from_int, from_text);
}

#[test]
fn rejects_non_numeric_text() {
    let r = Snowflake::parse_str("abc");
    assert!(matches!(r, Err(DiscordError::InvalidData(s)) if s == "abc"));
}

#[test]
fn rejects_empty_and_mixed_text() {
    assert!(Snowflake::parse_str("").is_err());
    assert!(Snowflake::parse_str("12a4").is_err());
    assert!(Snowflake::parse_str("-5").is_err());
}

#[test]
fn rejects_value_over_64_bits() {
    assert!(Snowflake::parse_str("18446744073709551615").is_ok());
    assert!(Snowflake::parse_str("18446744073709551616").is_err());
    assert!(Snowflake::parse_str("99999999999999999999999").is_err());
}

#[test]
fn extracts_embedded_fields() {
    let s = Snowflake::new(175928847299117063);
    assert_eq!(s.timestamp(), 1462015105796);
    assert_eq!(s.worker_id(), 1);
    assert_eq!(s.process_id(), 0);
    assert_eq!(s.increment(), 7);
}

#[test]
fn timestamp_of_zero_is_the_epoch() {
    assert_eq!(Snowflake::new(0).timestamp(), 1420070400000);
}

#[test]
fn timestamp_non_decreasing_in_value() {
    let samples: Vec<u64> = vec![0, 1, 4194303, 4194304, 175928847299117063, u64::MAX];
    let mut i = 1;
    while i < samples.len() {
        let a = Snowflake::new(samples[i - 1]);
        let b = Snowflake::new(samples[i]);
        assert!(a.timestamp() <= b.timestamp());
        i += 1;
    }
}

#[test]
fn converts_to_and_from_raw_value() {
    let s = Snowflake::from(42u64);
    assert_eq!(u64::from(s), 42);
}

#[test]
fn object_parses_like_an_identifier() {
    let o = Object::new(175928847299117063);
    assert_eq!(o.created_at_ms(), 1462015105796);
    let p = Object::parse_str("175928847299117063").unwrap();
    assert_eq!(p.id, o.id);
    assert!(matches!(
        Object::parse_str("not-an-id"),
        Err(DiscordError::InvalidData(_))
    ));
}

#[test]
fn oldest_object_has_identifier_zero() {
    assert_eq!(oldest_object().id, 0);
}
