use nextcloud_passwords_client::Color;
use nextcloud_passwords_client::Error;
use nextcloud_passwords_client::text::{parse_bool, parse_i64, parse_u64, str_eq, u64_to_dec};

#[test]
fn decimal_formatting() {
    assert_eq!(u64_to_dec(0), "0");
    assert_eq!(u64_to_dec(7), "7");
    assert_eq!(u64_to_dec(1234), "1234");
    assert_eq!(u64_to_dec(u64::MAX), "18446744073709551615");
}

#[test]
fn unsigned_parsing() {
    assert_eq!(parse_u64("0"), Some(0));
    assert_eq!(parse_u64("123"), Some(123));
    assert_eq!(parse_u64("18446744073709551615"), Some(u64::MAX));
    assert_eq!(parse_u64("18446744073709551616"), None);
    assert_eq!(parse_u64(""), None);
    assert_eq!(parse_u64("12a"), None);
    assert_eq!(parse_u64("-1"), None);
}

#[test]
fn signed_parsing() {
    assert_eq!(parse_i64("-5"), Some(-5));
    assert_eq!(parse_i64("42"), Some(42));
    assert_eq!(parse_i64("-9223372036854775808"), Some(i64::MIN));
    assert_eq!(parse_i64("9223372036854775807"), Some(i64::MAX));
    assert_eq!(parse_i64("9223372036854775808"), None);
    assert_eq!(parse_i64("-"), None);
    assert_eq!(parse_i64(""), None);
}

#[test]
fn boolean_parsing() {
    assert_eq!(parse_bool("true"), Some(true));
    assert_eq!(parse_bool("false"), Some(false));
    assert_eq!(parse_bool("yes"), None);
}

#[test]
fn string_equality_is_by_content() {
    assert!(str_eq("abc", "abc"));
    assert!(!str_eq("abc", "abd"));
    assert!(!str_eq("abc", "ab"));
}

#[test]
fn color_renders_lowercase_hex() {
    let c = Color { red: 255, green: 0, blue: 16 };
    assert_eq!(c.to_hex(), "#ff0010");
    let black = Color { red: 0, green: 0, blue: 0 };
    assert_eq!(black.to_hex(), "#000000");
}

#[test]
fn color_parses_hex_in_both_cases() {
    assert_eq!(
        Color::from_hex("#ff0010").unwrap(),
        Color { red: 255, green: 0, blue: 16 }
    );
    assert_eq!(
        Color::from_hex("#FF0010").unwrap(),
        Color { red: 255, green: 0, blue: 16 }
    );
}

#[test]
fn color_round_trips_through_hex() {
    let c = Color { red: 1, green: 171, blue: 254 };
    assert_eq!(Color::from_hex(&c.to_hex()).unwrap(), c);
}

#[test]
fn color_rejects_malformed_text() {
    assert_eq!(Color::from_hex("ff0010"), Err(Error::Decode));
    assert_eq!(Color::from_hex("#ff001"), Err(Error::Decode));
    assert_eq!(Color::from_hex("#ff00100"), Err(Error::Decode));
    assert_eq!(Color::from_hex("#ff00zz"), Err(Error::Decode));
    assert_eq!(Color::from_hex("xff0010"), Err(Error::Decode));
}
