//! Decimal rendering and parsing edge cases.

use conduit::textnum::{i64_to_string, parse_i64, split_once_char};

#[test]
fn renders_decimals_exactly() {
    assert_eq!(i64_to_string(0), "0");
    assert_eq!(i64_to_string(7), "7");
    assert_eq!(i64_to_string(300), "300");
    assert_eq!(i64_to_string(-1), "-1");
    assert_eq!(i64_to_string(i64::MAX), "9223372036854775807");
    assert_eq!(i64_to_string(i64::MIN), "-9223372036854775808");
}

#[test]
fn parses_digit_strings_exactly() {
    assert_eq!(parse_i64("0"), Some(0));
    assert_eq!(parse_i64("09"), Some(9));
    assert_eq!(parse_i64("9223372036854775807"), Some(i64::MAX));
    assert_eq!(parse_i64(""), None);
    assert_eq!(parse_i64("12a"), None);
    assert_eq!(parse_i64("-5"), None);
    assert_eq!(parse_i64("9223372036854775808"), None);
    assert_eq!(parse_i64("99999999999999999999999"), None);
}

#[test]
fn splits_on_a_single_separator_only() {
    let (a, b) = split_once_char("09:30", ':').unwrap();
    assert_eq!(a, "09");
    assert_eq!(b, "30");
    let (a, b) = split_once_char(":30", ':').unwrap();
    assert_eq!(a, "");
    assert_eq!(b, "30");
    assert!(split_once_char("0930", ':').is_none());
    assert!(split_once_char("09:30:00", ':').is_none());
}
