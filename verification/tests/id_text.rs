//! The canonical identifier text form: formatting, parsing, and their
//! round trip.

use house_api::ids::{format_id, parse_id};

#[test]
fn formatting_gives_decimal_text() {
    assert_eq!(format_id(0), "0");
    assert_eq!(format_id(7), "7");
    assert_eq!(format_id(42), "42");
    assert_eq!(format_id(1000), "1000");
    assert_eq!(format_id(1234567890123456789), "1234567890123456789");
    assert_eq!(format_id(u64::MAX), "18446744073709551615");
}

#[test]
fn parsing_inverts_formatting() {
    for n in [0u64, 1, 9, 10, 42, 99, 100, 65536, 1234567890123456789, u64::MAX] {
        assert_eq!(parse_id(&format_id(n)), Some(n));
    }
}

#[test]
fn parsing_rejects_anything_but_an_in_range_digit_string() {
    assert_eq!(parse_id(""), None);
    assert_eq!(parse_id("abc"), None);
    assert_eq!(parse_id("12a"), None);
    assert_eq!(parse_id("a12"), None);
    assert_eq!(parse_id("-3"), None);
    assert_eq!(parse_id("+3"), None);
    assert_eq!(parse_id(" 3"), None);
    assert_eq!(parse_id("3 "), None);
    // one past the largest identifier
    assert_eq!(parse_id("18446744073709551616"), None);
    assert_eq!(parse_id("99999999999999999999999999"), None);
}

#[test]
fn parsing_reads_the_value_not_the_spelling() {
    assert_eq!(parse_id("007"), Some(7));
    assert_eq!(parse_id("0"), Some(0));
    assert_eq!(parse_id("00"), Some(0));
    assert_eq!(parse_id("18446744073709551615"), Some(u64::MAX));
}
