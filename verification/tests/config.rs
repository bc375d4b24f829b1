use tron_vanity::config::{min_same_chars_or_default, parse_usize, DEFAULT_MIN_SAME_CHARS};

#[test]
fn parses_plain_decimal() {
    assert_eq!(parse_usize(b"0"), Some(0));
    assert_eq!(parse_usize(b"123"), Some(123));
    assert_eq!(parse_usize(b"007"), Some(7));
}

#[test]
fn parses_leading_plus() {
    assert_eq!(parse_usize(b"+7"), Some(7));
    assert_eq!(parse_usize(b"+0"), Some(0));
}

#[test]
fn rejects_malformed_strings() {
    assert_eq!(parse_usize(b""), None);
    assert_eq!(parse_usize(b"+"), None);
    assert_eq!(parse_usize(b"abc"), None);
    assert_eq!(parse_usize(b"12x"), None);
    assert_eq!(parse_usize(b"-3"), None);
    assert_eq!(parse_usize(b" 3"), None);
    assert_eq!(parse_usize(b"++1"), None);
}

#[test]
fn rejects_out_of_range_values() {
    assert_eq!(parse_usize(b"18446744073709551615"), Some(usize::MAX));
    assert_eq!(parse_usize(b"18446744073709551616"), None);
    assert_eq!(parse_usize(b"99999999999999999999999999"), None);
}

#[test]
fn threshold_default_and_override() {
    assert_eq!(min_same_chars_or_default(None), DEFAULT_MIN_SAME_CHARS);
    assert_eq!(min_same_chars_or_default(Some(b"9".to_vec())), 9);
    assert_eq!(min_same_chars_or_default(Some(b"+11".to_vec())), 11);
    assert_eq!(min_same_chars_or_default(Some(b"".to_vec())), DEFAULT_MIN_SAME_CHARS);
    assert_eq!(min_same_chars_or_default(Some(b"oops".to_vec())), DEFAULT_MIN_SAME_CHARS);
    assert_eq!(
        min_same_chars_or_default(Some(b"18446744073709551616".to_vec())),
        DEFAULT_MIN_SAME_CHARS
    );
}
