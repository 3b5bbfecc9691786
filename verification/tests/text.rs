use siren_ripper::text::{join, parse_id, render_decimal};

#[test]
fn decimal_of_zero_is_one_digit() {
    assert_eq!(render_decimal(0), "0");
}

#[test]
fn decimal_has_no_leading_zero() {
    assert_eq!(render_decimal(7), "7");
    assert_eq!(render_decimal(10), "10");
    assert_eq!(render_decimal(12345), "12345");
    assert_eq!(render_decimal(1_000_000), "1000000");
}

#[test]
fn decimal_of_the_largest_number() {
    assert_eq!(render_decimal(u64::MAX), "18446744073709551615");
}

#[test]
fn identifier_is_read_from_digits() {
    assert_eq!(parse_id("3"), Some(3));
    assert_eq!(parse_id("125042"), Some(125042));
}

#[test]
fn identifier_may_start_with_zeros() {
    assert_eq!(parse_id("007"), Some(7));
    assert_eq!(parse_id("048794"), Some(48794));
}

#[test]
fn identifier_is_never_zero() {
    assert_eq!(parse_id("0"), None);
    assert_eq!(parse_id("000"), None);
}

#[test]
fn identifier_is_not_empty() {
    assert_eq!(parse_id(""), None);
}

#[test]
fn identifier_holds_digits_only() {
    assert_eq!(parse_id("12a"), None);
    assert_eq!(parse_id("a12"), None);
    assert_eq!(parse_id("+5"), None);
    assert_eq!(parse_id("-5"), None);
    assert_eq!(parse_id(" 5"), None);
    assert_eq!(parse_id("5 "), None);
    assert_eq!(parse_id("1.5"), None);
    assert_eq!(parse_id("٣"), None);
}

#[test]
fn identifier_fits_in_64_bits() {
    assert_eq!(parse_id("18446744073709551615"), Some(u64::MAX));
    assert_eq!(parse_id("18446744073709551616"), None);
    assert_eq!(parse_id("99999999999999999999"), None);
    assert_eq!(parse_id("184467440737095516150"), None);
}

#[test]
fn identifier_survives_writing_and_reading() {
    for id in [1u64, 9, 10, 99, 100, 6660, 125042, u64::MAX] {
        assert_eq!(parse_id(&render_decimal(id)), Some(id));
    }
}

#[test]
fn join_of_nothing_is_empty() {
    assert_eq!(join(&Vec::new(), ","), "");
}

#[test]
fn join_of_one_has_no_separator() {
    assert_eq!(join(&vec!["A".to_string()], ","), "A");
}

#[test]
fn join_puts_the_separator_between() {
    let names = vec!["A".to_string(), "B".to_string(), "C".to_string()];
    assert_eq!(join(&names, ","), "A,B,C");
    assert_eq!(join(&names, ", "), "A, B, C");
}

#[test]
fn join_keeps_empty_names() {
    let names = vec![String::new(), "B".to_string(), String::new()];
    assert_eq!(join(&names, ","), ",B,");
}
