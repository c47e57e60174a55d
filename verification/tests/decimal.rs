use discors::error::ParseIntError;
use discors::utilities::decimal::{
    decimal_len, format_u64, format_u64_padded, parse_u32, parse_u64, push_decimal,
};

#[test]
fn format_matches_std() {
    for value in [
        0u64,
        7,
        10,
        19,
        100,
        12345,
        999_999_999_999,
        1 << 53,
        9_999_999_999_999_999_999,
        10_000_000_000_000_000_000,
        u64::MAX,
    ] {
        assert_eq!(format_u64(value), value.to_string());
        assert_eq!(decimal_len(value), value.to_string().len());
    }
}

#[test]
fn format_exact_values() {
    assert_eq!(format_u64(0), "0");
    assert_eq!(format_u64(2112), "2112");
    assert_eq!(format_u64(u64::MAX), "18446744073709551615");
    assert_eq!(decimal_len(0), 1);
    assert_eq!(decimal_len(9), 1);
    assert_eq!(decimal_len(10), 2);
    assert_eq!(decimal_len(u64::MAX), 20);
}

#[test]
fn push_appends() {
    let mut out = String::from("id=");
    push_decimal(&mut out, 305);
    assert_eq!(out, "id=305");
    push_decimal(&mut out, 0);
    assert_eq!(out, "id=3050");
}

#[test]
fn padded_widths() {
    assert_eq!(format_u64_padded(42, 0), "42");
    assert_eq!(format_u64_padded(42, 2), "42");
    assert_eq!(format_u64_padded(42, 3), "042");
    assert_eq!(format_u64_padded(0, 5), "00000");
    assert_eq!(format_u64_padded(u64::MAX, 19), "18446744073709551615");
    assert_eq!(format_u64_padded(u64::MAX, 22), "0018446744073709551615");
}

#[test]
fn parse_matches_std_on_digits() {
    for text in [
        "0",
        "00",
        "7",
        "0042",
        "2112",
        "18446744073709551615",
        "018446744073709551615",
    ] {
        assert_eq!(parse_u64(text).ok(), text.parse::<u64>().ok());
    }
    for text in ["0", "4294967295", "0004294967295", "12"] {
        assert_eq!(parse_u32(text).ok(), text.parse::<u32>().ok());
    }
}

#[test]
fn parse_errors() {
    assert_eq!(parse_u64(""), Err(ParseIntError::Empty));
    assert_eq!(parse_u64("12x"), Err(ParseIntError::InvalidDigit));
    assert_eq!(parse_u64("x12"), Err(ParseIntError::InvalidDigit));
    assert_eq!(parse_u64("+1"), Err(ParseIntError::InvalidDigit));
    assert_eq!(parse_u64("1 "), Err(ParseIntError::InvalidDigit));
    assert_eq!(parse_u64("/"), Err(ParseIntError::InvalidDigit));
    assert_eq!(parse_u64(":"), Err(ParseIntError::InvalidDigit));
    assert_eq!(parse_u64("٣"), Err(ParseIntError::InvalidDigit));
    assert_eq!(
        parse_u64("18446744073709551616"),
        Err(ParseIntError::PosOverflow)
    );
    assert_eq!(
        parse_u64("18446744073709551620"),
        Err(ParseIntError::PosOverflow)
    );
    assert_eq!(
        parse_u64("99999999999999999999999999"),
        Err(ParseIntError::PosOverflow)
    );
    // a digit that is none comes before a number that is too large
    assert_eq!(
        parse_u64("99999999999999999999999999x"),
        Err(ParseIntError::InvalidDigit)
    );
    assert_eq!(parse_u32(""), Err(ParseIntError::Empty));
    assert_eq!(parse_u32("4294967296"), Err(ParseIntError::PosOverflow));
    assert_eq!(parse_u32("42a"), Err(ParseIntError::InvalidDigit));
}

#[test]
fn parse_what_was_formatted() {
    for value in [0u64, 1, 9, 10, 1 << 22, 1 << 53, u64::MAX] {
        assert_eq!(parse_u64(&format_u64(value)), Ok(value));
        assert_eq!(parse_u64(&format_u64_padded(value, 19)), Ok(value));
        assert_eq!(parse_u64(&format_u64_padded(value, 40)), Ok(value));
    }
}
