//! The tokenizer's decimal literal parsers.

use multistepper::gcode::parse_digits_i32;
use multistepper::gcode::parse_fractional_digits;
use multistepper::gcode::parse_mm_as_microns;
use multistepper::gcode::parse_period;
use multistepper::gcode::parse_sign;
use multistepper::gcode::Sign;
use multistepper::Microns;

#[test]
fn test_parse_sign() {
    let mut pos = 0usize;
    assert_eq!(Ok(Sign::Plus), parse_sign(b"+", &mut pos));
    let mut pos = 0usize;
    assert_eq!(Ok(Sign::Minus), parse_sign(b"-", &mut pos));
    let mut pos = 0usize;
    assert!(parse_sign(b"foo", &mut pos).is_err());
}

#[test]
fn test_parse_digits_i32() {
    let mut pos = 0usize;
    assert_eq!(Ok(456i32), parse_digits_i32(b"456", &mut pos));
    let mut pos = 0usize;
    assert!(parse_digits_i32(b"-456", &mut pos).is_err());
    let mut pos = 0usize;
    assert!(parse_digits_i32(b"foo", &mut pos).is_err());
}

#[test]
fn test_parse_period() {
    let mut pos = 0usize;
    assert_eq!(Ok(()), parse_period(b".", &mut pos));
    let mut pos = 0usize;
    assert!(parse_period(b",", &mut pos).is_err());
}

#[test]
fn test_parse_fractional_digits() {
    let mut pos = 0usize;
    assert_eq!(Ok(123), parse_fractional_digits(b"123", &mut pos, 3));
    let mut pos = 0usize;
    assert_eq!(Ok(120), parse_fractional_digits(b"12", &mut pos, 3));
    let mut pos = 0usize;
    assert_eq!(Ok(100), parse_fractional_digits(b"1", &mut pos, 3));
    let mut pos = 0usize;
    assert!(parse_fractional_digits(b"foo", &mut pos, 3).is_err());
    let mut pos = 0usize;
    assert!(parse_fractional_digits(b"1234", &mut pos, 3).is_err());
}

#[test]
fn test_parse_mm_as_microns_example() {
    let mut pos = 0usize;
    assert_eq!(Ok(Microns::new(123000)), parse_mm_as_microns(b"123", &mut pos));
    let mut pos = 0usize;
    assert_eq!(Ok(Microns::new(123456)), parse_mm_as_microns(b"123.456", &mut pos));
    let mut pos = 0usize;
    assert_eq!(Ok(Microns::new(123450)), parse_mm_as_microns(b"123.45", &mut pos));
    let mut pos = 0usize;
    assert_eq!(Ok(Microns::new(123456)), parse_mm_as_microns(b"+123.456", &mut pos));
    let mut pos = 0usize;
    assert_eq!(Ok(Microns::new(-123456)), parse_mm_as_microns(b"-123.456", &mut pos));
    let mut pos = 0usize;
    assert_eq!(Ok(Microns::new(-123000)), parse_mm_as_microns(b"-123.0", &mut pos));
    let mut pos = 0usize;
    assert!(parse_mm_as_microns(b"foo", &mut pos).is_err());
}

#[test]
fn test_parse_mm_rejects_excess_fraction() {
    // A fourth fractional digit is rejected, not truncated, by the
    // tokenizer's literal grammar.
    let mut pos = 0usize;
    assert!(parse_mm_as_microns(b"1.2345", &mut pos).is_err());
    assert_eq!(0, pos);
    // A bare period with no fractional digit is rejected too.
    let mut pos = 0usize;
    assert!(parse_mm_as_microns(b"5.", &mut pos).is_err());
    assert_eq!(0, pos);
}

#[test]
fn test_parse_mm_rejects_out_of_range() {
    // Beyond the representable thousandths range: a parse error.
    let mut pos = 0usize;
    assert!(parse_mm_as_microns(b"2147484", &mut pos).is_err());
    let mut pos = 0usize;
    assert_eq!(
        Ok(Microns::new(2147483647)),
        parse_mm_as_microns(b"2147483.647", &mut pos)
    );
    let mut pos = 0usize;
    assert!(parse_mm_as_microns(b"2147483.648", &mut pos).is_err());
}
