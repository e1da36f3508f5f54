//! The tokenizer: single tokens and whole lines into a bounded buffer.

use multistepper::gcode::parse_gcode;
use multistepper::gcode::parse_gcodes;
use multistepper::gcode::GCode;
use multistepper::gcode::LinAxis;
use multistepper::gcode::Linear;
use multistepper::gcode::RotAxis;
use multistepper::gcode::Rotary;
use multistepper::gcode::TokenBuffer;
use multistepper::gcode::M;
use multistepper::Microns;
use multistepper::MilliDegrees;

#[test]
fn test_parse_gcode_examples() {
    let expected1 = GCode::g(100);
    let expected2 = GCode::Linear(Linear {
        axis: LinAxis::X,
        amount: Microns::new(-100000),
    });
    let expected3 = GCode::Rotary(Rotary {
        axis: RotAxis::A,
        amount: MilliDegrees::new(32500),
    });
    let expected4 = GCode::M(M(3));
    let mut pos = 0usize;
    assert_eq!(Ok(expected1), parse_gcode(b"G 100", &mut pos));
    let mut pos = 0usize;
    assert_eq!(Ok(expected2), parse_gcode(b"X-100", &mut pos));
    let mut pos = 0usize;
    assert_eq!(Ok(expected3), parse_gcode(b"A 32.5", &mut pos));
    let mut pos = 0usize;
    assert_eq!(Ok(expected4), parse_gcode(b"M3", &mut pos));
}

#[test]
fn test_parse_gcodes_complete() {
    let input = b"G0 X-100.02 A42.8";
    let expected = vec![
        GCode::g(0),
        GCode::Linear(Linear {
            axis: LinAxis::X,
            amount: Microns::new(-100020),
        }),
        GCode::Rotary(Rotary {
            axis: RotAxis::A,
            amount: MilliDegrees::new(42800),
        }),
    ];
    let mut buffer = TokenBuffer::new(16);
    let mut pos = 0usize;

    let result = parse_gcodes(input, &mut pos, &mut buffer);
    assert_eq!(Ok(true), result);
    assert_eq!(&expected, buffer.items());
}

#[test]
fn test_parse_gcodes_incomplete() {
    let input = b"G0 X-100.02 A42.8";
    let expected = vec![
        GCode::g(0),
        GCode::Linear(Linear {
            axis: LinAxis::X,
            amount: Microns::new(-100020),
        }),
    ];
    let mut buffer = TokenBuffer::new(2);
    let mut pos = 0usize;

    let result = parse_gcodes(input, &mut pos, &mut buffer);
    assert_eq!(Ok(false), result);
    // The cursor rests exactly at the start of the third token.
    assert_eq!(12, pos);
    assert_eq!(&expected, buffer.items());
}

#[test]
fn test_parse_gcodes_error() {
    let input = b"G0 garbledgarbled";
    let expected = vec![GCode::g(0)];
    let mut buffer = TokenBuffer::new(2);
    let mut pos = 0usize;

    let result = parse_gcodes(input, &mut pos, &mut buffer);
    assert!(result.is_err());
    // The cursor rests at the failure point.
    assert_eq!(3, pos);
    assert_eq!(&expected, buffer.items());
}

#[test]
fn test_parse_gcodes_whitespace_only_is_an_error() {
    let mut buffer = TokenBuffer::new(4);
    let mut pos = 0usize;
    assert!(parse_gcodes(b"   ", &mut pos, &mut buffer).is_err());
    assert_eq!(3, pos);
    assert_eq!(0, buffer.len());
}

#[test]
fn test_parse_gcodes_empty_input_is_complete() {
    let mut buffer = TokenBuffer::new(4);
    let mut pos = 0usize;
    assert_eq!(Ok(true), parse_gcodes(b"", &mut pos, &mut buffer));
    assert_eq!(0, buffer.len());
}

#[test]
fn test_token_buffer_capacity() {
    let mut buffer = TokenBuffer::new(1);
    assert_eq!(1, buffer.capacity());
    assert!(buffer.push(GCode::g(0)));
    assert!(!buffer.push(GCode::g(1)));
    assert_eq!(1, buffer.len());
    assert_eq!(GCode::g(0), buffer.get(0));
    buffer.clear();
    assert_eq!(0, buffer.len());
}

#[test]
fn test_parse_gcode_code_over_255_is_an_error() {
    let mut pos = 0usize;
    assert!(parse_gcode(b"G256", &mut pos).is_err());
    assert_eq!(0, pos);
    let mut pos = 0usize;
    assert_eq!(Ok(GCode::g(255)), parse_gcode(b"G255", &mut pos));
}
