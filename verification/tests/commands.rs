//! The token-based command parser: one command per fully tokenized
//! line, all-or-nothing.

use multistepper::commands::command::Command;
use multistepper::commands::command::Move;
use multistepper::commands::command_parser::CommandParser;
use multistepper::commands::command_parser::Error;
use multistepper::Microns;
use multistepper::MilliDegrees;

#[test]
fn test_command_parser_move() {
    let mut parser = CommandParser::new(8);
    let expected = Command::Move(Move {
        x_amount: Microns::new(-100020),
        a_amount: MilliDegrees::new(42800),
    });
    assert_eq!(Ok(expected), parser.parse(b"G0 X-100.02 A42.8"));
}

#[test]
fn test_command_parser_move_defaults_to_zero() {
    let mut parser = CommandParser::new(8);
    let expected = Command::Move(Move {
        x_amount: Microns::new(0),
        a_amount: MilliDegrees::new(0),
    });
    assert_eq!(Ok(expected), parser.parse(b"G0"));
    let expected_a = Command::Move(Move {
        x_amount: Microns::new(0),
        a_amount: MilliDegrees::new(42800),
    });
    assert_eq!(Ok(expected_a), parser.parse(b"G0 A42.8"));
}

#[test]
fn test_command_parser_move_any_axis_order() {
    let mut parser = CommandParser::new(8);
    let expected = Command::Move(Move {
        x_amount: Microns::new(1000),
        a_amount: MilliDegrees::new(2000),
    });
    assert_eq!(Ok(expected), parser.parse(b"G0 A2 X1"));
}

#[test]
fn test_command_parser_simple_commands() {
    let mut parser = CommandParser::new(8);
    assert_eq!(Ok(Command::Home), parser.parse(b"G28"));
    assert_eq!(Ok(Command::AbsolutePositioning), parser.parse(b"G90"));
    assert_eq!(Ok(Command::RelativePositioning), parser.parse(b"G91"));
}

#[test]
fn test_command_parser_rejects_unknown_and_trailing() {
    let mut parser = CommandParser::new(8);
    // An unrecognized axis letter in a move.
    assert_eq!(Err(Error::ParseError), parser.parse(b"G0 B5"));
    assert_eq!(Err(Error::ParseError), parser.parse(b"G0 Y1"));
    // Trailing tokens after a simple command.
    assert_eq!(Err(Error::ParseError), parser.parse(b"G28 X1"));
    assert_eq!(Err(Error::ParseError), parser.parse(b"G90 G91"));
    // Other codes, repeats, and plain garbage.
    assert_eq!(Err(Error::ParseError), parser.parse(b"G1"));
    assert_eq!(Err(Error::ParseError), parser.parse(b"M42"));
    assert_eq!(Err(Error::ParseError), parser.parse(b"G0 X1 X2"));
    assert_eq!(Err(Error::ParseError), parser.parse(b"garbled"));
    assert_eq!(Err(Error::ParseError), parser.parse(b""));
}

#[test]
fn test_command_parser_buffer_overflow() {
    let mut parser = CommandParser::new(2);
    assert_eq!(Err(Error::BufferOverflow), parser.parse(b"G0 X1 A2"));
    // The same line fits a roomier parser.
    let mut big = CommandParser::new(3);
    let expected = Command::Move(Move {
        x_amount: Microns::new(1000),
        a_amount: MilliDegrees::new(2000),
    });
    assert_eq!(Ok(expected), big.parse(b"G0 X1 A2"));
}
