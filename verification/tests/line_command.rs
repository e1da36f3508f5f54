//! The simplified whole-line command parser, whose decimal literals
//! truncate excess fractional digits instead of rejecting them.

use multistepper::command::Command;
use multistepper::command::Error;
use multistepper::command::parse_decimal_millis;

#[test]
fn test_line_simple_commands() {
    assert_eq!(Ok(Command::Zero), Command::parse(b"Z"));
    assert_eq!(Ok(Command::AbsolutePositioning), Command::parse(b"G90"));
    assert_eq!(Ok(Command::RelativePositioning), Command::parse(b"G91"));
}

#[test]
fn test_line_move_amounts() {
    match Command::parse(b"G0 X-100.02 A42.8") {
        Ok(Command::Move(mv)) => {
            assert_eq!(-100020, mv.x_microns());
            assert_eq!(42800, mv.a_millidegrees());
        }
        other => panic!("expected a move, got {:?}", other),
    }
}

#[test]
fn test_line_move_defaults() {
    match Command::parse(b"G0") {
        Ok(Command::Move(mv)) => {
            assert_eq!(0, mv.x_microns());
            assert_eq!(0, mv.a_millidegrees());
        }
        other => panic!("expected a move, got {:?}", other),
    }
}

#[test]
fn test_line_move_truncates_excess_fraction() {
    // The sibling parser truncates the fourth fractional digit.
    match Command::parse(b"G0 X3.1428") {
        Ok(Command::Move(mv)) => {
            assert_eq!(3142, mv.x_microns());
        }
        other => panic!("expected a move, got {:?}", other),
    }
}

#[test]
fn test_line_rejections() {
    assert_eq!(Err(Error::InvalidGCode), Command::parse(b"Z5"));
    assert_eq!(Err(Error::InvalidGCode), Command::parse(b"G900"));
    assert_eq!(Err(Error::InvalidGCode), Command::parse(b"G0X1"));
    assert_eq!(Err(Error::InvalidGCode), Command::parse(b"G0 X1 junk"));
    assert_eq!(Err(Error::InvalidGCode), Command::parse(b"G28"));
    assert_eq!(Err(Error::InvalidGCode), Command::parse(b""));
}

#[test]
fn test_parse_decimal_millis_examples() {
    let mut pos = 0usize;
    assert_eq!(Ok(3000), parse_decimal_millis(b"3", &mut pos));
    let mut pos = 0usize;
    assert_eq!(Ok(3140), parse_decimal_millis(b"3.14", &mut pos));
    let mut pos = 0usize;
    assert_eq!(Ok(3142), parse_decimal_millis(b"3.142", &mut pos));
    let mut pos = 0usize;
    assert_eq!(Ok(3142), parse_decimal_millis(b"3.1428", &mut pos));
    // All fractional digits are consumed, even the truncated ones.
    assert_eq!(6, pos);
    let mut pos = 0usize;
    assert_eq!(Ok(-2500), parse_decimal_millis(b"-2.5", &mut pos));
    let mut pos = 0usize;
    assert!(parse_decimal_millis(b".5", &mut pos).is_err());
}
