//! Unit types: distances, angles (normalization and shortest path),
//! delays, and the canonical decimal rendering.

use multistepper::gcode::display_millis;
use multistepper::gcode::parse_degrees_as_millidegrees;
use multistepper::gcode::parse_mm_as_microns;
use multistepper::MicroSeconds;
use multistepper::Microns;
use multistepper::MilliDegrees;

#[test]
fn test_microns_new_get() {
    assert_eq!(123, Microns::new(123).get_value());
    assert_eq!(-42, Microns::new(-42).get_value());
}

#[test]
fn test_microns_checked_arith() {
    let a = Microns::new(100);
    let b = Microns::new(23);
    assert_eq!(Some(Microns::new(123)), a.checked_add(b));
    assert_eq!(Some(Microns::new(77)), a.checked_sub(b));
    assert_eq!(None, Microns::new(i32::MAX).checked_add(Microns::new(1)));
    assert_eq!(None, Microns::new(i32::MIN).checked_sub(Microns::new(1)));
}

#[test]
fn test_microseconds() {
    assert_eq!(50, MicroSeconds::new(50).get_value());
}

#[test]
fn test_millidegrees_normalize() {
    assert_eq!(0, MilliDegrees::new(0).normalize().get_value());
    assert_eq!(0, MilliDegrees::new(360000).normalize().get_value());
    assert_eq!(1, MilliDegrees::new(360001).normalize().get_value());
    assert_eq!(359999, MilliDegrees::new(359999).normalize().get_value());
    // Truncating semantics: a negative angle keeps its sign.
    assert_eq!(-1, MilliDegrees::new(-360001).normalize().get_value());
    assert_eq!(-359999, MilliDegrees::new(-359999).normalize().get_value());
    assert_eq!(0, MilliDegrees::new(-720000).normalize().get_value());
}

#[test]
fn test_shortest_angle_to() {
    let a = MilliDegrees::new(10000);
    let b = MilliDegrees::new(350000);
    // Going from 10 degrees to 350 degrees, the short way is backwards.
    assert_eq!(-20000, a.shortest_angle_to(b).get_value());
    assert_eq!(20000, b.shortest_angle_to(a).get_value());
    // Exactly opposite orientations take the positive half revolution.
    let c = MilliDegrees::new(0);
    let d = MilliDegrees::new(180000);
    assert_eq!(180000, c.shortest_angle_to(d).get_value());
    assert_eq!(180000, d.shortest_angle_to(c).get_value());
    // The delta lands congruent to the target modulo a revolution.
    let e = MilliDegrees::new(725000);
    let f = MilliDegrees::new(5000);
    assert_eq!(0, e.shortest_angle_to(f).get_value());
}

#[test]
fn test_display_millis_rendering() {
    assert_eq!(b"+0.000".to_vec(), display_millis(0));
    assert_eq!(b"+123.456".to_vec(), display_millis(123456));
    assert_eq!(b"-123.456".to_vec(), display_millis(-123456));
    assert_eq!(b"+0.020".to_vec(), display_millis(20));
    assert_eq!(b"-100.020".to_vec(), display_millis(-100020));
    assert_eq!(b"+2147483.647".to_vec(), display_millis(i32::MAX));
}

#[test]
fn test_display_then_parse_round_trip() {
    for v in [
        0,
        1,
        -1,
        999,
        -999,
        1000,
        123456,
        -100020,
        i32::MAX,
        -i32::MAX,
    ] {
        let rendered = display_millis(v);
        let mut pos = 0usize;
        let parsed = parse_mm_as_microns(&rendered, &mut pos);
        assert_eq!(Ok(Microns::new(v)), parsed);
        assert_eq!(rendered.len(), pos);
    }
}

#[test]
fn test_display_then_parse_millidegrees_round_trip() {
    for v in [0, 42800, -359999, 360001, i32::MAX, -i32::MAX] {
        let rendered = display_millis(v);
        let mut pos = 0usize;
        let parsed = parse_degrees_as_millidegrees(&rendered, &mut pos);
        assert_eq!(Ok(MilliDegrees::new(v)), parsed);
        assert_eq!(rendered.len(), pos);
    }
}
