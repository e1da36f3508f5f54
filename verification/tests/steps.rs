//! Step-count arithmetic at and away from the representable bounds.

use multistepper::Steps;

#[test]
fn test_zero() {
    assert_eq!(0, Steps::zero().get_value());
    assert_eq!(Steps::new(0), Steps::zero());
}

#[test]
fn steps_test_steps_max_inc() {
    assert_eq!(None, Steps::new(i32::MAX).inc());
}

#[test]
fn steps_test_steps_min_dec() {
    assert_eq!(None, Steps::new(i32::MIN).dec());
}

#[test]
fn kinematics_test_steps_max_inc() {
    let steps_max = Steps::new(i32::MAX);
    assert_eq!(None, steps_max.inc());
}

#[test]
fn kinematics_test_steps_min_dec() {
    let steps_min = Steps::new(i32::MIN);
    assert_eq!(None, steps_min.dec());
}

#[test]
fn test_inc_dec_round_trip() {
    let s = Steps::new(41);
    assert_eq!(Some(Steps::new(42)), s.inc());
    assert_eq!(Some(s), s.inc().unwrap().dec());
    let low = Steps::new(i32::MIN + 1);
    assert_eq!(Some(Steps::new(i32::MIN)), low.dec());
    assert_eq!(None, low.dec().unwrap().dec());
}
