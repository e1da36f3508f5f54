//! The stepper-control stack against simulated hardware doubles, and
//! the homing procedure on a coupled simulated axis.

use std::sync::Arc;
use std::sync::Mutex;

use multistepper::Delay;
use multistepper::Direction;
use multistepper::LimitSwitch;
use multistepper::LimitSwitchState;
use multistepper::LimitSwitches;
use multistepper::LimitedStepper;
use multistepper::MicroSeconds;
use multistepper::PositionedStepper;
use multistepper::StepRange;
use multistepper::Stepper;
use multistepper::Steps;

/// A no-delay delay for testing.
pub struct NoDelay;

impl Delay for NoDelay {
    fn delay_us(_: MicroSeconds) {}
}

/// Stepper double: a shared position counter. Clones share the counter,
/// so simulated devices can be coupled to the stepper.
#[derive(Clone)]
pub struct TestStepper {
    position: Arc<Mutex<i64>>,
}

impl TestStepper {
    pub fn new(position: i64) -> Self {
        Self {
            position: Arc::new(Mutex::new(position)),
        }
    }

    pub fn get_position(&self) -> i64 {
        *self.position.lock().unwrap()
    }
}

impl Stepper for TestStepper {
    fn step(&mut self, direction: Direction) {
        let mut pos = self.position.lock().unwrap();
        *pos = match direction {
            Direction::Positive => *pos + 1,
            Direction::Negative => *pos - 1,
        };
    }
}

/// Limit switch double whose state can be set from outside; clones
/// share the state.
#[derive(Clone)]
pub struct TestLimitSwitch {
    state: Arc<Mutex<LimitSwitchState>>,
}

impl TestLimitSwitch {
    pub fn new(state: LimitSwitchState) -> Self {
        Self {
            state: Arc::new(Mutex::new(state)),
        }
    }

    pub fn set_limitswitch_state(&mut self, state: LimitSwitchState) {
        *self.state.lock().unwrap() = state;
    }
}

impl LimitSwitch for TestLimitSwitch {
    fn read_limitswitch_state(&self) -> LimitSwitchState {
        *self.state.lock().unwrap()
    }
}

/// A limit switch coupled to a [`TestStepper`]'s position counter.
pub struct TestStepperLimitSwitch {
    direction: Direction,
    limit: Steps,
    stepper: TestStepper,
}

impl LimitSwitch for TestStepperLimitSwitch {
    fn read_limitswitch_state(&self) -> LimitSwitchState {
        let pos = self.stepper.get_position();
        match self.direction {
            Direction::Negative => {
                if pos < self.limit.get_value() as i64 {
                    LimitSwitchState::AtLimit
                } else {
                    LimitSwitchState::NotAtLimit
                }
            }
            Direction::Positive => {
                if pos > self.limit.get_value() as i64 {
                    LimitSwitchState::AtLimit
                } else {
                    LimitSwitchState::NotAtLimit
                }
            }
        }
    }
}

/// A test stepper with coupled simulated limit switches.
pub struct TestStepperWithLimitSwitches {
    test_stepper: TestStepper,
    negative_limit: Steps,
    positive_limit: Steps,
}

impl TestStepperWithLimitSwitches {
    pub fn new(position: Steps, negative_limit: Steps, positive_limit: Steps) -> Self {
        assert!(negative_limit.get_value() <= positive_limit.get_value());
        Self {
            test_stepper: TestStepper::new(position.get_value() as i64),
            negative_limit,
            positive_limit,
        }
    }

    pub fn limited_stepper(&self) -> LimitedStepper<TestStepper, TestStepperLimitSwitch> {
        LimitedStepper::new(
            PositionedStepper::new(self.stepper()),
            self.positive_limit_switch(),
            self.negative_limit_switch(),
        )
    }

    pub fn stepper(&self) -> TestStepper {
        self.test_stepper.clone()
    }

    pub fn negative_limit_switch(&self) -> TestStepperLimitSwitch {
        TestStepperLimitSwitch {
            direction: Direction::Negative,
            limit: self.negative_limit,
            stepper: self.test_stepper.clone(),
        }
    }

    pub fn positive_limit_switch(&self) -> TestStepperLimitSwitch {
        TestStepperLimitSwitch {
            direction: Direction::Positive,
            limit: self.positive_limit,
            stepper: self.test_stepper.clone(),
        }
    }
}

#[test]
fn test_test_limit_switch() {
    let mut tls = TestLimitSwitch::new(LimitSwitchState::NotAtLimit);
    assert_eq!(LimitSwitchState::NotAtLimit, tls.read_limitswitch_state());
    tls.set_limitswitch_state(LimitSwitchState::AtLimit);
    assert_eq!(LimitSwitchState::AtLimit, tls.read_limitswitch_state());
    tls.set_limitswitch_state(LimitSwitchState::NotAtLimit);
    assert_eq!(LimitSwitchState::NotAtLimit, tls.read_limitswitch_state());
}

#[test]
fn test_steprange_ok_to_move() {
    let sr = StepRange::new(Steps::new(0), Steps::new(10));

    assert!(sr.ok_to_move(Steps::new(5), Direction::Negative));
    assert!(sr.ok_to_move(Steps::new(5), Direction::Positive));
    assert!(!sr.ok_to_move(Steps::new(0), Direction::Negative));
    assert!(sr.ok_to_move(Steps::new(0), Direction::Positive));
    assert!(sr.ok_to_move(Steps::new(10), Direction::Negative));
    assert!(!sr.ok_to_move(Steps::new(10), Direction::Positive));
}

#[test]
fn test_limitswitches_ok_to_move() {
    let mut ps = TestLimitSwitch::new(LimitSwitchState::NotAtLimit);
    let mut ns = TestLimitSwitch::new(LimitSwitchState::NotAtLimit);
    let ss = LimitSwitches::new(ps.clone(), ns.clone());

    assert!(ss.ok_to_move(Direction::Positive));
    assert!(ss.ok_to_move(Direction::Negative));

    ps.set_limitswitch_state(LimitSwitchState::AtLimit);
    assert!(!ss.ok_to_move(Direction::Positive));
    assert!(ss.ok_to_move(Direction::Negative));

    ps.set_limitswitch_state(LimitSwitchState::NotAtLimit);
    ns.set_limitswitch_state(LimitSwitchState::AtLimit);
    assert!(ss.ok_to_move(Direction::Positive));
    assert!(!ss.ok_to_move(Direction::Negative));

    ps.set_limitswitch_state(LimitSwitchState::AtLimit);
    ns.set_limitswitch_state(LimitSwitchState::AtLimit);
    assert!(!ss.ok_to_move(Direction::Positive));
    assert!(!ss.ok_to_move(Direction::Negative));
}

#[test]
fn test_new() {
    let stepper = TestStepper::new(0);
    let pstepper = PositionedStepper::new(stepper);
    assert_eq!(Steps::zero(), pstepper.get_position());
}

#[test]
fn test_set_position() {
    let stepper = TestStepper::new(0);
    let mut pstepper = PositionedStepper::new(stepper.clone());
    pstepper.set_gauge_position(Steps::new(42));

    assert_eq!(42, pstepper.get_position().get_value());
    assert_eq!(0, stepper.get_position());
}

#[test]
fn test_set_zero() {
    let stepper = TestStepper::new(0);
    let mut pstepper = PositionedStepper::new(stepper.clone());

    // Take some steps.
    for _ in 0..10 {
        pstepper.step(Direction::Positive);
    }

    // Check current status.
    assert_eq!(10, pstepper.get_position().get_value());
    assert_eq!(10, stepper.get_position());

    // Zero the position.
    pstepper.set_gauge_zero();

    // Check the zeroed status.
    assert_eq!(0, pstepper.get_position().get_value());
    assert_eq!(10, stepper.get_position());
}

/// Sanity-test taking a step in both directions.
#[test]
fn test_step() {
    let stepper = TestStepper::new(0);
    let mut pstepper = PositionedStepper::new(stepper.clone());
    assert_eq!(0, pstepper.get_position().get_value());

    // Take a plus step.
    let steps_plus = pstepper.step(Direction::Positive);
    assert_eq!(Some(Steps::new(1)), steps_plus);
    assert_eq!(1, pstepper.get_position().get_value());
    assert_eq!(1, stepper.get_position());

    // Take a minus step.
    let steps_minus = pstepper.step(Direction::Negative);
    assert_eq!(Some(Steps::new(0)), steps_minus);
    assert_eq!(0, pstepper.get_position().get_value());
    assert_eq!(0, stepper.get_position());
}

#[test]
fn test_positioned_stepper_stops_at_overflow() {
    let stepper = TestStepper::new(0);
    let mut pstepper = PositionedStepper::new(stepper.clone());
    pstepper.set_gauge_position(Steps::new(i32::MAX));
    assert_eq!(None, pstepper.step(Direction::Positive));
    // The refused step issued no pulse.
    assert_eq!(0, stepper.get_position());
}

#[test]
fn test_limited_stepper_vetoes() {
    // Hard limit: an engaged switch facing the move refuses it.
    let ps = TestLimitSwitch::new(LimitSwitchState::AtLimit);
    let ns = TestLimitSwitch::new(LimitSwitchState::NotAtLimit);
    let stepper = TestStepper::new(0);
    let mut ls = LimitedStepper::new(PositionedStepper::new(stepper.clone()), ps, ns);
    assert_eq!(None, ls.step(Direction::Positive));
    assert_eq!(0, stepper.get_position());
    // The other direction is free.
    assert_eq!(Some(Steps::new(-1)), ls.step(Direction::Negative));
    assert_eq!(-1, stepper.get_position());
}

#[test]
fn test_run_zeroing_happy_path_example() {
    // Set up the limited stepper.
    let ts = TestStepperWithLimitSwitches::new(Steps::new(30), Steps::new(0), Steps::new(100));
    let mut lstepper = ts.limited_stepper();

    // Run zeroing.
    let result = lstepper.run_zeroing::<NoDelay>(50, Steps::new(10));

    // Check outcome.
    let soft_range = lstepper.soft_range().unwrap();
    assert_eq!(10, soft_range.min_steps().get_value());
    assert_eq!(90, soft_range.max_steps().get_value());
    assert_eq!(50, lstepper.get_position().get_value());
    assert_eq!(50, ts.stepper().get_position());
    assert_eq!(Some(Steps::new(50)), result);
}

#[test]
fn test_run_zeroing_degenerate_range_fails() {
    // Travel range 20 with margin 10: 2 * 10 is not below 20.
    let ts = TestStepperWithLimitSwitches::new(Steps::new(5), Steps::new(0), Steps::new(20));
    let mut lstepper = ts.limited_stepper();
    let result = lstepper.run_zeroing::<NoDelay>(50, Steps::new(10));
    assert_eq!(None, result);
    assert!(lstepper.soft_range().is_none());
}

#[test]
fn test_run_zeroing_success_iff_margins_fit() {
    for (range, margin) in [(9i32, 4i32), (10, 4), (8, 4), (3, 1), (2, 1), (1, 0)] {
        let ts = TestStepperWithLimitSwitches::new(
            Steps::new(0),
            Steps::new(0),
            Steps::new(range),
        );
        let mut lstepper = ts.limited_stepper();
        let result = lstepper.run_zeroing::<NoDelay>(50, Steps::new(margin));
        if 2 * margin < range {
            assert_eq!(Some(Steps::new(range / 2)), result);
            let soft_range = lstepper.soft_range().unwrap();
            assert_eq!(margin, soft_range.min_steps().get_value());
            assert_eq!(range - margin, soft_range.max_steps().get_value());
        } else {
            assert_eq!(None, result);
            assert!(lstepper.soft_range().is_none());
        }
    }
}
