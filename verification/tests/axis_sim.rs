//! The software-simulated axis: coupled switches, the homing law, and
//! agreement with the real stepper stack on the same geometry.

use std::sync::Arc;
use std::sync::Mutex;

use multistepper::Delay;
use multistepper::Direction;
use multistepper::LimitSwitch;
use multistepper::LimitSwitchState;
use multistepper::LimitedStepper;
use multistepper::MicroSeconds;
use multistepper::PositionedStepper;
use multistepper::SimulatedAxis;
use multistepper::Stepper;
use multistepper::Steps;

pub struct NoDelay;

impl Delay for NoDelay {
    fn delay_us(_: MicroSeconds) {}
}

#[derive(Clone)]
pub struct SharedStepper {
    position: Arc<Mutex<i64>>,
}

impl SharedStepper {
    pub fn new(position: i64) -> Self {
        Self {
            position: Arc::new(Mutex::new(position)),
        }
    }

    pub fn get_position(&self) -> i64 {
        *self.position.lock().unwrap()
    }
}

impl Stepper for SharedStepper {
    fn step(&mut self, direction: Direction) {
        let mut pos = self.position.lock().unwrap();
        *pos = match direction {
            Direction::Positive => *pos + 1,
            Direction::Negative => *pos - 1,
        };
    }
}

pub struct CoupledSwitch {
    positive_end: bool,
    limit: i64,
    stepper: SharedStepper,
}

impl LimitSwitch for CoupledSwitch {
    fn read_limitswitch_state(&self) -> LimitSwitchState {
        let pos = self.stepper.get_position();
        let engaged = if self.positive_end {
            pos > self.limit
        } else {
            pos < self.limit
        };
        if engaged {
            LimitSwitchState::AtLimit
        } else {
            LimitSwitchState::NotAtLimit
        }
    }
}

#[test]
fn test_simulated_axis_switch_coupling() {
    let axis = SimulatedAxis::new(Steps::new(-5), Steps::new(0), Steps::new(100));
    assert_eq!(LimitSwitchState::AtLimit, axis.negative_switch_state());
    assert_eq!(LimitSwitchState::NotAtLimit, axis.positive_switch_state());
    let axis2 = SimulatedAxis::new(Steps::new(101), Steps::new(0), Steps::new(100));
    assert_eq!(LimitSwitchState::NotAtLimit, axis2.negative_switch_state());
    assert_eq!(LimitSwitchState::AtLimit, axis2.positive_switch_state());
}

#[test]
fn test_simulated_axis_step() {
    let mut axis = SimulatedAxis::new(Steps::new(100), Steps::new(0), Steps::new(100));
    // A positive step just inside the limit is allowed...
    assert_eq!(Some(Steps::new(1)), axis.step(Direction::Positive));
    assert_eq!(101, axis.get_phys_position());
    // ...but with the switch now engaged, the next one is refused.
    assert_eq!(None, axis.step(Direction::Positive));
    assert_eq!(101, axis.get_phys_position());
    assert_eq!(Some(Steps::new(0)), axis.step(Direction::Negative));
}

#[test]
fn test_simulated_axis_homing_happy_path() {
    let mut axis = SimulatedAxis::new(Steps::new(30), Steps::new(0), Steps::new(100));
    let result = axis.run_zeroing(Steps::new(10));
    assert_eq!(Some(Steps::new(50)), result);
    let range = axis.soft_range().unwrap();
    assert_eq!(10, range.min_steps().get_value());
    assert_eq!(90, range.max_steps().get_value());
    assert_eq!(50, axis.get_position().get_value());
    assert_eq!(50, axis.get_phys_position());
}

#[test]
fn test_simulated_axis_homing_law() {
    // Success exactly when twice the margin is below the travel range.
    for negative_limit in [-7i32, 0, 3] {
        for travel in [1i32, 2, 5, 12, 30] {
            for margin in [0i32, 1, 2, 6, 14] {
                let start = negative_limit.max(0);
                let mut axis = SimulatedAxis::new(
                    Steps::new(start),
                    Steps::new(negative_limit),
                    Steps::new(negative_limit + travel),
                );
                let result = axis.run_zeroing(Steps::new(margin));
                if 2 * margin < travel {
                    assert_eq!(Some(Steps::new(travel / 2)), result);
                    let range = axis.soft_range().unwrap();
                    assert_eq!(margin, range.min_steps().get_value());
                    assert_eq!(travel - margin, range.max_steps().get_value());
                } else {
                    assert_eq!(None, result);
                    assert!(axis.soft_range().is_none());
                }
            }
        }
    }
}

#[test]
fn test_simulated_axis_agrees_with_real_stack() {
    // The same geometry, homed through the generic stack with coupled
    // doubles and through the simulated axis, lands identically.
    for (start, neg, top, margin) in [
        (30i32, 0i32, 100i32, 10i32),
        (0, -20, 44, 5),
        (7, 3, 9, 2),
        (1, 0, 6, 3),
    ] {
        let stepper = SharedStepper::new(start as i64);
        let pos_switch = CoupledSwitch {
            positive_end: true,
            limit: top as i64,
            stepper: stepper.clone(),
        };
        let neg_switch = CoupledSwitch {
            positive_end: false,
            limit: neg as i64,
            stepper: stepper.clone(),
        };
        let mut real =
            LimitedStepper::new(PositionedStepper::new(stepper.clone()), pos_switch, neg_switch);
        let real_result = real.run_zeroing::<NoDelay>(1, Steps::new(margin));

        let mut sim = SimulatedAxis::new(Steps::new(start), Steps::new(neg), Steps::new(top));
        let sim_result = sim.run_zeroing(Steps::new(margin));

        assert_eq!(real_result, sim_result);
        assert_eq!(
            real.soft_range().map(|r| (r.min_steps(), r.max_steps())),
            sim.soft_range().map(|r| (r.min_steps(), r.max_steps()))
        );
        assert_eq!(real.get_position(), sim.get_position());
        assert_eq!(stepper.get_position(), sim.get_phys_position() as i64);
    }
}
