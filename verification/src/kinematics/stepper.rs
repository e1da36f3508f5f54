//! Stepper motor capabilities.

use vstd::prelude::*;
use crate::kinematics::direction::Direction;
use crate::kinematics::steps::Steps;

verus! {

/// Stepper motor.
///
/// This kind of stepper never fails to take a step (at least in
/// principle). For a stepper that can fail to take a step when it hits
/// overflow limits, see `PositionedStepper`.
pub trait Stepper {
    /// Takes a single step in the supplied direction.
    fn step(&mut self, direction: Direction);
}

/// Checked stepper motor.
///
/// A checked stepper motor has a range, or limit switches, and so an
/// attempted step may be refused.
pub trait CheckedStepper {
    /// Try to take a step, returning the new position on success.
    fn try_step(&mut self, direction: Direction) -> Option<Steps>;
}

} // verus!
