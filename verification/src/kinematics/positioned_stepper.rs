//! A stepper that tracks its own position.

use vstd::prelude::*;
use crate::kinematics::direction::Direction;
use crate::kinematics::stepper::CheckedStepper;
use crate::kinematics::stepper::Stepper;
use crate::kinematics::steps::Steps;
use crate::kinematics::steps::spec_steps_dec;
use crate::kinematics::steps::spec_steps_inc;

verus! {

/// The tracked position after one step in the given direction: the
/// neighbouring position, unless that would overflow the representation.
pub open spec fn spec_step_target(pos: int, direction: Direction) -> Option<int> {
    match direction {
        Direction::Positive => spec_steps_inc(pos),
        Direction::Negative => spec_steps_dec(pos),
    }
}

/// Stepper which tracks its own position.
///
/// A `PositionedStepper` executes its stepping commands by wrapping some
/// underlying [`Stepper`]. The overflow check happens *before* the
/// physical pulse is issued, so the tracked position never diverges from
/// the count of pulses actually sent.
pub struct PositionedStepper<S> {
    stepper: S,
    position: Steps,
}

impl<S> View for PositionedStepper<S> {
    type V = int;

    closed spec fn view(&self) -> int {
        self.position@
    }
}

impl<S: Stepper> PositionedStepper<S> {
    /// Creates a new positioned stepper, with an initial position of zero.
    pub fn new(stepper: S) -> (r: Self)
        ensures
            r@ == 0,
    {
        Self { stepper, position: Steps::zero() }
    }

    /// Sets the current position of the stepper to zero.
    ///
    /// This DOES NOT move the stepper. It simply sets the position to
    /// zero wherever the stepper currently is.
    pub fn set_gauge_zero(&mut self)
        ensures
            final(self)@ == 0,
    {
        self.set_gauge_position(Steps::zero());
    }

    /// Sets the current position of the stepper to a given value.
    ///
    /// This DOES NOT move the stepper. It simply sets the position to the
    /// supplied value, wherever the stepper currently is.
    pub fn set_gauge_position(&mut self, position: Steps)
        ensures
            final(self)@ == position@,
    {
        self.position = position;
    }

    /// Returns the current position of the stepper.
    pub fn get_position(&self) -> (r: Steps)
        ensures
            r@ == self@,
    {
        self.position
    }

    /// Take a step.
    ///
    /// This takes a step with the underlying stepper provided that doing
    /// so would not overflow the step count; at a representable boundary
    /// no pulse is issued and the position is unchanged.
    pub fn step(&mut self, direction: Direction) -> (r: Option<Steps>)
        ensures
            r is Some <==> spec_step_target(old(self)@, direction) is Some,
            r matches Some(s) ==> Some(s@) == spec_step_target(old(self)@, direction),
            r matches Some(s) ==> final(self)@ == s@,
            r is None ==> final(self)@ == old(self)@,
    {
        // Compute the new position if possible.
        let next_position_option = match direction {
            Direction::Negative => self.position.dec(),
            Direction::Positive => self.position.inc(),
        };

        // Take the step if it's possible.
        if let Some(next_position) = next_position_option {
            self.stepper.step(direction);
            self.position = next_position;
        }

        next_position_option
    }
}

impl<S: Stepper> CheckedStepper for PositionedStepper<S> {
    fn try_step(&mut self, direction: Direction) -> Option<Steps> {
        self.step(direction)
    }
}

} // verus!
