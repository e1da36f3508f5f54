//! A stepper guarded by limit switches and a soft travel range, with the
//! multi-phase homing (zeroing) procedure.

use vstd::prelude::*;
use crate::kinematics::delay::Delay;
use crate::kinematics::direction::Direction;
use crate::kinematics::limit_switch::LimitSwitch;
use crate::kinematics::limit_switch::LimitSwitchState;
use crate::kinematics::positioned_stepper::PositionedStepper;
use crate::kinematics::positioned_stepper::spec_step_target;
use crate::kinematics::stepper::CheckedStepper;
use crate::kinematics::stepper::Stepper;
use crate::kinematics::steps::Steps;
use crate::microseconds::MicroSeconds;

verus! {

/// Represents the allowed (soft-limited) step range.
///
/// The well-formedness condition [`StepRange::wf`] says that the minimum
/// does not exceed the maximum; `new` establishes it.
#[derive(Debug, Clone, Copy)]
pub struct StepRange {
    min_steps: Steps,
    max_steps: Steps,
}

impl StepRange {
    /// Minimum allowed step value (inclusive).
    pub closed spec fn spec_min(&self) -> int {
        self.min_steps@
    }

    /// Maximum allowed step value (inclusive).
    pub closed spec fn spec_max(&self) -> int {
        self.max_steps@
    }

    /// A range is well-formed when its minimum does not exceed its
    /// maximum.
    pub open spec fn wf(&self) -> bool {
        self.spec_min() <= self.spec_max()
    }

    /// Whether the range permits a move from `position` one step in
    /// `direction`: the new position must stay inside the range and must
    /// not overflow the step count.
    pub open spec fn spec_ok_to_move(&self, position: int, direction: Direction) -> bool {
        match direction {
            Direction::Positive => position < i32::MAX && position + 1 <= self.spec_max(),
            Direction::Negative => position > i32::MIN && position - 1 >= self.spec_min(),
        }
    }

    /// Creates a new `StepRange`.
    pub fn new(min_steps: Steps, max_steps: Steps) -> (r: Self)
        requires
            min_steps@ <= max_steps@,
        ensures
            r.spec_min() == min_steps@,
            r.spec_max() == max_steps@,
            r.wf(),
    {
        Self { min_steps, max_steps }
    }

    /// Minimum allowed step value (inclusive).
    pub fn min_steps(&self) -> (r: Steps)
        ensures
            r@ == self.spec_min(),
    {
        self.min_steps
    }

    /// Maximum allowed step value (inclusive).
    pub fn max_steps(&self) -> (r: Steps)
        ensures
            r@ == self.spec_max(),
    {
        self.max_steps
    }

    /// Returns the point half-way along the range from `min_steps` to
    /// `max_steps`.
    pub fn half(&self) -> (r: Steps)
        requires
            self.wf(),
        ensures
            r@ == self.spec_min() + (self.spec_max() - self.spec_min()) / 2,
    {
        let s_min = self.min_steps.get_value();
        let s_max = self.max_steps.get_value();
        let diff: i64 = (s_max as i64) - (s_min as i64);
        let s_half: i64 = (s_min as i64) + diff / 2;
        Steps::new(s_half as i32)
    }

    /// Checks if we're OK to move in a given direction: the position must
    /// stay inside the range, and the step counter must not overflow.
    pub fn ok_to_move(&self, position: Steps, direction: Direction) -> (r: bool)
        ensures
            r == self.spec_ok_to_move(position@, direction),
    {
        match direction {
            Direction::Positive => self.ok_to_move_positive(position),
            Direction::Negative => self.ok_to_move_negative(position),
        }
    }

    /// Checks if we're OK to move in a positive direction.
    pub fn ok_to_move_positive(&self, position: Steps) -> (r: bool)
        ensures
            r == self.spec_ok_to_move(position@, Direction::Positive),
    {
        match position.inc() {
            None => false,
            Some(next_position) => next_position.get_value() <= self.max_steps.get_value(),
        }
    }

    /// Checks if we're OK to move in a negative direction.
    pub fn ok_to_move_negative(&self, position: Steps) -> (r: bool)
        ensures
            r == self.spec_ok_to_move(position@, Direction::Negative),
    {
        match position.dec() {
            None => false,
            Some(next_position) => next_position.get_value() >= self.min_steps.get_value(),
        }
    }
}

/// Container for the pair of limit switches guarding an axis.
pub struct LimitSwitches<L> {
    positive_end: L,
    negative_end: L,
}

impl<L: LimitSwitch> LimitSwitches<L> {
    /// Creates a new pair of limit switches.
    ///
    /// `positive_end` engages at the end of the axis reached by moving in
    /// the positive direction; `negative_end` at the other end.
    pub fn new(positive_end: L, negative_end: L) -> Self {
        Self { positive_end, negative_end }
    }

    /// Check if the limit switches indicate we can move in the desired
    /// direction. The answer reflects a fresh hardware read, so nothing
    /// more is promised about it.
    pub fn ok_to_move(&self, direction: Direction) -> bool {
        match direction {
            Direction::Negative => self.ok_to_move_negative(),
            Direction::Positive => self.ok_to_move_positive(),
        }
    }

    /// Check if the positive-direction limit switch permits movement.
    pub fn ok_to_move_positive(&self) -> bool {
        let s = self.positive_end.read_limitswitch_state();
        s == LimitSwitchState::NotAtLimit
    }

    /// Check if the negative-direction limit switch permits movement.
    pub fn ok_to_move_negative(&self) -> bool {
        let s = self.negative_end.read_limitswitch_state();
        s == LimitSwitchState::NotAtLimit
    }
}

/// Stepper which tracks its position and uses limit switches.
///
/// Before a step is taken, the limit switch facing the direction of
/// motion is consulted, then the soft range (if one has been installed by
/// homing), and only then is the wrapped [`PositionedStepper`] moved.
/// Each veto is a pure refusal: no state changes.
pub struct LimitedStepper<S, L> {
    stepper: PositionedStepper<S>,
    limit_switches: LimitSwitches<L>,
    soft_range: Option<StepRange>,
}

impl<S: Stepper, L: LimitSwitch> LimitedStepper<S, L> {
    /// The tracked position of the axis.
    pub closed spec fn spec_position(&self) -> int {
        self.stepper@
    }

    /// The soft travel range, absent until a homing run succeeds.
    pub closed spec fn spec_soft_range(&self) -> Option<StepRange> {
        self.soft_range
    }

    /// Any installed soft range is well-formed.
    pub open spec fn wf(&self) -> bool {
        self.spec_soft_range() matches Some(rg) ==> rg.wf()
    }

    /// Creates a new `LimitedStepper`.
    ///
    /// Initially there is no soft range for the `LimitedStepper`.
    /// Usually, establishing the soft range requires procedural zeroing.
    pub fn new(stepper: PositionedStepper<S>, limit_switch_pos: L, limit_switch_neg: L) -> (r:
        Self)
        ensures
            r.wf(),
            r.spec_position() == stepper@,
            r.spec_soft_range() is None,
    {
        let limit_switches = LimitSwitches::new(limit_switch_pos, limit_switch_neg);
        let soft_range = None;

        Self { stepper, limit_switches, soft_range }
    }

    /// Takes a step.
    ///
    /// A step is taken provided the limit switch in the direction of
    /// motion is not engaged, the soft range (if there is one) includes
    /// the step we want to take, and moving would not overflow the step
    /// count. On success the new position is returned; on any veto or
    /// overflow, `None` is returned and nothing changes.
    pub fn step(&mut self, direction: Direction) -> (r: Option<Steps>)
        ensures
            final(self).spec_soft_range() == old(self).spec_soft_range(),
            r is Some ==> spec_step_target(old(self).spec_position(), direction) == Some(
                final(self).spec_position(),
            ),
            r matches Some(s) ==> s@ == final(self).spec_position(),
            r is None ==> final(self).spec_position() == old(self).spec_position(),
            (old(self).spec_soft_range() matches Some(rg) && !rg.spec_ok_to_move(
                old(self).spec_position(),
                direction,
            )) ==> r is None,
            old(self).spec_soft_range() matches Some(rg) ==> ((r is Some && direction
                == Direction::Positive) ==> final(self).spec_position() <= rg.spec_max()),
            old(self).spec_soft_range() matches Some(rg) ==> ((r is Some && direction
                == Direction::Negative) ==> final(self).spec_position() >= rg.spec_min()),
    {
        // Bail if the limit switches do not allow us to move in the
        // specified direction.
        if !self.limit_switches.ok_to_move(direction) {
            return None;
        }

        // Bail if the soft range does not allow us to move in the
        // specified direction.
        if let Some(sr) = self.soft_range {
            if !sr.ok_to_move(self.stepper.get_position(), direction) {
                return None;
            }
        }

        // Both the limit switches and soft range allow the move; try to
        // move the underlying stepper.
        self.stepper.step(direction)
    }

    /// Returns the current position of the stepper.
    pub fn get_position(&self) -> (r: Steps)
        ensures
            r@ == self.spec_position(),
    {
        self.stepper.get_position()
    }

    /// Returns the soft travel range, if homing has installed one.
    pub fn soft_range(&self) -> (r: Option<StepRange>)
        ensures
            r == self.spec_soft_range(),
    {
        self.soft_range
    }

    /// Returns the state of the negative-end limit switch.
    fn negative_limit_state(&self) -> LimitSwitchState {
        self.limit_switches.negative_end.read_limitswitch_state()
    }

    /// Returns the state of the positive-end limit switch.
    fn positive_limit_state(&self) -> LimitSwitchState {
        self.limit_switches.positive_end.read_limitswitch_state()
    }

    /// Runs a zeroing procedure.
    ///
    /// The phases run in order, and any step failure aborts the whole
    /// procedure immediately with `None`:
    ///
    /// 1. If the negative limit switch is engaged, move in the positive
    ///    direction until it disengages.
    /// 2. Move in the negative direction until the negative limit switch
    ///    engages, then back off one step.
    /// 3. Reset the logical position to zero at this physical reference.
    /// 4. Move `soft_safety_margin` steps in the positive direction; the
    ///    resulting position becomes the range minimum.
    /// 5. Move in the positive direction until the positive limit switch
    ///    engages, then back off one step.
    /// 6. Move `soft_safety_margin` steps in the negative direction; the
    ///    resulting position becomes the range maximum.
    /// 7. If the minimum is not below the maximum, fail without
    ///    installing any range; otherwise install the range and move back
    ///    to its midpoint.
    ///
    /// Every physical step is followed by a delay of `move_delay_us`
    /// microseconds, which controls the speed of zeroing.
    ///
    /// On success the returned position equals the installed range's
    /// midpoint, and the range minimum is exactly the safety margin.
    pub fn run_zeroing<D: Delay>(&mut self, move_delay_us: u32, soft_safety_margin: Steps) -> (r:
        Option<Steps>)
        requires
            soft_safety_margin@ >= 0,
        ensures
            old(self).wf() ==> final(self).wf(),
            r matches Some(p) ==> final(self).spec_soft_range() matches Some(rg) && {
                &&& rg.spec_min() == soft_safety_margin@
                &&& rg.spec_min() < rg.spec_max()
                &&& p@ == rg.spec_min() + (rg.spec_max() - rg.spec_min()) / 2
                &&& final(self).spec_position() == p@
            },
            r is None ==> final(self).spec_soft_range() == old(self).spec_soft_range() || (
            final(self).spec_soft_range() matches Some(rg) && rg.spec_min()
                == soft_safety_margin@ && rg.spec_min() < rg.spec_max()),
    {
        // Run all the side-effects for zeroing.
        if self.zeroing_disengage_negative::<D>(move_delay_us).is_none() {
            return None;
        }
        if self.zeroing_engage_negative::<D>(move_delay_us).is_none() {
            return None;
        }
        self.stepper.set_gauge_zero();
        if self.zeroing_backoff_negative::<D>(move_delay_us, soft_safety_margin).is_none() {
            return None;
        }
        let min_steps = self.stepper.get_position();
        if self.zeroing_engage_positive::<D>(move_delay_us).is_none() {
            return None;
        }
        if self.zeroing_backoff_positive::<D>(move_delay_us, soft_safety_margin).is_none() {
            return None;
        }
        let max_steps = self.stepper.get_position();
        if min_steps.get_value() >= max_steps.get_value() {
            return None;
        }
        self.soft_range = Some(StepRange::new(min_steps, max_steps));
        if self.zeroing_center::<D>(move_delay_us).is_none() {
            return None;
        }

        // Return the position.
        Some(self.get_position())
    }

    /// Start of zeroing: disengage the negative limit switch.
    ///
    /// While the negative limit switch is engaged, move the axis in the
    /// positive direction. If any step is refused, fail.
    fn zeroing_disengage_negative<D: Delay>(&mut self, move_delay_us: u32) -> (r: Option<()>)
        ensures
            final(self).spec_soft_range() == old(self).spec_soft_range(),
    {
        while self.negative_limit_state() == LimitSwitchState::AtLimit
            invariant
                self.spec_soft_range() == old(self).spec_soft_range(),
            decreases i32::MAX - self.spec_position(),
        {
            if self.step(Direction::Positive).is_none() {
                return None;
            }
            D::delay_us(MicroSeconds::new(move_delay_us));
        }
        Some(())
    }

    /// Engage the negative limit switch, then back off one step.
    fn zeroing_engage_negative<D: Delay>(&mut self, move_delay_us: u32) -> (r: Option<()>)
        ensures
            final(self).spec_soft_range() == old(self).spec_soft_range(),
    {
        while self.negative_limit_state() == LimitSwitchState::NotAtLimit
            invariant
                self.spec_soft_range() == old(self).spec_soft_range(),
            decreases self.spec_position() - i32::MIN,
        {
            if self.step(Direction::Negative).is_none() {
                return None;
            }
            D::delay_us(MicroSeconds::new(move_delay_us));
        }
        if self.step(Direction::Positive).is_none() {
            return None;
        }
        Some(())
    }

    /// Back off the negative limit switch by the specified safety margin.
    fn zeroing_backoff_negative<D: Delay>(
        &mut self,
        move_delay_us: u32,
        soft_safety_margin: Steps,
    ) -> (r: Option<()>)
        requires
            soft_safety_margin@ >= 0,
        ensures
            final(self).spec_soft_range() == old(self).spec_soft_range(),
            r is Some ==> final(self).spec_position() == old(self).spec_position()
                + soft_safety_margin@,
    {
        let mut step_count = Steps::zero();
        while step_count.get_value() < soft_safety_margin.get_value()
            invariant
                self.spec_soft_range() == old(self).spec_soft_range(),
                0 <= step_count@ <= soft_safety_margin@,
                self.spec_position() == old(self).spec_position() + step_count@,
            decreases soft_safety_margin@ - step_count@,
        {
            if self.step(Direction::Positive).is_none() {
                return None;
            }
            D::delay_us(MicroSeconds::new(move_delay_us));
            step_count = step_count.inc().unwrap();
        }
        Some(())
    }

    /// Engage the positive limit switch, then back off one step.
    fn zeroing_engage_positive<D: Delay>(&mut self, move_delay_us: u32) -> (r: Option<()>)
        ensures
            final(self).spec_soft_range() == old(self).spec_soft_range(),
    {
        while self.positive_limit_state() == LimitSwitchState::NotAtLimit
            invariant
                self.spec_soft_range() == old(self).spec_soft_range(),
            decreases i32::MAX - self.spec_position(),
        {
            if self.step(Direction::Positive).is_none() {
                return None;
            }
            D::delay_us(MicroSeconds::new(move_delay_us));
        }
        if self.step(Direction::Negative).is_none() {
            return None;
        }
        Some(())
    }

    /// Back off the positive limit switch by the specified safety margin.
    fn zeroing_backoff_positive<D: Delay>(
        &mut self,
        move_delay_us: u32,
        soft_safety_margin: Steps,
    ) -> (r: Option<()>)
        requires
            soft_safety_margin@ >= 0,
        ensures
            final(self).spec_soft_range() == old(self).spec_soft_range(),
            r is Some ==> final(self).spec_position() == old(self).spec_position()
                - soft_safety_margin@,
    {
        let mut step_count = Steps::zero();
        while step_count.get_value() < soft_safety_margin.get_value()
            invariant
                self.spec_soft_range() == old(self).spec_soft_range(),
                0 <= step_count@ <= soft_safety_margin@,
                self.spec_position() == old(self).spec_position() - step_count@,
            decreases soft_safety_margin@ - step_count@,
        {
            if self.step(Direction::Negative).is_none() {
                return None;
            }
            D::delay_us(MicroSeconds::new(move_delay_us));
            step_count = step_count.inc().unwrap();
        }
        Some(())
    }

    /// After installing the soft range: move down to its midpoint.
    fn zeroing_center<D: Delay>(&mut self, move_delay_us: u32) -> (r: Option<()>)
        requires
            old(self).wf(),
        ensures
            final(self).spec_soft_range() == old(self).spec_soft_range(),
            old(self).spec_soft_range() matches Some(rg) ==> (r is Some ==> {
                let target = rg.spec_min() + (rg.spec_max() - rg.spec_min()) / 2;
                final(self).spec_position() == if old(self).spec_position() >= target {
                    target
                } else {
                    old(self).spec_position()
                }
            }),
    {
        let range = match self.soft_range {
            Some(range) => range,
            None => {
                return None;
            },
        };
        let target = range.half();
        while target.get_value() < self.get_position().get_value()
            invariant
                self.spec_soft_range() == old(self).spec_soft_range(),
                target@ == range.spec_min() + (range.spec_max() - range.spec_min()) / 2,
                old(self).spec_soft_range() == Some(range),
                old(self).spec_position() >= target@ ==> target@ <= self.spec_position()
                    <= old(self).spec_position(),
                old(self).spec_position() < target@ ==> self.spec_position() == old(
                    self,
                ).spec_position(),
            decreases self.spec_position() - target@,
        {
            if self.step(Direction::Negative).is_none() {
                return None;
            }
            D::delay_us(MicroSeconds::new(move_delay_us));
        }
        Some(())
    }
}

impl<S: Stepper, L: LimitSwitch> CheckedStepper for LimitedStepper<S, L> {
    fn try_step(&mut self, direction: Direction) -> Option<Steps> {
        self.step(direction)
    }
}

} // verus!
