//! A simulated axis whose limit switches are coupled to its physical
//! position, together with a proof of what the homing procedure does on
//! such an axis.
//!
//! The hardware traits leave switch reads unconstrained, so the generic
//! homing contract of `LimitedStepper` cannot mention the physical travel
//! range. `SimulatedAxis` closes the loop: it owns the physical position
//! and derives both switch states from it, applying exactly the veto
//! rules of the real stack ([`StepRange::spec_ok_to_move`], one step per
//! pulse, checked position tracking). Its `run_zeroing` runs the same
//! phases as `LimitedStepper::run_zeroing`, and its contract states the
//! homing law: zeroing succeeds exactly when twice the safety margin is
//! less than the physical travel range, the committed soft range is then
//! exactly `[margin, travel - margin]`, and the final centered position
//! is half the travel range.

use vstd::prelude::*;
use vstd::arithmetic::div_mod::lemma_fundamental_div_mod;
use vstd::arithmetic::div_mod::lemma_fundamental_div_mod_converse_div;
use crate::kinematics::direction::Direction;
use crate::kinematics::limit_switch::LimitSwitchState;
use crate::kinematics::limited_stepper::StepRange;
use crate::kinematics::steps::Steps;

verus! {

/// Bound on the coordinates a [`SimulatedAxis`] is set up with; keeps all
/// intermediate positions of a homing run comfortably inside `i32`.
pub const SIM_AXIS_BOUND: i32 = 0x10000000;

/// A stepper axis simulated in software: the physical carriage position
/// is an integer, the negative limit switch engages strictly below
/// `neg_limit`, and the positive limit switch engages strictly above
/// `pos_limit`.
pub struct SimulatedAxis {
    phys: i32,
    neg_limit: i32,
    pos_limit: i32,
    position: Steps,
    soft_range: Option<StepRange>,
}

impl SimulatedAxis {
    /// Physical position of the simulated carriage.
    pub closed spec fn spec_phys(&self) -> int {
        self.phys as int
    }

    /// Positions strictly below this engage the negative limit switch.
    pub closed spec fn spec_neg_limit(&self) -> int {
        self.neg_limit as int
    }

    /// Positions strictly above this engage the positive limit switch.
    pub closed spec fn spec_pos_limit(&self) -> int {
        self.pos_limit as int
    }

    /// The logical (tracked) position, as the real stepper stack tracks
    /// it.
    pub closed spec fn spec_position(&self) -> int {
        self.position@
    }

    /// The installed soft range, absent until homing succeeds.
    pub closed spec fn spec_soft_range(&self) -> Option<StepRange> {
        self.soft_range
    }

    /// The physical travel range between the two switches.
    pub open spec fn spec_travel(&self) -> int {
        self.spec_pos_limit() - self.spec_neg_limit()
    }

    /// The switch coordinates lie within the simulation bound, in order.
    pub open spec fn wf(&self) -> bool {
        &&& -SIM_AXIS_BOUND <= self.spec_neg_limit()
        &&& self.spec_neg_limit() <= self.spec_pos_limit()
        &&& self.spec_pos_limit() <= SIM_AXIS_BOUND
    }

    /// State of the negative-end switch, derived from the position.
    pub open spec fn spec_negative_switch(&self) -> LimitSwitchState {
        if self.spec_phys() < self.spec_neg_limit() {
            LimitSwitchState::AtLimit
        } else {
            LimitSwitchState::NotAtLimit
        }
    }

    /// State of the positive-end switch, derived from the position.
    pub open spec fn spec_positive_switch(&self) -> LimitSwitchState {
        if self.spec_phys() > self.spec_pos_limit() {
            LimitSwitchState::AtLimit
        } else {
            LimitSwitchState::NotAtLimit
        }
    }

    /// Whether a step in `direction` is permitted right now, by the same
    /// rules as the real stack: the facing switch must not be engaged,
    /// the soft range (if installed) must admit the move, and the tracked
    /// position must not overflow.
    pub open spec fn spec_ok_to_move(&self, direction: Direction) -> bool {
        match direction {
            Direction::Positive => {
                &&& self.spec_phys() <= self.spec_pos_limit()
                &&& (self.spec_soft_range() matches Some(rg) ==> rg.spec_ok_to_move(
                    self.spec_position(),
                    Direction::Positive,
                ))
                &&& self.spec_position() < i32::MAX
            },
            Direction::Negative => {
                &&& self.spec_phys() >= self.spec_neg_limit()
                &&& (self.spec_soft_range() matches Some(rg) ==> rg.spec_ok_to_move(
                    self.spec_position(),
                    Direction::Negative,
                ))
                &&& self.spec_position() > i32::MIN
            },
        }
    }

    /// Creates a simulated axis with the carriage at `start`, an
    /// un-homed tracked position of zero, and no soft range.
    pub fn new(start: Steps, negative_limit: Steps, positive_limit: Steps) -> (r: Self)
        requires
            -SIM_AXIS_BOUND <= start@ <= SIM_AXIS_BOUND,
            -SIM_AXIS_BOUND <= negative_limit@,
            negative_limit@ <= positive_limit@,
            positive_limit@ <= SIM_AXIS_BOUND,
        ensures
            r.wf(),
            r.spec_phys() == start@,
            r.spec_neg_limit() == negative_limit@,
            r.spec_pos_limit() == positive_limit@,
            r.spec_position() == 0,
            r.spec_soft_range() is None,
    {
        Self {
            phys: start.get_value(),
            neg_limit: negative_limit.get_value(),
            pos_limit: positive_limit.get_value(),
            position: Steps::zero(),
            soft_range: None,
        }
    }

    /// Returns the tracked position.
    pub fn get_position(&self) -> (r: Steps)
        ensures
            r@ == self.spec_position(),
    {
        self.position
    }

    /// Returns the physical carriage position.
    pub fn get_phys_position(&self) -> (r: i32)
        ensures
            r == self.spec_phys(),
    {
        self.phys
    }

    /// Returns the installed soft range, if homing has succeeded.
    pub fn soft_range(&self) -> (r: Option<StepRange>)
        ensures
            r == self.spec_soft_range(),
    {
        self.soft_range
    }

    /// Reads the negative-end limit switch.
    pub fn negative_switch_state(&self) -> (r: LimitSwitchState)
        ensures
            r == self.spec_negative_switch(),
    {
        if self.phys < self.neg_limit {
            LimitSwitchState::AtLimit
        } else {
            LimitSwitchState::NotAtLimit
        }
    }

    /// Reads the positive-end limit switch.
    pub fn positive_switch_state(&self) -> (r: LimitSwitchState)
        ensures
            r == self.spec_positive_switch(),
    {
        if self.phys > self.pos_limit {
            LimitSwitchState::AtLimit
        } else {
            LimitSwitchState::NotAtLimit
        }
    }

    /// Takes a step, with the veto order of the real stack: facing limit
    /// switch first, then the soft range, then the overflow check; only
    /// then do the physical and the tracked position move, together.
    pub fn step(&mut self, direction: Direction) -> (r: Option<Steps>)
        requires
            i32::MIN < old(self).spec_phys() < i32::MAX,
        ensures
            final(self).spec_neg_limit() == old(self).spec_neg_limit(),
            final(self).spec_pos_limit() == old(self).spec_pos_limit(),
            final(self).spec_soft_range() == old(self).spec_soft_range(),
            r is Some <==> old(self).spec_ok_to_move(direction),
            r is None ==> final(self).spec_phys() == old(self).spec_phys()
                && final(self).spec_position() == old(self).spec_position(),
            (r is Some && direction == Direction::Positive)
                ==> final(self).spec_phys() == old(self).spec_phys() + 1
                && final(self).spec_position() == old(self).spec_position() + 1,
            (r is Some && direction == Direction::Negative)
                ==> final(self).spec_phys() == old(self).spec_phys() - 1
                && final(self).spec_position() == old(self).spec_position() - 1,
            r matches Some(s) ==> s@ == final(self).spec_position(),
    {
        // Hard limit: the switch facing the direction of motion.
        let engaged = match direction {
            Direction::Positive => self.phys > self.pos_limit,
            Direction::Negative => self.phys < self.neg_limit,
        };
        if engaged {
            return None;
        }

        // Soft limit, if a range has been installed.
        if let Some(sr) = self.soft_range {
            if !sr.ok_to_move(self.position, direction) {
                return None;
            }
        }

        // Checked position tracking, then the physical move.
        match direction {
            Direction::Positive => match self.position.inc() {
                None => None,
                Some(p) => {
                    self.phys = self.phys + 1;
                    self.position = p;
                    Some(p)
                },
            },
            Direction::Negative => match self.position.dec() {
                None => None,
                Some(p) => {
                    self.phys = self.phys - 1;
                    self.position = p;
                    Some(p)
                },
            },
        }
    }

    /// Runs the homing procedure on the simulated axis: the same phases
    /// as `LimitedStepper::run_zeroing`, against the coupled switches.
    ///
    /// The contract is the homing law: on an un-homed axis, zeroing
    /// succeeds exactly when twice the safety margin is less than the
    /// physical travel range; on success the committed soft range is
    /// exactly `[margin, travel - margin]` and the final centered
    /// position is half the travel range (integer division); on failure
    /// no soft range is installed.
    #[verifier::loop_isolation(false)]
    pub fn run_zeroing(&mut self, soft_safety_margin: Steps) -> (r: Option<Steps>)
        requires
            old(self).wf(),
            old(self).spec_soft_range() is None,
            -SIM_AXIS_BOUND <= old(self).spec_phys() <= SIM_AXIS_BOUND,
            -SIM_AXIS_BOUND <= old(self).spec_position() <= SIM_AXIS_BOUND,
            0 <= soft_safety_margin@ <= SIM_AXIS_BOUND,
        ensures
            final(self).wf(),
            final(self).spec_neg_limit() == old(self).spec_neg_limit(),
            final(self).spec_pos_limit() == old(self).spec_pos_limit(),
            r is Some <==> 2 * soft_safety_margin@ < old(self).spec_travel(),
            r matches Some(p) ==> final(self).spec_soft_range() matches Some(rg) && {
                &&& rg.spec_min() == soft_safety_margin@
                &&& rg.spec_max() == old(self).spec_travel() - soft_safety_margin@
                &&& p@ == old(self).spec_travel() / 2
                &&& final(self).spec_position() == p@
            },
            r is Some ==> final(self).spec_phys() == old(self).spec_neg_limit() + final(self).spec_position(),
            r is None ==> final(self).spec_soft_range() is None,
    {
        let ghost neg = old(self).spec_neg_limit();
        let ghost pos = old(self).spec_pos_limit();
        let ghost travel = pos - neg;
        let margin = soft_safety_margin.get_value();

        // Phase 1: if the negative switch is engaged, move positive until
        // it disengages.
        let ghost phys1 = self.spec_phys();
        let ghost lpos1 = self.spec_position();
        while self.negative_switch_state() == LimitSwitchState::AtLimit
            invariant
                self.spec_neg_limit() == neg,
                self.spec_pos_limit() == pos,
                self.spec_soft_range() is None,
                -SIM_AXIS_BOUND <= neg <= pos <= SIM_AXIS_BOUND,
                -SIM_AXIS_BOUND <= phys1 <= SIM_AXIS_BOUND,
                -SIM_AXIS_BOUND <= lpos1 <= SIM_AXIS_BOUND,
                phys1 <= self.spec_phys(),
                self.spec_phys() <= if phys1 >= neg {
                    phys1
                } else {
                    neg
                },
                self.spec_position() == lpos1 + (self.spec_phys() - phys1),
            decreases neg - self.spec_phys(),
        {
            if self.step(Direction::Positive).is_none() {
                return None;
            }
        }

        // Phase 2: move negative until the negative switch engages, then
        // back off one step.
        let ghost phys2 = self.spec_phys();
        let ghost lpos2 = self.spec_position();
        while self.negative_switch_state() == LimitSwitchState::NotAtLimit
            invariant
                self.spec_neg_limit() == neg,
                self.spec_pos_limit() == pos,
                self.spec_soft_range() is None,
                -SIM_AXIS_BOUND <= neg <= pos <= SIM_AXIS_BOUND,
                neg - 1 <= self.spec_phys() <= phys2,
                phys2 <= SIM_AXIS_BOUND,
                -3 * SIM_AXIS_BOUND <= lpos2 <= 3 * SIM_AXIS_BOUND,
                self.spec_position() == lpos2 + (self.spec_phys() - phys2),
            decreases self.spec_phys() - (neg - 1),
        {
            if self.step(Direction::Negative).is_none() {
                return None;
            }
        }
        if self.step(Direction::Positive).is_none() {
            return None;
        }

        // Phase 3: the carriage sits at the reference point; reset the
        // logical position to zero without moving.
        self.position = Steps::zero();

        // Phase 4: step positive by the safety margin; this is where the
        // range minimum will sit.
        let mut step_count = Steps::zero();
        while step_count.get_value() < margin
            invariant
                self.spec_neg_limit() == neg,
                self.spec_pos_limit() == pos,
                self.spec_soft_range() is None,
                -SIM_AXIS_BOUND <= neg <= pos <= SIM_AXIS_BOUND,
                margin == soft_safety_margin@,
                0 <= soft_safety_margin@ <= SIM_AXIS_BOUND,
                travel == pos - neg,
                0 <= step_count@ <= soft_safety_margin@,
                self.spec_phys() == neg + step_count@,
                self.spec_position() == step_count@,
                self.spec_phys() <= pos + 1,
            decreases soft_safety_margin@ - step_count@,
        {
            if self.step(Direction::Positive).is_none() {
                // The positive switch engaged before the margin was
                // walked out: the margin exceeds the travel range.
                return None;
            }
            step_count = step_count.inc().unwrap();
        }
        let min_steps = self.get_position();

        // Phase 5: move positive until the positive switch engages, then
        // back off one step.
        while self.positive_switch_state() == LimitSwitchState::NotAtLimit
            invariant
                self.spec_neg_limit() == neg,
                self.spec_pos_limit() == pos,
                self.spec_soft_range() is None,
                -SIM_AXIS_BOUND <= neg <= pos <= SIM_AXIS_BOUND,
                margin == soft_safety_margin@,
                0 <= soft_safety_margin@,
                soft_safety_margin@ <= travel + 1,
                travel == pos - neg,
                min_steps@ == soft_safety_margin@,
                neg + soft_safety_margin@ <= self.spec_phys() <= pos + 1,
                self.spec_position() == self.spec_phys() - neg,
            decreases pos + 1 - self.spec_phys(),
        {
            if self.step(Direction::Positive).is_none() {
                return None;
            }
        }
        if self.step(Direction::Negative).is_none() {
            return None;
        }

        // Phase 6: step negative by the safety margin; this is where the
        // range maximum will sit.
        let mut step_count = Steps::zero();
        while step_count.get_value() < margin
            invariant
                self.spec_neg_limit() == neg,
                self.spec_pos_limit() == pos,
                self.spec_soft_range() is None,
                -SIM_AXIS_BOUND <= neg <= pos <= SIM_AXIS_BOUND,
                margin == soft_safety_margin@,
                0 <= soft_safety_margin@,
                soft_safety_margin@ <= travel + 1,
                travel == pos - neg,
                min_steps@ == soft_safety_margin@,
                0 <= step_count@ <= soft_safety_margin@,
                self.spec_phys() == pos - step_count@,
                self.spec_position() == travel - step_count@,
            decreases soft_safety_margin@ - step_count@,
        {
            if self.step(Direction::Negative).is_none() {
                return None;
            }
            step_count = step_count.inc().unwrap();
        }
        let max_steps = self.get_position();

        // Phase 7: a degenerate range means the margins ate the whole
        // travel; fail without installing anything.
        if min_steps.get_value() >= max_steps.get_value() {
            return None;
        }
        let new_range = StepRange::new(min_steps, max_steps);
        self.soft_range = Some(new_range);

        // Phase 8: move down to the center of the committed range.
        let target = new_range.half();
        while target.get_value() < self.get_position().get_value()
            invariant
                self.spec_neg_limit() == neg,
                self.spec_pos_limit() == pos,
                self.spec_soft_range() == Some(new_range),
                -SIM_AXIS_BOUND <= neg <= pos <= SIM_AXIS_BOUND,
                0 <= soft_safety_margin@,
                2 * soft_safety_margin@ < travel,
                travel == pos - neg,
                new_range.spec_min() == soft_safety_margin@,
                new_range.spec_max() == travel - soft_safety_margin@,
                target@ == soft_safety_margin@ + (travel - 2 * soft_safety_margin@) / 2,
                soft_safety_margin@ <= target@,
                target@ <= self.spec_position() <= travel - soft_safety_margin@,
                self.spec_phys() == neg + self.spec_position(),
            decreases self.spec_position() - target@,
        {
            if self.step(Direction::Negative).is_none() {
                return None;
            }
        }

        proof {
            // The centered position is half the travel range: removing
            // the margin from both ends does not move the midpoint.
            let q = travel / 2;
            let rr = travel % 2;
            lemma_fundamental_div_mod(travel, 2);
            lemma_fundamental_div_mod_converse_div(
                travel - 2 * soft_safety_margin@,
                2,
                q - soft_safety_margin@,
                rr,
            );
        }
        Some(self.get_position())
    }
}

} // verus!
