//! The two-axis machine: homing, move-mode handling, and the
//! synchronized move executor that drives both axes in lock-step.

use vstd::prelude::*;
use vstd::math::abs;
use crate::commands::command::Move;
use crate::kinematics::lemma_trunc_div_bound;
use crate::kinematics::lemma_trunc_div_cancel;
use crate::kinematics::lemma_trunc_div_scale_range;
use crate::kinematics::spec_fits_i32;
use crate::kinematics::spec_trunc_div;
use crate::kinematics::Delay;
use crate::kinematics::Direction;
use crate::kinematics::LimitSwitch;
use crate::kinematics::LimitedStepper;
use crate::kinematics::StepRange;
use crate::kinematics::LinearConverter;
use crate::kinematics::PositionedStepper;
use crate::kinematics::RotaryConverter;
use crate::kinematics::Stepper;
use crate::kinematics::Steps;
use crate::microns::Microns;
use crate::microseconds::MicroSeconds;
use crate::millidegrees::MilliDegrees;

verus! {

/// Whether `G0` amounts name absolute positions or relative offsets.
#[derive(Debug, PartialEq, Eq, Structural, Clone, Copy)]
pub enum MoveMode {
    Absolute,
    Relative,
}

/// Failures of the machine's motion commands.
#[derive(Debug, PartialEq, Eq, Structural, Clone, Copy)]
pub enum Error {
    /// The homing procedure did not complete; the axis is un-homed.
    HomingFailed,
    /// A move was requested before any successful homing run.
    NotZeroed,
    /// A step was refused (limit or soft-range veto) during a move;
    /// partial progress is retained.
    MoveNotCompleted,
    /// Converter or move arithmetic left the representable range; the
    /// prior position is retained exactly.
    Overflow,
}

/// The motion core of the apparatus: a limit-switch-guarded linear axis,
/// a free-turning rotary axis, their unit converters, the homing flag
/// and the positioning mode.
pub struct Machine<SX, LX, SA> {
    x_axis: LimitedStepper<SX, LX>,
    a_axis: PositionedStepper<SA>,
    x_params: LinearConverter,
    a_params: RotaryConverter,
    zeroed: bool,
    move_mode: MoveMode,
}

/// The proportionally interpolated target for one axis at tick `i` of
/// `move_steps`: the start position plus the truncated share of the
/// delta, which always lies between the start and the final target.
fn interpolated_target(start: i32, delta: i32, i: i64, move_steps: i64) -> (r: i32)
    requires
        1 <= i <= move_steps,
        move_steps <= 0x80000000,
        i32::MIN <= start + delta <= i32::MAX,
    ensures
        r as int == start + spec_trunc_div(delta * i, move_steps as int),
{
    proof {
        lemma_trunc_div_scale_range(delta as int, i as int, move_steps as int);
        assert(-0x4000000080000000 <= (delta as int) * (i as int) <= 0x4000000080000000)
            by (nonlinear_arith)
            requires
                -0x80000000 <= delta as int <= 0x7fffffff,
                0 <= i as int <= 0x80000000,
        ;
        lemma_trunc_div_bound((delta as int) * (i as int), move_steps as int);
    }
    let p: i64 = (delta as i64) * i;
    let q: i64 = p.checked_div(move_steps).unwrap();
    ((start as i64) + q) as i32
}

impl<SX: Stepper, LX: LimitSwitch, SA: Stepper> Machine<SX, LX, SA> {
    /// Tracked position of the linear axis.
    pub closed spec fn spec_x_position(&self) -> int {
        self.x_axis.spec_position()
    }

    /// Tracked position of the rotary axis.
    pub closed spec fn spec_a_position(&self) -> int {
        self.a_axis@
    }

    /// The linear axis' soft travel range, if homing has installed one.
    pub closed spec fn spec_x_soft_range(&self) -> Option<StepRange> {
        self.x_axis.spec_soft_range()
    }

    /// Whether a homing run has succeeded since construction.
    pub closed spec fn spec_zeroed(&self) -> bool {
        self.zeroed
    }

    /// The current positioning mode.
    pub closed spec fn spec_move_mode(&self) -> MoveMode {
        self.move_mode
    }

    /// The linear axis' converter.
    pub closed spec fn spec_x_params(&self) -> LinearConverter {
        self.x_params
    }

    /// The rotary axis' converter.
    pub closed spec fn spec_a_params(&self) -> RotaryConverter {
        self.a_params
    }

    /// Any installed soft range is well-formed.
    pub open spec fn wf(&self) -> bool {
        self.spec_x_soft_range() matches Some(rg) ==> rg.wf()
    }

    /// The parts of the machine that a plain move never touches: the
    /// soft range, the homing flag, the positioning mode and the
    /// converters.
    pub open spec fn spec_same_config(&self, other: &Self) -> bool {
        &&& self.spec_x_soft_range() == other.spec_x_soft_range()
        &&& self.spec_zeroed() == other.spec_zeroed()
        &&& self.spec_move_mode() == other.spec_move_mode()
        &&& self.spec_x_params() == other.spec_x_params()
        &&& self.spec_a_params() == other.spec_a_params()
    }

    /// The step targets a move resolves to under the current mode, or
    /// `None` where a conversion or offset overflows.
    pub open spec fn spec_move_targets(&self, x_amount: int, a_amount: int) -> Option<(int, int)> {
        match (self.spec_x_params().spec_to_steps(x_amount), self.spec_a_params().spec_to_steps(
            a_amount,
        )) {
            (Some(sx), Some(sa)) => match self.spec_move_mode() {
                MoveMode::Absolute => Some((sx, sa)),
                MoveMode::Relative => if spec_fits_i32(self.spec_x_position() + sx)
                    && spec_fits_i32(self.spec_a_position() + sa) {
                    Some((self.spec_x_position() + sx, self.spec_a_position() + sa))
                } else {
                    None
                },
            },
            _ => None,
        }
    }

    /// Assembles a machine from its axes and converters; un-homed, in
    /// absolute positioning mode.
    pub fn new(
        x_axis: LimitedStepper<SX, LX>,
        a_axis: PositionedStepper<SA>,
        x_params: LinearConverter,
        a_params: RotaryConverter,
    ) -> (r: Self)
        ensures
            r.spec_x_position() == x_axis.spec_position(),
            r.spec_a_position() == a_axis@,
            r.spec_x_soft_range() == x_axis.spec_soft_range(),
            !r.spec_zeroed(),
            r.spec_move_mode() == MoveMode::Absolute,
            r.spec_x_params() == x_params,
            r.spec_a_params() == a_params,
    {
        Self { x_axis, a_axis, x_params, a_params, zeroed: false, move_mode: MoveMode::Absolute }
    }

    /// Current position of the linear axis, in steps.
    pub fn x_position(&self) -> (r: Steps)
        ensures
            r@ == self.spec_x_position(),
    {
        self.x_axis.get_position()
    }

    /// Current position of the rotary axis, in steps.
    pub fn a_position(&self) -> (r: Steps)
        ensures
            r@ == self.spec_a_position(),
    {
        self.a_axis.get_position()
    }

    /// The linear axis' soft travel range, if one has been installed.
    pub fn x_soft_range(&self) -> (r: Option<StepRange>)
        ensures
            r == self.spec_x_soft_range(),
    {
        self.x_axis.soft_range()
    }

    /// Whether the machine has been homed.
    pub fn is_zeroed(&self) -> (r: bool)
        ensures
            r == self.spec_zeroed(),
    {
        self.zeroed
    }

    /// Current position of the linear axis, converted for status
    /// reporting.
    pub fn x_position_microns(&self) -> (r: Option<Microns>)
        ensures
            r is Some <==> self.spec_x_params().spec_to_microns(self.spec_x_position()) is Some,
            r matches Some(m) ==> Some(m@) == self.spec_x_params().spec_to_microns(
                self.spec_x_position(),
            ),
    {
        self.x_params.to_microns(self.x_axis.get_position())
    }

    /// Current position of the rotary axis, converted for status
    /// reporting.
    pub fn a_position_millidegrees(&self) -> (r: Option<MilliDegrees>)
        ensures
            r is Some <==> self.spec_a_params().spec_to_millidegrees(
                self.spec_a_position(),
            ) is Some,
            r matches Some(m) ==> Some(m@) == self.spec_a_params().spec_to_millidegrees(
                self.spec_a_position(),
            ),
    {
        self.a_params.to_millidegrees(self.a_axis.get_position())
    }

    /// Sets the positioning mode; nothing else changes.
    pub fn set_move_mode(&mut self, move_mode: MoveMode) -> (r: Result<(), Error>)
        ensures
            r is Ok,
            final(self).spec_move_mode() == move_mode,
            final(self).spec_x_position() == old(self).spec_x_position(),
            final(self).spec_a_position() == old(self).spec_a_position(),
            final(self).spec_x_soft_range() == old(self).spec_x_soft_range(),
            final(self).spec_zeroed() == old(self).spec_zeroed(),
            final(self).spec_x_params() == old(self).spec_x_params(),
            final(self).spec_a_params() == old(self).spec_a_params(),
    {
        self.move_mode = move_mode;
        Ok(())
    }

    /// Runs the homing procedure on the linear axis.
    ///
    /// The machine first returns to the un-homed state; only a completed
    /// zeroing run re-arms it. On success the installed soft range has
    /// the safety margin as its minimum and the axis rests at the
    /// range's midpoint; on failure the machine stays un-homed and
    /// refuses moves until homing is retried.
    pub fn run_home<D: Delay>(&mut self, move_delay_us: u32, soft_safety_margin: Steps) -> (r:
        Result<(), Error>)
        requires
            old(self).wf(),
            soft_safety_margin@ >= 0,
        ensures
            final(self).wf(),
            final(self).spec_move_mode() == old(self).spec_move_mode(),
            final(self).spec_x_params() == old(self).spec_x_params(),
            final(self).spec_a_params() == old(self).spec_a_params(),
            final(self).spec_a_position() == old(self).spec_a_position(),
            r is Ok ==> final(self).spec_zeroed() && (final(self).spec_x_soft_range()
                matches Some(rg) && rg.spec_min() == soft_safety_margin@ && rg.spec_min()
                < rg.spec_max() && final(self).spec_x_position() == rg.spec_min() + (rg.spec_max()
                - rg.spec_min()) / 2),
            r matches Err(e) ==> e == Error::HomingFailed && !final(self).spec_zeroed(),
    {
        self.zeroed = false;
        match self.x_axis.run_zeroing::<D>(move_delay_us, soft_safety_margin) {
            None => Err(Error::HomingFailed),
            Some(_steps) => {
                self.zeroed = true;
                Ok(())
            },
        }
    }

    /// Runs a move command under the current positioning mode.
    ///
    /// A machine that has not been homed refuses the move. The amounts
    /// are converted to step targets (absolute, or offsets from the
    /// current positions); a conversion that overflows aborts the
    /// command with the prior positions retained. The move itself is
    /// synchronized across both axes; on success both axes sit exactly
    /// on their targets, and a move that leaves the linear axis in
    /// place (with a representable rotary delta) always succeeds.
    pub fn run_move<D: Delay>(&mut self, mv: &Move, step_delay: MicroSeconds) -> (r: Result<
        (),
        Error,
    >)
        requires
            old(self).wf(),
        ensures
            final(self).wf(),
            final(self).spec_same_config(old(self)),
            !old(self).spec_zeroed() ==> (r matches Err(e) && e == Error::NotZeroed && final(self).spec_x_position() == old(self).spec_x_position() && final(self).spec_a_position()
                == old(self).spec_a_position()),
            (old(self).spec_zeroed() && old(self).spec_move_targets(
                mv.x_amount@,
                mv.a_amount@,
            ) is None) ==> (r matches Err(e) && e == Error::Overflow && final(self).spec_x_position() == old(self).spec_x_position() && final(self).spec_a_position()
                == old(self).spec_a_position()),
            r is Ok ==> old(self).spec_zeroed(),
            r is Ok ==> (old(self).spec_move_targets(mv.x_amount@, mv.a_amount@) matches Some(t)
                && final(self).spec_x_position() == t.0
                && final(self).spec_a_position() == t.1),
            old(self).spec_move_targets(mv.x_amount@, mv.a_amount@) matches Some(t) ==> ((
            old(self).spec_zeroed() && t.0 == old(self).spec_x_position() && spec_fits_i32(
                t.1 - old(self).spec_a_position(),
            )) ==> r is Ok),
            old(self).spec_move_targets(mv.x_amount@, mv.a_amount@) matches Some(t) ==> ((
            old(self).spec_zeroed() && (!spec_fits_i32(t.0 - old(self).spec_x_position())
                || !spec_fits_i32(t.1 - old(self).spec_a_position()))) ==> (r matches Err(e) && e
                == Error::Overflow)),
            (r matches Err(e) && e == Error::NotZeroed) ==> !old(self).spec_zeroed(),
            old(self).spec_move_targets(mv.x_amount@, mv.a_amount@) matches Some(t) ==> ((r
                matches Err(e) && e == Error::Overflow) ==> (!spec_fits_i32(
                t.0 - old(self).spec_x_position(),
            ) || !spec_fits_i32(t.1 - old(self).spec_a_position()))),
            r matches Err(e) ==> (e == Error::NotZeroed || e == Error::Overflow || e
                == Error::MoveNotCompleted),
    {
        // Must be zeroed before doing anything.
        if !self.zeroed {
            return Err(Error::NotZeroed);
        }

        let sx = match self.x_params.to_steps(mv.x_amount) {
            None => {
                return Err(Error::Overflow);
            },
            Some(s) => s,
        };
        let sa = match self.a_params.to_steps(mv.a_amount) {
            None => {
                return Err(Error::Overflow);
            },
            Some(s) => s,
        };

        match self.move_mode {
            MoveMode::Absolute => self.sync_move_to::<D>(sx, sa, step_delay),
            MoveMode::Relative => {
                let steps_x = match self.x_axis.get_position().get_value().checked_add(
                    sx.get_value(),
                ) {
                    None => {
                        return Err(Error::Overflow);
                    },
                    Some(v) => Steps::new(v),
                };
                let steps_a = match self.a_axis.get_position().get_value().checked_add(
                    sa.get_value(),
                ) {
                    None => {
                        return Err(Error::Overflow);
                    },
                    Some(v) => Steps::new(v),
                };
                self.sync_move_to::<D>(steps_x, steps_a, step_delay)
            },
        }
    }

    /// Moves both axes to their step targets in lock-step.
    ///
    /// With `ticks` the larger of the two step distances, each tick `i`
    /// moves each axis to its proportionally interpolated target
    /// `start + truncate(delta * i / ticks)`, so both axes arrive
    /// together on the final tick: on success each axis sits exactly on
    /// its target, with no drift. A refused step aborts with partial
    /// progress retained -- each axis rests between its start and its
    /// target; a step delta that overflows the representation, and only
    /// that, aborts with the overflow error before any motion. A move
    /// that needs no linear motion cannot be refused: the rotary axis
    /// has no switches, so such a move always completes.
    #[verifier::loop_isolation(false)]
    #[verifier::rlimit(60)]
    #[verifier::spinoff_prover]
    pub fn sync_move_to<D: Delay>(&mut self, steps_x: Steps, steps_a: Steps, step_delay:
        MicroSeconds) -> (r: Result<(), Error>)
        requires
            old(self).wf(),
        ensures
            final(self).wf(),
            final(self).spec_same_config(old(self)),
            r is Ok ==> final(self).spec_x_position() == steps_x@ && final(self).spec_a_position() == steps_a@,
            (spec_fits_i32(steps_x@ - old(self).spec_x_position()) && spec_fits_i32(
                steps_a@ - old(self).spec_a_position(),
            ) && steps_x@ == old(self).spec_x_position()) ==> r is Ok,
            (!spec_fits_i32(steps_x@ - old(self).spec_x_position()) || !spec_fits_i32(
                steps_a@ - old(self).spec_a_position(),
            )) ==> (r matches Err(e) && e == Error::Overflow && final(self).spec_x_position()
                == old(self).spec_x_position() && final(self).spec_a_position() == old(self).spec_a_position()),
            (r matches Err(e) && e == Error::Overflow) ==> (!spec_fits_i32(
                steps_x@ - old(self).spec_x_position(),
            ) || !spec_fits_i32(steps_a@ - old(self).spec_a_position())),
            old(self).spec_x_position() <= steps_x@ ==> old(self).spec_x_position() <= final(self).spec_x_position() <= steps_x@,
            steps_x@ < old(self).spec_x_position() ==> steps_x@ <= final(self).spec_x_position()
                <= old(self).spec_x_position(),
            old(self).spec_a_position() <= steps_a@ ==> old(self).spec_a_position() <= final(self).spec_a_position() <= steps_a@,
            steps_a@ < old(self).spec_a_position() ==> steps_a@ <= final(self).spec_a_position()
                <= old(self).spec_a_position(),
            r matches Err(e) ==> (e == Error::Overflow || e == Error::MoveNotCompleted),
    {
        let delta_x = match steps_x.get_value().checked_sub(
            self.x_axis.get_position().get_value(),
        ) {
            None => {
                return Err(Error::Overflow);
            },
            Some(d) => d,
        };
        let delta_a = match steps_a.get_value().checked_sub(
            self.a_axis.get_position().get_value(),
        ) {
            None => {
                return Err(Error::Overflow);
            },
            Some(d) => d,
        };

        let start_x = self.x_axis.get_position().get_value();
        let start_a = self.a_axis.get_position().get_value();

        let abs_dx: i64 = if delta_x >= 0 {
            delta_x as i64
        } else {
            -(delta_x as i64)
        };
        let abs_da: i64 = if delta_a >= 0 {
            delta_a as i64
        } else {
            -(delta_a as i64)
        };
        let move_steps: i64 = if abs_dx >= abs_da {
            abs_dx
        } else {
            abs_da
        };

        let mut i: i64 = 1;
        while i <= move_steps
            invariant
                1 <= i <= move_steps + 1,
                self.spec_x_position() == start_x + spec_trunc_div(
                    delta_x * (i - 1),
                    move_steps as int,
                ),
                self.spec_a_position() == start_a + spec_trunc_div(
                    delta_a * (i - 1),
                    move_steps as int,
                ),
                self.spec_same_config(old(self)),
                self.wf(),
            decreases move_steps + 1 - i,
        {
            proof {
                lemma_trunc_div_scale_range(delta_x as int, i as int, move_steps as int);
                lemma_trunc_div_scale_range(delta_a as int, i as int, move_steps as int);
                if i > 1 {
                    lemma_trunc_div_scale_range(delta_x as int, i as int - 1, move_steps as int);
                    lemma_trunc_div_scale_range(delta_a as int, i as int - 1, move_steps as int);
                } else {
                    assert((delta_x as int) * ((i as int) - 1) == 0) by (nonlinear_arith)
                        requires
                            (i as int) - 1 == 0,
                    ;
                    assert((delta_a as int) * ((i as int) - 1) == 0) by (nonlinear_arith)
                        requires
                            (i as int) - 1 == 0,
                    ;
                }
                if delta_x == 0 {
                    assert((delta_x as int) * (i as int) == 0) by (nonlinear_arith)
                        requires
                            delta_x as int == 0,
                    ;
                }
            }
            let target_x = Steps::new(interpolated_target(start_x, delta_x, i, move_steps));
            let target_a = Steps::new(interpolated_target(start_a, delta_a, i, move_steps));

            match self.move_x_to::<D>(target_x, step_delay) {
                Err(e) => {
                    return Err(e);
                },
                Ok(()) => {},
            }
            match self.move_a_to::<D>(target_a, step_delay) {
                Err(e) => {
                    return Err(e);
                },
                Ok(()) => {},
            }
            i = i + 1;
        }
        proof {
            if move_steps > 0 {
                lemma_trunc_div_cancel(delta_x as int, move_steps as int);
                lemma_trunc_div_cancel(delta_a as int, move_steps as int);
            }
        }
        Ok(())
    }

    /// Walks the linear axis one step at a time to the given target; a
    /// refused step aborts with the position reached so far retained.
    #[verifier::loop_isolation(false)]
    pub fn move_x_to<D: Delay>(&mut self, steps_x: Steps, step_delay: MicroSeconds) -> (r: Result<
        (),
        Error,
    >)
        requires
            old(self).wf(),
        ensures
            final(self).wf(),
            final(self).spec_same_config(old(self)),
            final(self).spec_a_position() == old(self).spec_a_position(),
            r is Ok ==> final(self).spec_x_position() == steps_x@,
            old(self).spec_x_position() == steps_x@ ==> r is Ok,
            r matches Err(e) ==> e == Error::MoveNotCompleted,
            old(self).spec_x_position() <= steps_x@ ==> old(self).spec_x_position() <= final(self).spec_x_position() <= steps_x@,
            steps_x@ < old(self).spec_x_position() ==> steps_x@ <= final(self).spec_x_position()
                <= old(self).spec_x_position(),
    {
        let direction = if steps_x.get_value() > self.x_axis.get_position().get_value() {
            Direction::Positive
        } else {
            Direction::Negative
        };

        while self.x_axis.get_position().get_value() != steps_x.get_value()
            invariant
                direction == Direction::Positive ==> old(self).spec_x_position()
                    <= self.spec_x_position() <= steps_x@,
                direction == Direction::Negative ==> steps_x@ <= self.spec_x_position() <= old(self).spec_x_position(),
                self.spec_same_config(old(self)),
                self.wf(),
                self.spec_a_position() == old(self).spec_a_position(),
            decreases abs(steps_x@ - self.spec_x_position()),
        {
            if self.x_axis.step(direction).is_none() {
                return Err(Error::MoveNotCompleted);
            }
            D::delay_us(step_delay);
        }

        Ok(())
    }

    /// Walks the rotary axis one step at a time to the given target.
    /// The rotary axis has no limit switches, and a position between
    /// two representable endpoints can always take the next step, so
    /// this always completes.
    #[verifier::loop_isolation(false)]
    pub fn move_a_to<D: Delay>(&mut self, steps_a: Steps, step_delay: MicroSeconds) -> (r: Result<
        (),
        Error,
    >)
        ensures
            final(self).spec_same_config(old(self)),
            final(self).spec_x_position() == old(self).spec_x_position(),
            old(self).wf() ==> final(self).wf(),
            r is Ok,
            final(self).spec_a_position() == steps_a@,
    {
        let direction = if steps_a.get_value() > self.a_axis.get_position().get_value() {
            Direction::Positive
        } else {
            Direction::Negative
        };

        while self.a_axis.get_position().get_value() != steps_a.get_value()
            invariant
                direction == Direction::Positive ==> old(self).spec_a_position()
                    <= self.spec_a_position() <= steps_a@,
                direction == Direction::Negative ==> steps_a@ <= self.spec_a_position() <= old(self).spec_a_position(),
                self.spec_same_config(old(self)),
                self.spec_x_position() == old(self).spec_x_position(),
            decreases abs(steps_a@ - self.spec_a_position()),
        {
            if self.a_axis.step(direction).is_none() {
                return Err(Error::MoveNotCompleted);
            }
            D::delay_us(step_delay);
        }

        Ok(())
    }
}

} // verus!
