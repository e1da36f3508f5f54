//! Conversions between steps and millidegrees for the rotary axis, with
//! circular (shortest-path) absolute positioning.

use vstd::prelude::*;
use vstd::math::abs;
use crate::kinematics::convert::lemma_trunc_div_bound;
use crate::kinematics::convert::lemma_unit_round_trip;
use crate::kinematics::convert::spec_fits_i32;
use crate::kinematics::convert::spec_trunc_div;
use crate::kinematics::steps::Steps;
use crate::millidegrees::MILLIDEGREES_PER_REVOLUTION;
use crate::millidegrees::MilliDegrees;
use crate::millidegrees::spec_shortest_angle;

verus! {

/// Conversions for rotary motion: millidegrees to steps, steps to
/// millidegrees, and the step delta for absolute (shortest-path) and
/// relative moves.
pub struct RotaryConverter {
    steps_per_revolution: i32,
}

impl RotaryConverter {
    /// Steps per revolution of the rotary axis.
    pub closed spec fn spec_steps_per_revolution(&self) -> int {
        self.steps_per_revolution as int
    }

    /// What `to_millidegrees` returns.
    pub open spec fn spec_to_millidegrees(&self, steps: int) -> Option<int> {
        if self.spec_steps_per_revolution() == 0 {
            None
        } else {
            let q = spec_trunc_div(steps * 360000, self.spec_steps_per_revolution());
            if spec_fits_i32(q) {
                Some(q)
            } else {
                None
            }
        }
    }

    /// What `to_steps` returns.
    pub open spec fn spec_to_steps(&self, millidegrees: int) -> Option<int> {
        let q = spec_trunc_div(millidegrees * self.spec_steps_per_revolution(), 360000);
        if spec_fits_i32(q) {
            Some(q)
        } else {
            None
        }
    }

    /// What `steps_to_abs` returns: the current orientation, the
    /// shortest angular delta to the target, and that delta in steps.
    pub open spec fn spec_steps_to_abs(&self, current: int, target: int) -> Option<int> {
        match self.spec_to_millidegrees(current) {
            None => None,
            Some(mdg) => self.spec_to_steps(spec_shortest_angle(mdg, target)),
        }
    }

    /// What `steps_to_rel` returns: the offset in steps, added to the
    /// current position.
    pub open spec fn spec_steps_to_rel(&self, current: int, offset: int) -> Option<int> {
        match self.spec_to_steps(offset) {
            None => None,
            Some(q) => if spec_fits_i32(current + q) {
                Some(current + q)
            } else {
                None
            },
        }
    }

    /// Creates a new rotary converter.
    pub fn new(steps_per_revolution: i32) -> (r: Self)
        ensures
            r.spec_steps_per_revolution() == steps_per_revolution,
    {
        Self { steps_per_revolution }
    }

    /// Converts a value in [`Steps`] to a value in [`MilliDegrees`].
    pub fn to_millidegrees(&self, steps: Steps) -> (r: Option<MilliDegrees>)
        ensures
            r is Some <==> self.spec_to_millidegrees(steps@) is Some,
            r matches Some(m) ==> Some(m@) == self.spec_to_millidegrees(steps@),
    {
        let a = steps.get_value();
        proof {
            assert(-0x4000000000000000 <= (a as int) * 360000 <= 0x4000000000000000)
                by (nonlinear_arith)
                requires
                    -0x80000000 <= a as int <= 0x7fffffff,
            ;
        }
        let product: i64 = (a as i64) * (MILLIDEGREES_PER_REVOLUTION as i64);
        let divisor: i64 = self.steps_per_revolution as i64;
        proof {
            if divisor != 0 {
                lemma_trunc_div_bound(product as int, divisor as int);
            }
        }
        let q: i64 = match product.checked_div(divisor) {
            None => {
                return None;
            },
            Some(q) => q,
        };
        if q > (i32::MAX as i64) || q < (i32::MIN as i64) {
            None
        } else {
            Some(MilliDegrees::new(q as i32))
        }
    }

    /// Converts a value in [`MilliDegrees`] to a value in [`Steps`].
    pub fn to_steps(&self, millidegrees: MilliDegrees) -> (r: Option<Steps>)
        ensures
            r is Some <==> self.spec_to_steps(millidegrees@) is Some,
            r matches Some(s) ==> Some(s@) == self.spec_to_steps(millidegrees@),
    {
        let a = millidegrees.get_value();
        let b = self.steps_per_revolution;
        proof {
            assert(-0x4000000000000000 <= (a as int) * (b as int) <= 0x4000000000000000)
                by (nonlinear_arith)
                requires
                    -0x80000000 <= a as int <= 0x7fffffff,
                    -0x80000000 <= b as int <= 0x7fffffff,
            ;
            lemma_trunc_div_bound((a as int) * (b as int), 360000);
        }
        let product: i64 = (a as i64) * (b as i64);
        let q: i64 = match product.checked_div(MILLIDEGREES_PER_REVOLUTION as i64) {
            None => {
                return None;
            },
            Some(q) => q,
        };
        if q > (i32::MAX as i64) || q < (i32::MIN as i64) {
            None
        } else {
            Some(Steps::new(q as i32))
        }
    }

    /// Computes the minimum number of steps to move the axis from the
    /// current position (in steps) to an absolute target orientation (in
    /// millidegrees).
    ///
    /// This always takes the shortest angular path, so the axis never
    /// turns more than half a revolution for an absolute target.
    pub fn steps_to_abs(&self, current: Steps, target: MilliDegrees) -> (r: Option<Steps>)
        ensures
            r is Some <==> self.spec_steps_to_abs(current@, target@) is Some,
            r matches Some(s) ==> Some(s@) == self.spec_steps_to_abs(current@, target@),
    {
        let mdg = match self.to_millidegrees(current) {
            None => {
                return None;
            },
            Some(mdg) => mdg,
        };
        let delta = mdg.shortest_angle_to(target);
        self.to_steps(delta)
    }

    /// Computes the number of steps to move the axis from the current
    /// position (in steps) by a relative angular offset (a straight,
    /// non-circular delta).
    pub fn steps_to_rel(&self, current: Steps, offset: MilliDegrees) -> (r: Option<Steps>)
        ensures
            r is Some <==> self.spec_steps_to_rel(current@, offset@) is Some,
            r matches Some(s) ==> Some(s@) == self.spec_steps_to_rel(current@, offset@),
    {
        let q = match self.to_steps(offset) {
            None => {
                return None;
            },
            Some(q) => q,
        };
        match current.get_value().checked_add(q.get_value()) {
            None => None,
            Some(v) => Some(Steps::new(v)),
        }
    }

    /// Round trip: converting millidegrees to steps and the result back
    /// to millidegrees lands within one unit of the coarser of the two
    /// representations; with at least 360000 steps per revolution the
    /// error is at most a single millidegree.
    pub proof fn lemma_round_trip(&self, m: int, t: int, r: int)
        requires
            1 <= self.spec_steps_per_revolution(),
            self.spec_to_steps(m) == Some(t),
            self.spec_to_millidegrees(t) == Some(r),
        ensures
            abs(m - r) * self.spec_steps_per_revolution() <= 360000
                + self.spec_steps_per_revolution() - 2,
            360000 <= self.spec_steps_per_revolution() ==> abs(m - r) <= 1,
    {
        lemma_unit_round_trip(self.spec_steps_per_revolution(), 360000, m);
    }

    /// Round trip in the other direction: converting steps to
    /// millidegrees and the result back to steps also lands within one
    /// unit of the coarser representation.
    pub proof fn lemma_round_trip_steps(&self, s: int, m: int, r: int)
        requires
            1 <= self.spec_steps_per_revolution(),
            self.spec_to_millidegrees(s) == Some(m),
            self.spec_to_steps(m) == Some(r),
        ensures
            abs(s - r) * 360000 <= self.spec_steps_per_revolution() + 360000 - 2,
            360000 >= self.spec_steps_per_revolution() ==> abs(s - r) <= 1,
    {
        lemma_unit_round_trip(360000, self.spec_steps_per_revolution(), s);
    }
}

} // verus!
