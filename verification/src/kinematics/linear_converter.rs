//! Conversions between steps and microns for the linear axis.

use vstd::prelude::*;
use vstd::math::abs;
use crate::kinematics::convert::lemma_trunc_div_bound;
use crate::kinematics::convert::lemma_unit_round_trip;
use crate::kinematics::convert::spec_fits_i32;
use crate::kinematics::convert::spec_trunc_div;
use crate::kinematics::steps::Steps;
use crate::microns::Microns;

verus! {

/// Conversions for linear motion: microns to steps, steps to microns,
/// and the step delta needed to reach a target.
///
/// Each conversion is a widened multiply followed by a truncating
/// divide, and yields nothing if the divisor is zero or the result does
/// not fit the 32-bit representation.
pub struct LinearConverter {
    steps_per_revolution: i32,
    microns_per_revolution: i32,
}

impl LinearConverter {
    /// Steps per revolution of the lead screw.
    pub closed spec fn spec_steps_per_revolution(&self) -> int {
        self.steps_per_revolution as int
    }

    /// Microns of travel per revolution of the lead screw.
    pub closed spec fn spec_microns_per_revolution(&self) -> int {
        self.microns_per_revolution as int
    }

    /// What `to_microns` returns: the truncated product-quotient, if the
    /// ratio is usable and the result representable.
    pub open spec fn spec_to_microns(&self, steps: int) -> Option<int> {
        if self.spec_steps_per_revolution() == 0 {
            None
        } else {
            let q = spec_trunc_div(
                steps * self.spec_microns_per_revolution(),
                self.spec_steps_per_revolution(),
            );
            if spec_fits_i32(q) {
                Some(q)
            } else {
                None
            }
        }
    }

    /// What `to_steps` returns.
    pub open spec fn spec_to_steps(&self, microns: int) -> Option<int> {
        if self.spec_microns_per_revolution() == 0 {
            None
        } else {
            let q = spec_trunc_div(
                microns * self.spec_steps_per_revolution(),
                self.spec_microns_per_revolution(),
            );
            if spec_fits_i32(q) {
                Some(q)
            } else {
                None
            }
        }
    }

    /// What `steps_to` returns: the step count for the micron distance
    /// between the target and the current position.
    pub open spec fn spec_steps_to(&self, current: int, target: int) -> Option<int> {
        match self.spec_to_microns(current) {
            None => None,
            Some(cm) => if spec_fits_i32(target - cm) {
                self.spec_to_steps(target - cm)
            } else {
                None
            },
        }
    }

    /// Creates a new linear converter.
    pub fn new(steps_per_revolution: i32, microns_per_revolution: i32) -> (r: Self)
        ensures
            r.spec_steps_per_revolution() == steps_per_revolution,
            r.spec_microns_per_revolution() == microns_per_revolution,
    {
        Self { steps_per_revolution, microns_per_revolution }
    }

    /// Converts a value in [`Steps`] to a value in [`Microns`].
    pub fn to_microns(&self, steps: Steps) -> (r: Option<Microns>)
        ensures
            r is Some <==> self.spec_to_microns(steps@) is Some,
            r matches Some(m) ==> Some(m@) == self.spec_to_microns(steps@),
    {
        let a = steps.get_value();
        let b = self.microns_per_revolution;
        proof {
            assert(-0x4000000000000000 <= (a as int) * (b as int) <= 0x4000000000000000)
                by (nonlinear_arith)
                requires
                    -0x80000000 <= a as int <= 0x7fffffff,
                    -0x80000000 <= b as int <= 0x7fffffff,
            ;
        }
        let product: i64 = (a as i64) * (b as i64);
        let divisor: i64 = self.steps_per_revolution as i64;
        proof {
            if divisor != 0 {
                lemma_trunc_div_bound(product as int, divisor as int);
            }
        }
        let q: i64 = match product.checked_div(divisor) {
            None => {
                return None;
            },
            Some(q) => q,
        };
        if q > (i32::MAX as i64) || q < (i32::MIN as i64) {
            None
        } else {
            Some(Microns::new(q as i32))
        }
    }

    /// Converts a value in [`Microns`] to a value in [`Steps`].
    pub fn to_steps(&self, microns: Microns) -> (r: Option<Steps>)
        ensures
            r is Some <==> self.spec_to_steps(microns@) is Some,
            r matches Some(s) ==> Some(s@) == self.spec_to_steps(microns@),
    {
        let a = microns.get_value();
        let b = self.steps_per_revolution;
        proof {
            assert(-0x4000000000000000 <= (a as int) * (b as int) <= 0x4000000000000000)
                by (nonlinear_arith)
                requires
                    -0x80000000 <= a as int <= 0x7fffffff,
                    -0x80000000 <= b as int <= 0x7fffffff,
            ;
        }
        let product: i64 = (a as i64) * (b as i64);
        let divisor: i64 = self.microns_per_revolution as i64;
        proof {
            if divisor != 0 {
                lemma_trunc_div_bound(product as int, divisor as int);
            }
        }
        let q: i64 = match product.checked_div(divisor) {
            None => {
                return None;
            },
            Some(q) => q,
        };
        if q > (i32::MAX as i64) || q < (i32::MIN as i64) {
            None
        } else {
            Some(Steps::new(q as i32))
        }
    }

    /// Computes the number of steps to move the axis to get from the
    /// current position (in steps) to a target position (in microns).
    pub fn steps_to(&self, current: Steps, target: Microns) -> (r: Option<Steps>)
        ensures
            r is Some <==> self.spec_steps_to(current@, target@) is Some,
            r matches Some(s) ==> Some(s@) == self.spec_steps_to(current@, target@),
    {
        let cm = match self.to_microns(current) {
            None => {
                return None;
            },
            Some(cm) => cm,
        };
        let d = match target.get_value().checked_sub(cm.get_value()) {
            None => {
                return None;
            },
            Some(d) => d,
        };
        self.to_steps(Microns::new(d))
    }

    /// Round trip: converting microns to steps and the result back to
    /// microns lands within one unit of the coarser of the two
    /// representations. With steps at least as fine as microns, the
    /// error is at most a single micron.
    pub proof fn lemma_round_trip(&self, m: int, t: int, r: int)
        requires
            1 <= self.spec_steps_per_revolution(),
            1 <= self.spec_microns_per_revolution(),
            self.spec_to_steps(m) == Some(t),
            self.spec_to_microns(t) == Some(r),
        ensures
            abs(m - r) * self.spec_steps_per_revolution() <= self.spec_microns_per_revolution()
                + self.spec_steps_per_revolution() - 2,
            self.spec_microns_per_revolution() <= self.spec_steps_per_revolution() ==> abs(m - r)
                <= 1,
    {
        lemma_unit_round_trip(
            self.spec_steps_per_revolution(),
            self.spec_microns_per_revolution(),
            m,
        );
    }

    /// Round trip in the other direction: converting steps to microns
    /// and the result back to steps also lands within one unit of the
    /// coarser representation.
    pub proof fn lemma_round_trip_steps(&self, s: int, m: int, r: int)
        requires
            1 <= self.spec_steps_per_revolution(),
            1 <= self.spec_microns_per_revolution(),
            self.spec_to_microns(s) == Some(m),
            self.spec_to_steps(m) == Some(r),
        ensures
            abs(s - r) * self.spec_microns_per_revolution() <= self.spec_steps_per_revolution()
                + self.spec_microns_per_revolution() - 2,
            self.spec_steps_per_revolution() <= self.spec_microns_per_revolution() ==> abs(s - r)
                <= 1,
    {
        lemma_unit_round_trip(
            self.spec_microns_per_revolution(),
            self.spec_steps_per_revolution(),
            s,
        );
    }
}

} // verus!
