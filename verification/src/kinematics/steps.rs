//! Overflow-safe step counting.

use vstd::prelude::*;

verus! {

/// Number of steps.
///
/// `Steps` is careful to prevent overflows, so that it can be used safely
/// to track axis positions: `inc` and `dec` return `None` at the
/// representable boundary instead of wrapping.
#[derive(Debug, PartialEq, Eq, Structural, Clone, Copy)]
pub struct Steps(i32);

impl View for Steps {
    type V = int;

    closed spec fn view(&self) -> int {
        self.0 as int
    }
}

/// What incrementing a step count yields: the successor, unless the count
/// is already at the top of the representable range.
pub open spec fn spec_steps_inc(v: int) -> Option<int> {
    if v < i32::MAX {
        Some(v + 1)
    } else {
        None
    }
}

/// What decrementing a step count yields: the predecessor, unless the
/// count is already at the bottom of the representable range.
pub open spec fn spec_steps_dec(v: int) -> Option<int> {
    if v > i32::MIN {
        Some(v - 1)
    } else {
        None
    }
}

impl Steps {
    /// Create a new number of steps.
    pub fn new(steps: i32) -> (r: Self)
        ensures
            r@ == steps,
    {
        Self(steps)
    }

    /// Zero steps.
    pub fn zero() -> (r: Self)
        ensures
            r@ == 0,
    {
        Steps(0)
    }

    /// Returns the value represented by `Steps`.
    pub fn get_value(&self) -> (r: i32)
        ensures
            r == self@,
    {
        self.0
    }

    /// Increment the value if it's safe to do so without an overflow.
    pub fn inc(&self) -> (r: Option<Self>)
        ensures
            r is Some <==> spec_steps_inc(self@) is Some,
            r matches Some(s) ==> spec_steps_inc(self@) == Some(s@),
    {
        match self.0.checked_add_unsigned(1) {
            Some(v) => Some(Steps(v)),
            None => None,
        }
    }

    /// Decrement the value if it's safe to do so without an overflow.
    pub fn dec(&self) -> (r: Option<Self>)
        ensures
            r is Some <==> spec_steps_dec(self@) is Some,
            r matches Some(s) ==> spec_steps_dec(self@) == Some(s@),
    {
        match self.0.checked_sub_unsigned(1) {
            Some(v) => Some(Steps(v)),
            None => None,
        }
    }
}

/// Incrementing any step count below the maximum and then decrementing
/// returns to the starting value; at the maximum, incrementing yields
/// nothing, and at the minimum, decrementing yields nothing.
pub proof fn lemma_steps_inc_dec(v: int)
    requires
        i32::MIN <= v <= i32::MAX,
    ensures
        v < i32::MAX ==> (spec_steps_inc(v) matches Some(w) && spec_steps_dec(w) == Some(v)),
        v == i32::MAX ==> spec_steps_inc(v) is None,
        v == i32::MIN ==> spec_steps_dec(v) is None,
{
}

} // verus!
