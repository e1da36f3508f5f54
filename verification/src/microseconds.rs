//! Delay durations.

use vstd::prelude::*;

verus! {

/// Time in microseconds.
#[derive(Debug, PartialEq, Eq, Structural, Clone, Copy)]
pub struct MicroSeconds(u32);

impl View for MicroSeconds {
    type V = int;

    closed spec fn view(&self) -> int {
        self.0 as int
    }
}

impl MicroSeconds {
    /// Creates a new `MicroSeconds`.
    pub fn new(value: u32) -> (r: Self)
        ensures
            r@ == value,
    {
        Self(value)
    }

    /// Returns the value as a `u32`.
    pub fn get_value(&self) -> (r: u32)
        ensures
            r == self@,
    {
        self.0
    }
}

} // verus!
