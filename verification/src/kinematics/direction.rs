//! Direction of axis movement.

use vstd::prelude::*;

verus! {

/// Direction for an axis movement.
#[derive(Debug, PartialEq, Eq, Structural, Clone, Copy)]
pub enum Direction {
    /// Positive direction is associated with a "high" direction signal.
    Positive,
    /// Negative direction is associated with a "low" direction signal.
    Negative,
}

} // verus!
