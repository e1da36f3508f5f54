//! The closed set of motion commands.

use vstd::prelude::*;
use crate::microns::Microns;
use crate::millidegrees::MilliDegrees;

verus! {

/// Commands.
#[derive(Debug, PartialEq, Eq, Structural, Clone, Copy)]
pub enum Command {
    /// G0: Move.
    Move(Move),
    /// G28: Home all axes.
    Home,
    /// G90: Absolute positioning.
    AbsolutePositioning,
    /// G91: Relative positioning.
    RelativePositioning,
}

/// A two-axis move amount; unspecified axes default to zero.
#[derive(Debug, PartialEq, Eq, Structural, Clone, Copy)]
pub struct Move {
    pub x_amount: Microns,
    pub a_amount: MilliDegrees,
}

} // verus!
