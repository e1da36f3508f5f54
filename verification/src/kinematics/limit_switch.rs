//! Limit switch capability.

use vstd::prelude::*;

verus! {

/// Abstraction for a limit switch.
///
/// A limit switch just has a state; either at the limit, or not at the
/// limit. What a read returns depends on the physical world, so nothing
/// is promised about it.
pub trait LimitSwitch {
    /// Reads the current state of the switch.
    fn read_limitswitch_state(&self) -> LimitSwitchState;
}

/// State of a limit switch.
#[derive(Debug, PartialEq, Eq, Structural, Clone, Copy)]
pub enum LimitSwitchState {
    /// Limit switch is engaged at the limit.
    ///
    /// The device has reached the limit and should not proceed any
    /// further in whichever direction triggered the limit.
    AtLimit,
    /// Limit switch is not at the limit.
    ///
    /// The device can still safely proceed in the direction of this
    /// limit switch.
    NotAtLimit,
}

} // verus!
