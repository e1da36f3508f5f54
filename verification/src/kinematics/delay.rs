//! Synchronous timing capability.

use vstd::prelude::*;
use crate::microseconds::MicroSeconds;

verus! {

/// Abstraction for synchronous timing delays.
///
/// Implementations block the caller; the core states nothing about how
/// the waiting is performed.
pub trait Delay {
    /// Blocks for the specified number of microseconds before returning.
    fn delay_us(microseconds: MicroSeconds);
}

} // verus!
