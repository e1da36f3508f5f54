//! Linear distances.

use vstd::prelude::*;

verus! {

/// Distance in microns (thousandths of a millimeter).
#[derive(Debug, PartialEq, Eq, Structural, Clone, Copy)]
pub struct Microns(i32);

impl View for Microns {
    type V = int;

    closed spec fn view(&self) -> int {
        self.0 as int
    }
}

/// The `Microns` value with the given magnitude, for use in
/// specifications.
pub closed spec fn spec_microns(v: int) -> Microns {
    Microns(v as i32)
}

/// Two distances with the same value are the same distance.
pub proof fn lemma_spec_microns_view(v: int)
    requires
        i32::MIN <= v <= i32::MAX,
    ensures
        spec_microns(v)@ == v,
{
}

impl Microns {
    /// Creates a new `Microns`.
    pub fn new(value: i32) -> (r: Self)
        ensures
            r@ == value,
            r == spec_microns(value as int),
    {
        Self(value)
    }

    /// Returns the value as an `i32`.
    pub fn get_value(&self) -> (r: i32)
        ensures
            r == self@,
    {
        self.0
    }

    /// Adds another distance, unless the sum overflows the representation.
    pub fn checked_add(&self, rhs: Microns) -> (r: Option<Microns>)
        ensures
            r is Some <==> i32::MIN <= self@ + rhs@ <= i32::MAX,
            r matches Some(s) ==> s@ == self@ + rhs@,
    {
        match self.0.checked_add(rhs.0) {
            Some(v) => Some(Microns(v)),
            None => None,
        }
    }

    /// Subtracts another distance, unless the difference overflows the
    /// representation.
    pub fn checked_sub(&self, rhs: Microns) -> (r: Option<Microns>)
        ensures
            r is Some <==> i32::MIN <= self@ - rhs@ <= i32::MAX,
            r matches Some(s) ==> s@ == self@ - rhs@,
    {
        match self.0.checked_sub(rhs.0) {
            Some(v) => Some(Microns(v)),
            None => None,
        }
    }
}

} // verus!
