//! Rotary angles with circular (shortest-path) arithmetic.

use vstd::prelude::*;
use vstd::arithmetic::div_mod::lemma_fundamental_div_mod;
use vstd::arithmetic::div_mod::lemma_mod_multiples_basic;

verus! {

/// One full revolution, in millidegrees.
pub const MILLIDEGREES_PER_REVOLUTION: i32 = 360000;

/// Angle in millidegrees (thousandths of a degree).
#[derive(Debug, PartialEq, Eq, Structural, Clone, Copy)]
pub struct MilliDegrees(i32);

impl View for MilliDegrees {
    type V = int;

    closed spec fn view(&self) -> int {
        self.0 as int
    }
}

/// Reduction of an angle modulo one revolution with truncating semantics:
/// the sign of a negative input is preserved, and the result lies strictly
/// between minus one revolution and one revolution.
pub open spec fn spec_normalize_mdg(v: int) -> int {
    if v >= 0 {
        v % 360000
    } else {
        -((-v) % 360000)
    }
}

/// The circular delta chosen by `shortest_angle_to`: normalize both
/// operands, subtract, then wrap by a single revolution if the difference
/// falls outside the half-open range from -180000 (exclusive) to 180000
/// (inclusive).
pub open spec fn spec_shortest_angle(a: int, b: int) -> int {
    let d = spec_normalize_mdg(b) - spec_normalize_mdg(a);
    if d > 180000 {
        d - 360000
    } else if d <= -180000 {
        d + 360000
    } else {
        d
    }
}

/// The `MilliDegrees` value with the given magnitude, for use in
/// specifications.
pub closed spec fn spec_millidegrees(v: int) -> MilliDegrees {
    MilliDegrees(v as i32)
}

/// Two angles with the same value are the same angle.
pub proof fn lemma_spec_millidegrees_view(v: int)
    requires
        i32::MIN <= v <= i32::MAX,
    ensures
        spec_millidegrees(v)@ == v,
{
}

impl MilliDegrees {
    /// Creates a new `MilliDegrees`.
    pub fn new(value: i32) -> (r: Self)
        ensures
            r@ == value,
            r == spec_millidegrees(value as int),
    {
        Self(value)
    }

    /// Returns the value as an `i32`.
    pub fn get_value(&self) -> (r: i32)
        ensures
            r == self@,
    {
        self.0
    }

    /// Adds another angle, unless the sum overflows the representation.
    pub fn checked_add(&self, rhs: MilliDegrees) -> (r: Option<MilliDegrees>)
        ensures
            r is Some <==> i32::MIN <= self@ + rhs@ <= i32::MAX,
            r matches Some(s) ==> s@ == self@ + rhs@,
    {
        match self.0.checked_add(rhs.0) {
            Some(v) => Some(MilliDegrees(v)),
            None => None,
        }
    }

    /// Subtracts another angle, unless the difference overflows the
    /// representation.
    pub fn checked_sub(&self, rhs: MilliDegrees) -> (r: Option<MilliDegrees>)
        ensures
            r is Some <==> i32::MIN <= self@ - rhs@ <= i32::MAX,
            r matches Some(s) ==> s@ == self@ - rhs@,
    {
        match self.0.checked_sub(rhs.0) {
            Some(v) => Some(MilliDegrees(v)),
            None => None,
        }
    }

    /// Reduces the angle modulo one revolution, with truncating semantics:
    /// a negative angle keeps its sign.
    pub fn normalize(&self) -> (r: MilliDegrees)
        ensures
            r@ == spec_normalize_mdg(self@),
            -360000 < r@ < 360000,
    {
        if self.0 >= 0 {
            MilliDegrees(self.0 % 360000)
        } else {
            let magnitude: i64 = -(self.0 as i64);
            let rem: i64 = magnitude % 360000;
            MilliDegrees((-rem) as i32)
        }
    }

    /// Returns the shortest angular rotation from this angle to the other
    /// angle: the circular delta, wrapped once so that it prefers the
    /// half-revolution-or-less path.
    pub fn shortest_angle_to(&self, other: MilliDegrees) -> (r: MilliDegrees)
        ensures
            r@ == spec_shortest_angle(self@, other@),
    {
        let self_n = self.normalize().get_value();
        let other_n = other.normalize().get_value();

        let mut delta: i32 = other_n - self_n;
        if delta > 180000 {
            delta = delta - 360000;
        } else if delta <= -180000 {
            delta = delta + 360000;
        }

        MilliDegrees(delta)
    }
}

/// An angle differs from its truncating normalization by a whole number of
/// revolutions.
proof fn lemma_normalize_congruent(v: int)
    ensures
        (v - spec_normalize_mdg(v)) % 360000 == 0,
{
    if v >= 0 {
        lemma_fundamental_div_mod(v, 360000);
        assert(v - spec_normalize_mdg(v) == 360000 * (v / 360000));
        lemma_mod_multiples_basic(v / 360000, 360000);
    } else {
        lemma_fundamental_div_mod(-v, 360000);
        assert(v - spec_normalize_mdg(v) == 360000 * -((-v) / 360000));
        lemma_mod_multiples_basic(-((-v) / 360000), 360000);
    }
}

/// The shortest angle from `a` to `b` lies in the half-open range from
/// -180000 (exclusive) to 180000 (inclusive), whenever the difference of
/// the two normalized operands can be wrapped by the single revolution
/// that `shortest_angle_to` adds or subtracts.
pub proof fn lemma_shortest_angle_range(a: int, b: int)
    requires
        -540000 < spec_normalize_mdg(b) - spec_normalize_mdg(a) <= 540000,
    ensures
        -180000 < spec_shortest_angle(a, b) <= 180000,
{
}

/// For angles that are not negative, the wrapping precondition of
/// `lemma_shortest_angle_range` always holds, so the shortest angle lies
/// in the half-open range from -180000 (exclusive) to 180000 (inclusive).
pub proof fn lemma_shortest_angle_range_nonneg(a: int, b: int)
    requires
        a >= 0,
        b >= 0,
    ensures
        -180000 < spec_shortest_angle(a, b) <= 180000,
{
    lemma_shortest_angle_range(a, b);
}

/// Adding the shortest angle from `a` to `b` onto `a` lands on an angle
/// congruent to `b` modulo one revolution.
pub proof fn lemma_shortest_angle_congruent(a: int, b: int)
    ensures
        (a + spec_shortest_angle(a, b) - b) % 360000 == 0,
{
    let na = spec_normalize_mdg(a);
    let nb = spec_normalize_mdg(b);
    let s = spec_shortest_angle(a, b);
    lemma_normalize_congruent(a);
    lemma_normalize_congruent(b);
    lemma_fundamental_div_mod(a - na, 360000);
    lemma_fundamental_div_mod(b - nb, 360000);
    let qa = (a - na) / 360000;
    let qb = (b - nb) / 360000;
    assert(a - na == 360000 * qa);
    assert(b - nb == 360000 * qb);
    let k: int = if nb - na > 180000 {
        -1
    } else if nb - na <= -180000 {
        1
    } else {
        0
    };
    assert(s == nb - na + 360000 * k);
    assert(a + s - b == 360000 * (qa - qb + k)) by {
        assert(a + s - b == (a - na) - (b - nb) + 360000 * k);
    }
    lemma_mod_multiples_basic(qa - qb + k, 360000);
}

} // verus!
