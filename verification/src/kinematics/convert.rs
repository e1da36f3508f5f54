//! Shared arithmetic for the unit converters: truncating division over
//! widened integers, and the bound on the error of a multiply-divide
//! round trip.

use vstd::prelude::*;
use vstd::arithmetic::div_mod::lemma_fundamental_div_mod;
use vstd::arithmetic::div_mod::lemma_mod_bound;
use vstd::math::abs;

verus! {

/// Truncating integer division (rounding toward zero), as the machine
/// division of `i64` behaves.
pub open spec fn spec_trunc_div(x: int, d: int) -> int
    recommends
        d != 0,
{
    if x == 0 {
        0
    } else if x > 0 && d > 0 {
        x / d
    } else if x < 0 && d < 0 {
        (x * -1) / (d * -1)
    } else if x < 0 {
        ((x * -1) / d) * -1
    } else {
        (x / (d * -1)) * -1
    }
}

/// A value representable in the 32-bit signed range.
pub open spec fn spec_fits_i32(v: int) -> bool {
    i32::MIN <= v <= i32::MAX
}

/// Truncating division is odd in its dividend (for a positive divisor).
proof fn lemma_trunc_div_negate(x: int, d: int)
    requires
        0 < d,
    ensures
        spec_trunc_div(-x, d) == -spec_trunc_div(x, d),
{
}

/// The magnitude of a truncating quotient never exceeds the magnitude of
/// the dividend.
pub proof fn lemma_trunc_div_bound(x: int, d: int)
    requires
        d != 0,
    ensures
        -abs(x) <= spec_trunc_div(x, d) <= abs(x),
{
    let ax = abs(x) as int;
    let ad = abs(d) as int;
    vstd::arithmetic::div_mod::lemma_div_pos_is_pos(ax, ad);
    vstd::arithmetic::div_mod::lemma_div_nonincreasing(ax, ad);
}

/// Scaling by a factor and truncating away the same factor is the
/// identity.
pub proof fn lemma_trunc_div_cancel(d: int, t: int)
    requires
        1 <= t,
    ensures
        spec_trunc_div(d * t, t) == d,
{
    if d > 0 {
        assert(d * t > 0) by (nonlinear_arith)
            requires
                d > 0,
                t >= 1,
        ;
        vstd::arithmetic::div_mod::lemma_div_multiples_vanish(d, t);
        assert(t * d == d * t) by (nonlinear_arith);
    } else if d < 0 {
        assert(d * t < 0) by (nonlinear_arith)
            requires
                d < 0,
                t >= 1,
        ;
        assert((d * t) * -1 == (-d) * t) by (nonlinear_arith);
        vstd::arithmetic::div_mod::lemma_div_multiples_vanish(-d, t);
        assert(t * (-d) == (-d) * t) by (nonlinear_arith);
    }
}

/// A truncated proportional share `(d * i) / t`, for `i` between 1 and
/// `t`, lies between zero and `d`.
pub proof fn lemma_trunc_div_scale_range(d: int, i: int, t: int)
    requires
        1 <= i <= t,
    ensures
        d >= 0 ==> 0 <= spec_trunc_div(d * i, t) <= d,
        d < 0 ==> d <= spec_trunc_div(d * i, t) <= 0,
{
    if d >= 0 {
        lemma_trunc_div_scale_range_nonneg(d, i, t);
    } else {
        lemma_trunc_div_scale_range_nonneg(-d, i, t);
        assert(d * i == -((-d) * i)) by (nonlinear_arith);
        lemma_trunc_div_negate((-d) * i, t);
    }
}

/// The non-negative case of [`lemma_trunc_div_scale_range`].
proof fn lemma_trunc_div_scale_range_nonneg(d: int, i: int, t: int)
    requires
        0 <= d,
        1 <= i <= t,
    ensures
        0 <= spec_trunc_div(d * i, t) <= d,
{
    assert(0 <= d * i) by (nonlinear_arith)
        requires
            0 <= d,
            1 <= i,
    ;
    assert(d * i <= d * t) by (nonlinear_arith)
        requires
            0 <= d,
            i <= t,
    ;
    vstd::arithmetic::div_mod::lemma_div_pos_is_pos(d * i, t);
    vstd::arithmetic::div_mod::lemma_div_is_ordered(d * i, d * t, t);
    vstd::arithmetic::div_mod::lemma_div_multiples_vanish(d, t);
    assert(t * d == d * t) by (nonlinear_arith);
}

/// Round-trip error of converting a quantity into another unit and back,
/// each conversion a multiply followed by a truncating divide.
///
/// For a unit-to-steps ratio of `s_per : u_per`, converting `m` units to
/// steps and back yields `r` with `|m - r| * s_per <= u_per + s_per - 2`:
/// the error does not exceed one unit of the coarser representation. In
/// particular, when steps are at least as fine as the unit (`u_per <=
/// s_per`), the round trip is exact to within one single unit.
pub proof fn lemma_unit_round_trip(s_per: int, u_per: int, m: int)
    requires
        1 <= s_per,
        1 <= u_per,
    ensures
        ({
            let t = spec_trunc_div(m * s_per, u_per);
            let r = spec_trunc_div(t * u_per, s_per);
            abs(m - r) * s_per <= u_per + s_per - 2
        }),
        ({
            let t = spec_trunc_div(m * s_per, u_per);
            let r = spec_trunc_div(t * u_per, s_per);
            u_per <= s_per ==> abs(m - r) <= 1
        }),
{
    let t = spec_trunc_div(m * s_per, u_per);
    let r = spec_trunc_div(t * u_per, s_per);
    if m >= 0 {
        lemma_unit_round_trip_nonneg(s_per, u_per, m);
    } else {
        let m2 = -m;
        lemma_unit_round_trip_nonneg(s_per, u_per, m2);
        let t2 = spec_trunc_div(m2 * s_per, u_per);
        let r2 = spec_trunc_div(t2 * u_per, s_per);
        assert(m * s_per == -(m2 * s_per)) by (nonlinear_arith)
            requires
                m2 == -m,
        ;
        lemma_trunc_div_negate(m2 * s_per, u_per);
        assert(t == -t2);
        assert(t * u_per == -(t2 * u_per)) by (nonlinear_arith)
            requires
                t == -t2,
        ;
        lemma_trunc_div_negate(t2 * u_per, s_per);
        assert(r == -r2);
        assert(abs(m - r) == abs(m2 - r2));
    }
    let err = abs(m - r) as int;
    if u_per <= s_per {
        assert(err * s_per <= 2 * s_per - 2);
        assert(err <= 1) by (nonlinear_arith)
            requires
                err * s_per <= 2 * s_per - 2,
                s_per >= 1,
                err >= 0,
        ;
    }
}

/// The round-trip error bound for a non-negative starting quantity.
proof fn lemma_unit_round_trip_nonneg(s_per: int, u_per: int, m: int)
    requires
        1 <= s_per,
        1 <= u_per,
        0 <= m,
    ensures
        ({
            let t = spec_trunc_div(m * s_per, u_per);
            let r = spec_trunc_div(t * u_per, s_per);
            0 <= (m - r) * s_per <= u_per + s_per - 2 && r <= m
        }),
{
    let p = m * s_per;
    assert(0 <= p) by (nonlinear_arith)
        requires
            p == m * s_per,
            0 <= m,
            1 <= s_per,
    ;
    let t = spec_trunc_div(p, u_per);
    assert(t == p / u_per);
    lemma_fundamental_div_mod(p, u_per);
    lemma_mod_bound(p, u_per);
    let f = p % u_per;
    assert(p == u_per * t + f);
    assert(0 <= t) by (nonlinear_arith)
        requires
            p == u_per * t + f,
            0 <= p,
            0 <= f < u_per,
            1 <= u_per,
    ;
    let w = t * u_per;
    assert(0 <= w) by (nonlinear_arith)
        requires
            w == t * u_per,
            0 <= t,
            1 <= u_per,
    ;
    let r = spec_trunc_div(w, s_per);
    assert(r == w / s_per);
    lemma_fundamental_div_mod(w, s_per);
    lemma_mod_bound(w, s_per);
    let e = w % s_per;
    assert(w == s_per * r + e);
    // Combine the two division equations: the round-trip deficit is the
    // sum of the two remainders.
    assert((m - r) * s_per == f + e) by (nonlinear_arith)
        requires
            p == m * s_per,
            p == u_per * t + f,
            w == t * u_per,
            w == s_per * r + e,
    ;
    assert(0 <= f + e <= u_per + s_per - 2);
    assert(r <= m) by (nonlinear_arith)
        requires
            (m - r) * s_per == f + e,
            0 <= f + e,
            1 <= s_per,
    ;
}

} // verus!
