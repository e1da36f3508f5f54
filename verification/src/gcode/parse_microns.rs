//! Parsing of signed decimal literals with thousandths precision, as
//! used for millimetre and degree amounts, over ASCII bytes.
//!
//! The grammar accepts an optional `+` or `-`, one or more integer
//! digits, and optionally a `.` followed by 1 to 3 fractional digits;
//! fewer than 3 fractional digits are right-padded with zeros, and more
//! than 3 are a parse error. A value outside the 32-bit range is a parse
//! error as well. Every parser consumes its input on success and leaves
//! the cursor where it started on failure.

use vstd::prelude::*;
use vstd::arithmetic::div_mod::lemma_fundamental_div_mod;
use vstd::arithmetic::div_mod::lemma_mod_bound;
use crate::gcode::ParseError;
use crate::microns::Microns;
use crate::microns::spec_microns;
use crate::millidegrees::MilliDegrees;
use crate::millidegrees::spec_millidegrees;

verus! {

/// ASCII whitespace, as the tokenizer skips it.
pub open spec fn spec_is_ws(c: u8) -> bool {
    c == 32 || (9 <= c <= 13)
}

/// An ASCII decimal digit.
pub open spec fn spec_is_digit(c: u8) -> bool {
    48 <= c <= 57
}

/// The first index at or after `i` holding a non-whitespace byte (or the
/// end of the input).
pub open spec fn spec_skip_ws(s: Seq<u8>, i: int) -> int
    recommends
        0 <= i <= s.len(),
    decreases s.len() - i,
{
    if i < s.len() && spec_is_ws(s[i]) {
        spec_skip_ws(s, i + 1)
    } else {
        i
    }
}

/// The first index at or after `i` holding a non-digit byte (or the end
/// of the input): the end of the digit run starting at `i`.
pub open spec fn spec_scan_digits(s: Seq<u8>, i: int) -> int
    recommends
        0 <= i <= s.len(),
    decreases s.len() - i,
{
    if i < s.len() && spec_is_digit(s[i]) {
        spec_scan_digits(s, i + 1)
    } else {
        i
    }
}

/// The numeric value of the digit bytes from `i` (inclusive) to `j`
/// (exclusive), most significant first.
pub open spec fn spec_digits_val(s: Seq<u8>, i: int, j: int) -> int
    recommends
        0 <= i <= j <= s.len(),
    decreases j - i,
{
    if i >= j {
        0
    } else {
        spec_digits_val(s, i, j - 1) * 10 + (s[j - 1] - 48)
    }
}

/// Ten to the power `n` (one for non-positive `n`).
pub open spec fn spec_pow10(n: int) -> int
    decreases n,
{
    if n <= 0 {
        1
    } else {
        10 * spec_pow10(n - 1)
    }
}

/// The index where a decimal literal's integer digits begin: just past
/// a leading sign, if there is one.
pub open spec fn spec_decimal_digits_start(s: Seq<u8>, i: int) -> int {
    if i < s.len() && (s[i] == 43 || s[i] == 45) {
        i + 1
    } else {
        i
    }
}

/// What parsing a decimal literal at `i` yields: the value in
/// thousandths and the index just past the literal, or nothing on a
/// grammar mismatch or a value outside the 32-bit range.
pub open spec fn spec_parse_decimal(s: Seq<u8>, i: int) -> Option<(int, int)> {
    let neg: bool = i < s.len() && s[i] == 45;
    let i1: int = spec_decimal_digits_start(s, i);
    let j = spec_scan_digits(s, i1);
    if j == i1 {
        None
    } else {
        let int_val = spec_digits_val(s, i1, j);
        if j < s.len() && s[j] == 46 {
            let k = spec_scan_digits(s, j + 1);
            let n = k - (j + 1);
            if n < 1 || n > 3 {
                None
            } else {
                let v = int_val * 1000 + spec_digits_val(s, j + 1, k) * spec_pow10(3 - n);
                if v <= i32::MAX {
                    Some((if neg { -v } else { v }, k))
                } else {
                    None
                }
            }
        } else {
            let v = int_val * 1000;
            if v <= i32::MAX {
                Some((if neg { -v } else { v }, j))
            } else {
                None
            }
        }
    }
}

/// Whitespace skipping stays inside the input and halts at the first
/// non-whitespace byte.
pub proof fn lemma_skip_ws_bounds(s: Seq<u8>, i: int)
    requires
        0 <= i <= s.len(),
    ensures
        i <= spec_skip_ws(s, i) <= s.len(),
        spec_skip_ws(s, i) < s.len() ==> !spec_is_ws(s[spec_skip_ws(s, i)]),
    decreases s.len() - i,
{
    if i < s.len() && spec_is_ws(s[i]) {
        lemma_skip_ws_bounds(s, i + 1);
    }
}

/// The digit run starting at `i` stays inside the input, covers only
/// digits, and halts at the first non-digit.
pub proof fn lemma_scan_digits_bounds(s: Seq<u8>, i: int)
    requires
        0 <= i <= s.len(),
    ensures
        i <= spec_scan_digits(s, i) <= s.len(),
        forall|k: int| i <= k < spec_scan_digits(s, i) ==> spec_is_digit(#[trigger] s[k]),
        spec_scan_digits(s, i) < s.len() ==> !spec_is_digit(s[spec_scan_digits(s, i)]),
    decreases s.len() - i,
{
    if i < s.len() && spec_is_digit(s[i]) {
        lemma_scan_digits_bounds(s, i + 1);
    }
}

/// Appending digit bytes on the right never decreases the value.
pub proof fn lemma_digits_val_extend(s: Seq<u8>, a: int, m: int, j: int)
    requires
        0 <= a <= m <= j <= s.len(),
        0 <= spec_digits_val(s, a, m),
        forall|k: int| m <= k < j ==> #[trigger] s[k] >= 48,
    ensures
        spec_digits_val(s, a, j) >= spec_digits_val(s, a, m),
    decreases j - m,
{
    if j > m {
        lemma_digits_val_extend(s, a, m, j - 1);
    }
}

/// The value of a run of `j - i` digits is non-negative and below ten to
/// the run's length.
pub proof fn lemma_digits_val_range(s: Seq<u8>, i: int, j: int)
    requires
        0 <= i <= j <= s.len(),
        forall|k: int| i <= k < j ==> spec_is_digit(#[trigger] s[k]),
    ensures
        0 <= spec_digits_val(s, i, j) < spec_pow10(j - i),
    decreases j - i,
{
    if j > i {
        lemma_digits_val_range(s, i, j - 1);
        assert(spec_digits_val(s, i, j - 1) <= spec_pow10(j - i - 1) - 1);
        assert(spec_digits_val(s, i, j - 1) * 10 <= (spec_pow10(j - i - 1) - 1) * 10)
            by (nonlinear_arith)
            requires
                spec_digits_val(s, i, j - 1) <= spec_pow10(j - i - 1) - 1,
        ;
    }
}

/// Powers of ten multiply by adding exponents.
pub proof fn lemma_pow10_add(a: int, b: int)
    requires
        0 <= a,
        0 <= b,
    ensures
        spec_pow10(a) * spec_pow10(b) == spec_pow10(a + b),
    decreases a,
{
    if a == 0 {
    } else {
        lemma_pow10_add(a - 1, b);
        assert((10 * spec_pow10(a - 1)) * spec_pow10(b) == 10 * (spec_pow10(a - 1) * spec_pow10(
            b,
        ))) by (nonlinear_arith);
    }
}

/// Powers of ten are positive.
pub proof fn lemma_pow10_pos(n: int)
    ensures
        spec_pow10(n) >= 1,
    decreases n,
{
    if n > 0 {
        lemma_pow10_pos(n - 1);
    }
}

/// A successfully parsed literal consumes at least one byte and stays
/// inside the input.
pub proof fn lemma_parse_decimal_bounds(s: Seq<u8>, i: int)
    requires
        0 <= i <= s.len(),
    ensures
        spec_parse_decimal(s, i) matches Some(vk) ==> i < vk.1 <= s.len(),
{
    let i1 = spec_decimal_digits_start(s, i);
    lemma_scan_digits_bounds(s, i1);
    let j = spec_scan_digits(s, i1);
    if j != i1 && j < s.len() && s[j] == 46 {
        lemma_scan_digits_bounds(s, j + 1);
    }
}

/// A literal whose integer digits already exceed the 32-bit range is
/// rejected whatever follows them.
proof fn lemma_decimal_rejects_big(s: Seq<u8>, i: int)
    requires
        0 <= i <= s.len(),
        spec_digits_val(
            s,
            spec_decimal_digits_start(s, i),
            spec_scan_digits(s, spec_decimal_digits_start(s, i)),
        ) > i32::MAX,
    ensures
        spec_parse_decimal(s, i) is None,
{
    let i1 = spec_decimal_digits_start(s, i);
    lemma_scan_digits_bounds(s, i1);
    let j = spec_scan_digits(s, i1);
    let int_val = spec_digits_val(s, i1, j);
    if j < s.len() && s[j] == 46 {
        lemma_scan_digits_bounds(s, j + 1);
        let k = spec_scan_digits(s, j + 1);
        let n = k - (j + 1);
        if 1 <= n && n <= 3 {
            lemma_digits_val_range(s, j + 1, k);
            lemma_pow10_pos(3 - n);
            assert(spec_digits_val(s, j + 1, k) * spec_pow10(3 - n) >= 0) by (nonlinear_arith)
                requires
                    spec_digits_val(s, j + 1, k) >= 0,
                    spec_pow10(3 - n) >= 1,
            ;
        }
    }
}

/// Represents a sign when parsing numbers.
#[derive(Debug, PartialEq, Eq, Structural, Clone, Copy)]
pub enum Sign {
    Plus,
    Minus,
}

impl Sign {
    /// The factor the sign applies to a magnitude.
    pub fn to_i32(&self) -> (r: i32)
        ensures
            self == Sign::Plus ==> r == 1,
            self == Sign::Minus ==> r == -1,
    {
        match self {
            Sign::Plus => 1,
            Sign::Minus => -1,
        }
    }
}

/// Whether the byte is an ASCII decimal digit.
fn is_digit(c: u8) -> (r: bool)
    ensures
        r == spec_is_digit(c),
{
    48 <= c && c <= 57
}

/// Parse a sign indicator (`+` or `-`).
pub fn parse_sign(input: &[u8], pos: &mut usize) -> (r: Result<Sign, ParseError>)
    requires
        *old(pos) <= input@.len(),
    ensures
        *final(pos) <= input@.len(),
        (*old(pos) < input@.len() && input@[*old(pos) as int] == 43) ==> r == Ok::<
            Sign,
            ParseError,
        >(Sign::Plus) && *final(pos) == *old(pos) + 1,
        (*old(pos) < input@.len() && input@[*old(pos) as int] == 45) ==> r == Ok::<
            Sign,
            ParseError,
        >(Sign::Minus) && *final(pos) == *old(pos) + 1,
        !(*old(pos) < input@.len() && (input@[*old(pos) as int] == 43 || input@[*old(pos) as int] == 45)) ==> r is Err && *final(pos) == *old(pos),
    {
    if *pos < input.len() {
        let c = input[*pos];
        if c == 43 {
            *pos = *pos + 1;
            return Ok(Sign::Plus);
        }
        if c == 45 {
            *pos = *pos + 1;
            return Ok(Sign::Minus);
        }
    }
    Err(ParseError)
}

/// Parse and discard a period (`.`).
pub fn parse_period(input: &[u8], pos: &mut usize) -> (r: Result<(), ParseError>)
    requires
        *old(pos) <= input@.len(),
    ensures
        *final(pos) <= input@.len(),
        (*old(pos) < input@.len() && input@[*old(pos) as int] == 46) ==> r is Ok && *final(pos)
            == *old(pos) + 1,
        !(*old(pos) < input@.len() && input@[*old(pos) as int] == 46) ==> r is Err && *final(pos)
            == *old(pos),
    {
    if *pos < input.len() {
        if input[*pos] == 46 {
            *pos = *pos + 1;
            return Ok(());
        }
    }
    Err(ParseError)
}

/// Parse a run of digits (0-9) as an `i32`.
///
/// At least one digit is required, and a run whose value exceeds the
/// 32-bit range is a parse error; either failure leaves the cursor where
/// it started.
#[verifier::loop_isolation(false)]
pub fn parse_digits_i32(input: &[u8], pos: &mut usize) -> (r: Result<i32, ParseError>)
    requires
        *old(pos) <= input@.len(),
    ensures
        *final(pos) <= input@.len(),
        ({
            let s = input@;
            let p0 = *old(pos) as int;
            let j = spec_scan_digits(s, p0);
            &&& (r matches Ok(v) ==> j > p0 && v >= 0 && v as int == spec_digits_val(s, p0, j) && *final(pos) == j)
            &&& (r is Err ==> (j == p0 || spec_digits_val(s, p0, j) > i32::MAX) && *final(pos)
                == p0)
        }),
{
    let ghost s = input@;
    let start = *pos;
    proof {
        lemma_scan_digits_bounds(s, start as int);
    }
    let mut acc: i32 = 0;
    while *pos < input.len() && is_digit(input[*pos])
        invariant
            start <= *pos <= input@.len(),
            s == input@,
            spec_scan_digits(s, start as int) == spec_scan_digits(s, *pos as int),
            acc as int == spec_digits_val(s, start as int, *pos as int),
            acc >= 0,
        decreases input@.len() - *pos,
    {
        let d: i32 = (input[*pos] - 48) as i32;
        let stepped = match acc.checked_mul(10) {
            None => None,
            Some(x) => x.checked_add(d),
        };
        match stepped {
            None => {
                // The full digit run is worth even more than this
                // prefix, so the literal is out of range.
                proof {
                    assert(spec_scan_digits(s, *pos as int) == spec_scan_digits(
                        s,
                        *pos as int + 1,
                    ));
                    assert(spec_digits_val(s, start as int, *pos as int + 1) == (acc as int) * 10
                        + (d as int));
                    assert((acc as int) * 10 + (d as int) > i32::MAX);
                    lemma_scan_digits_bounds(s, *pos as int + 1);
                    lemma_digits_val_extend(
                        s,
                        start as int,
                        *pos as int + 1,
                        spec_scan_digits(s, *pos as int + 1),
                    );
                    assert(spec_digits_val(s, start as int, spec_scan_digits(s, start as int))
                        > i32::MAX);
                }
                *pos = start;
                return Err(ParseError);
            },
            Some(next) => {
                acc = next;
            },
        }
        *pos = *pos + 1;
    }
    if *pos == start {
        return Err(ParseError);
    }
    Ok(acc)
}

/// Parse digits (0-9) as "fractional digits" of width `n`: the digits
/// are padded with zeros on the right up to `n` places.
///
/// More than `n` digits, or none at all, is a parse error that leaves
/// the cursor where it started.
#[verifier::loop_isolation(false)]
pub fn parse_fractional_digits(input: &[u8], pos: &mut usize, n: usize) -> (r: Result<
    i32,
    ParseError,
>)
    requires
        *old(pos) <= input@.len(),
        1 <= n <= 9,
    ensures
        *final(pos) <= input@.len(),
        ({
            let s = input@;
            let p0 = *old(pos) as int;
            let j = spec_scan_digits(s, p0);
            &&& (r matches Ok(v) ==> j > p0 && j - p0 <= n && v >= 0 && v as int
                == spec_digits_val(s, p0, j) * spec_pow10(n - (j - p0)) && (v as int)
                < spec_pow10(n as int) && *final(pos) == j)
            &&& (r is Err ==> (j == p0 || j - p0 > n) && *final(pos) == p0)
        }),
{
    let ghost s = input@;
    let start = *pos;
    proof {
        lemma_scan_digits_bounds(s, start as int);
    }

    // Measure the digit run first, so that an over-long run is rejected
    // without accumulating its value.
    let mut end = *pos;
    while end < input.len() && is_digit(input[end])
        invariant
            start <= end <= input@.len(),
            s == input@,
            spec_scan_digits(s, start as int) == spec_scan_digits(s, end as int),
        decreases input@.len() - end,
    {
        end = end + 1;
    }
    let len = end - start;
    if len == 0 || len > n {
        return Err(ParseError);
    }

    proof {
        lemma_digits_val_range(s, start as int, end as int);
        lemma_pow10_pos(n as int - len as int);
        lemma_pow10_add(len as int, n as int - len as int);
        lemma_pow10_mono(len as int, 9);
        lemma_pow10_mono(n as int, 9);
    }

    let mut acc: i32 = 0;
    while *pos < end
        invariant
            start <= *pos <= end <= input@.len(),
            s == input@,
            end == spec_scan_digits(s, start as int),
            forall|k: int| start <= k < end ==> spec_is_digit(#[trigger] s[k]),
            acc as int == spec_digits_val(s, start as int, *pos as int),
            0 <= acc as int,
            (acc as int) < spec_pow10(*pos as int - start as int),
            spec_pow10(end as int - start as int) <= spec_pow10(9),
        decreases end - *pos,
    {
        proof {
            lemma_pow10_mono(*pos as int + 1 - start as int, end as int - start as int);
            assert(acc as int * 10 + 9 < spec_pow10(*pos as int + 1 - start as int))
                by (nonlinear_arith)
                requires
                    (acc as int) < spec_pow10(*pos as int - start as int),
                    spec_pow10(*pos as int + 1 - start as int) == 10 * spec_pow10(
                        *pos as int - start as int,
                    ),
            ;
            assert(spec_pow10(9) == 1000000000) by {
                reveal_with_fuel(spec_pow10, 10);
            }
        }
        let d: i32 = (input[*pos] - 48) as i32;
        acc = acc * 10 + d;
        *pos = *pos + 1;
    }

    let factor = pow10_i32(n - len);
    proof {
        assert(spec_pow10(9) == 1000000000) by {
            reveal_with_fuel(spec_pow10, 10);
        }
        assert(acc as int * spec_pow10(n as int - len as int) < spec_pow10(n as int))
            by (nonlinear_arith)
            requires
                0 <= acc as int,
                (acc as int) < spec_pow10(len as int),
                spec_pow10(n as int - len as int) >= 1,
                spec_pow10(len as int) * spec_pow10(n as int - len as int) == spec_pow10(
                    n as int,
                ),
        ;
        lemma_pow10_mono(n as int, 9);
    }
    Ok(acc * factor)
}

/// Powers of ten grow with the exponent.
proof fn lemma_pow10_mono(a: int, b: int)
    requires
        a <= b,
    ensures
        spec_pow10(a) <= spec_pow10(b),
    decreases b - a,
{
    lemma_pow10_pos(a);
    if a < b {
        lemma_pow10_mono(a, b - 1);
        lemma_pow10_pos(b - 1);
    }
}

/// Ten to the power `e`, as a 32-bit value.
#[verifier::loop_isolation(false)]
fn pow10_i32(e: usize) -> (r: i32)
    requires
        e <= 9,
    ensures
        r as int == spec_pow10(e as int),
{
    proof {
        assert(spec_pow10(9) == 1000000000) by {
            reveal_with_fuel(spec_pow10, 10);
        }
    }
    let mut r: i32 = 1;
    let mut k: usize = 0;
    while k < e
        invariant
            k <= e <= 9,
            r as int == spec_pow10(k as int),
            spec_pow10(9) == 1000000000,
        decreases e - k,
    {
        proof {
            lemma_pow10_pos(k as int);
            lemma_pow10_mono(k as int + 1, 9);
            assert(spec_pow10(k as int + 1) == 10 * spec_pow10(k as int));
        }
        r = r * 10;
        k = k + 1;
    }
    r
}

/// The shared core of the decimal parsers: sign, integer digits, and an
/// optional fractional part, combined into thousandths.
#[verifier::loop_isolation(false)]
#[verifier::rlimit(80)]
fn parse_decimal_core(input: &[u8], pos: &mut usize) -> (r: Result<i32, ParseError>)
    requires
        *old(pos) <= input@.len(),
    ensures
        *final(pos) <= input@.len(),
        r matches Ok(v) ==> (spec_parse_decimal(input@, *old(pos) as int) matches Some(vk)
            && vk.0 == v as int && *final(pos) == vk.1),
        r is Err ==> spec_parse_decimal(input@, *old(pos) as int) is None && *final(pos) == *old(pos),
{
    let ghost s = input@;
    let start = *pos;

    let negative = match parse_sign(input, pos) {
        Ok(Sign::Minus) => true,
        Ok(Sign::Plus) => false,
        Err(_) => false,
    };

    let int_part = match parse_digits_i32(input, pos) {
        Err(_) => {
            proof {
                let i1 = spec_decimal_digits_start(s, start as int);
                if spec_digits_val(s, i1, spec_scan_digits(s, i1)) > i32::MAX {
                    lemma_decimal_rejects_big(s, start as int);
                }
            }
            *pos = start;
            return Err(ParseError);
        },
        Ok(v) => v,
    };

    let frac: i32 = match parse_period(input, pos) {
        Err(_) => 0,
        Ok(()) => match parse_fractional_digits(input, pos, 3) {
            Err(_) => {
                *pos = start;
                return Err(ParseError);
            },
            Ok(f) => f,
        },
    };
    proof {
        lemma_scan_digits_bounds(s, start as int);
    }

    let magnitude = match int_part.checked_mul(1000) {
        None => {
            *pos = start;
            return Err(ParseError);
        },
        Some(x) => match x.checked_add(frac) {
            None => {
                *pos = start;
                return Err(ParseError);
            },
            Some(y) => y,
        },
    };

    proof {
        let i = start as int;
        let i1 = spec_decimal_digits_start(s, i);
        lemma_scan_digits_bounds(s, i1);
        let j = spec_scan_digits(s, i1);
        assert(j > i1);
        assert(int_part as int == spec_digits_val(s, i1, j));
        assert(int_part >= 0);
        if j < s.len() && s[j] == 46 {
            lemma_scan_digits_bounds(s, j + 1);
            let k = spec_scan_digits(s, j + 1);
            assert(frac as int == spec_digits_val(s, j + 1, k) * spec_pow10(3 - (k - (j + 1))));
            assert(*pos as int == k);
        } else {
            assert(frac == 0);
            assert(*pos as int == j);
        }
        assert(magnitude as int == (int_part as int) * 1000 + frac as int);
        assert(spec_parse_decimal(s, start as int) is Some);
        assert(spec_parse_decimal(s, start as int) matches Some(vk) ==> vk.1 == *pos as int);
        if negative {
            assert((start as int) < s.len() && s[start as int] == 45);
            assert(spec_parse_decimal(s, start as int) matches Some(vk) ==> vk.0 == -(
            magnitude as int));
        } else {
            assert(!((start as int) < s.len() && s[start as int] == 45));
            assert(spec_parse_decimal(s, start as int) matches Some(vk) ==> vk.0
                == magnitude as int);
        }
    }
    if negative {
        Ok(-magnitude)
    } else {
        Ok(magnitude)
    }
}

/// Parses a decimal value in mm as a value in microns.
///
/// This permits only decimal notation, NOT scientific notation, with at
/// most 3 decimal places following the decimal point.
pub fn parse_mm_as_microns(input: &[u8], pos: &mut usize) -> (r: Result<Microns, ParseError>)
    requires
        *old(pos) <= input@.len(),
    ensures
        *final(pos) <= input@.len(),
        r matches Ok(m) ==> (spec_parse_decimal(input@, *old(pos) as int) matches Some(vk)
            && vk.0 == m@ && m == spec_microns(vk.0) && *final(pos) == vk.1),
        r is Err ==> spec_parse_decimal(input@, *old(pos) as int) is None && *final(pos) == *old(pos),
{
    match parse_decimal_core(input, pos) {
        Ok(v) => Ok(Microns::new(v)),
        Err(e) => Err(e),
    }
}

/// Parses a decimal value in degrees as a value in millidegrees.
pub fn parse_degrees_as_millidegrees(input: &[u8], pos: &mut usize) -> (r: Result<
    MilliDegrees,
    ParseError,
>)
    requires
        *old(pos) <= input@.len(),
    ensures
        *final(pos) <= input@.len(),
        r matches Ok(m) ==> (spec_parse_decimal(input@, *old(pos) as int) matches Some(vk)
            && vk.0 == m@ && m == spec_millidegrees(vk.0) && *final(pos) == vk.1),
        r is Err ==> spec_parse_decimal(input@, *old(pos) as int) is None && *final(pos) == *old(pos),
{
    match parse_decimal_core(input, pos) {
        Ok(v) => Ok(MilliDegrees::new(v)),
        Err(e) => Err(e),
    }
}


/// The decimal digit bytes of a non-negative number, most significant
/// first.
pub open spec fn spec_dec_digits(n: int) -> Seq<u8>
    recommends
        n >= 0,
    decreases n,
{
    if n < 10 {
        seq![(48 + n) as u8]
    } else {
        spec_dec_digits(n / 10).push((48 + n % 10) as u8)
    }
}

/// Three digit bytes for a fractional part below one thousand,
/// zero-padded on the left.
pub open spec fn spec_frac3(f: int) -> Seq<u8> {
    seq![(48 + f / 100) as u8, (48 + (f / 10) % 10) as u8, (48 + f % 10) as u8]
}

/// The canonical rendering of a signed thousandths value: an explicit
/// sign, the integer part, a period, and exactly three fractional
/// digits.
pub open spec fn spec_display_millis(v: int) -> Seq<u8> {
    let a = if v >= 0 {
        v
    } else {
        -v
    };
    let sign: u8 = if v >= 0 {
        43
    } else {
        45
    };
    seq![sign] + spec_dec_digits(a / 1000) + seq![46u8] + spec_frac3(a % 1000)
}

/// The rendering of a non-negative number is at least one byte, all of
/// them digits.
proof fn lemma_dec_digits_props(n: int)
    requires
        n >= 0,
    ensures
        spec_dec_digits(n).len() >= 1,
        forall|k: int|
            0 <= k < spec_dec_digits(n).len() ==> spec_is_digit(#[trigger] spec_dec_digits(n)[k]),
    decreases n,
{
    if n >= 10 {
        lemma_dec_digits_props(n / 10);
    }
}

/// Reading back the rendered digits of `n`, wherever they sit in a
/// larger sequence, yields `n` again.
proof fn lemma_dec_digits_val(s: Seq<u8>, off: int, n: int)
    requires
        n >= 0,
        0 <= off,
        off + spec_dec_digits(n).len() <= s.len(),
        s.subrange(off, off + spec_dec_digits(n).len() as int) == spec_dec_digits(n),
    ensures
        spec_digits_val(s, off, off + spec_dec_digits(n).len() as int) == n,
    decreases n,
{
    let d = spec_dec_digits(n);
    let dl = d.len() as int;
    if n < 10 {
        assert(s[off] == s.subrange(off, off + 1)[0]);
        assert(s[off] == (48 + n) as u8);
        assert(spec_digits_val(s, off, off) == 0);
        assert(spec_digits_val(s, off, off + 1) == n);
    } else {
        let dprev = spec_dec_digits(n / 10);
        assert(dl == dprev.len() + 1);
        assert(s.subrange(off, off + dl - 1) =~= dprev) by {
            assert forall|k: int| 0 <= k < dl - 1 implies s.subrange(off, off + dl - 1)[k]
                == dprev[k] by {
                assert(s.subrange(off, off + dl)[k] == d[k]);
                assert(d[k] == dprev[k]);
                assert(s.subrange(off, off + dl - 1)[k] == s[off + k]);
                assert(s.subrange(off, off + dl)[k] == s[off + k]);
            }
        }
        lemma_dec_digits_val(s, off, n / 10);
        assert(s[off + dl - 1] == s.subrange(off, off + dl)[dl - 1]);
        lemma_fundamental_div_mod(n, 10);
        lemma_mod_bound(n, 10);
        assert(spec_digits_val(s, off, off + dl - 1) == n / 10);
        assert(s[off + dl - 1] == (48 + n % 10) as u8);
        assert(spec_digits_val(s, off, off + dl) == (n / 10) * 10 + (n % 10));
    }
}

/// A region of digit bytes followed by a non-digit (or the end of the
/// input) is exactly what the digit scan covers.
proof fn lemma_scan_digits_run(s: Seq<u8>, i: int, j: int)
    requires
        0 <= i <= j <= s.len(),
        forall|k: int| i <= k < j ==> spec_is_digit(#[trigger] s[k]),
        j == s.len() || !spec_is_digit(s[j]),
    ensures
        spec_scan_digits(s, i) == j,
    decreases j - i,
{
    if i < j {
        lemma_scan_digits_run(s, i + 1, j);
    }
}

/// Appends the decimal digit bytes of `n`, most significant first.
fn push_dec_digits(n: u32, out: &mut Vec<u8>)
    ensures
        final(out)@ == old(out)@ + spec_dec_digits(n as int),
    decreases n,
{
    if n < 10 {
        out.push(48 + (n as u8));
        proof {
            assert(final(out)@ =~= old(out)@ + spec_dec_digits(n as int));
        }
    } else {
        push_dec_digits(n / 10, out);
        out.push(48 + ((n % 10) as u8));
        proof {
            assert(final(out)@ =~= old(out)@ + spec_dec_digits(n as int));
        }
    }
}

/// Renders a signed thousandths value as its canonical decimal string:
/// an explicit sign, the integer part, a period, and exactly three
/// fractional digits.
pub fn display_millis(value: i32) -> (r: Vec<u8>)
    requires
        value > i32::MIN,
    ensures
        r@ == spec_display_millis(value as int),
{
    let mut out: Vec<u8> = Vec::new();
    if value >= 0 {
        out.push(43);
    } else {
        out.push(45);
    }
    let a: u32 = if value >= 0 {
        value as u32
    } else {
        (-value) as u32
    };
    let ip: u32 = a / 1000;
    let f: u32 = a % 1000;
    push_dec_digits(ip, &mut out);
    out.push(46);
    out.push(48 + (f / 100) as u8);
    out.push(48 + ((f / 10) % 10) as u8);
    out.push(48 + (f % 10) as u8);
    proof {
        assert(out@ =~= spec_display_millis(value as int));
    }
    out
}

/// Round trip: parsing the canonical rendering of any representable
/// thousandths value reproduces the value exactly, consuming the whole
/// rendering.
pub proof fn lemma_display_millis_round_trip(v: int)
    requires
        -(i32::MAX as int) <= v <= i32::MAX,
    ensures
        ({
            let s = spec_display_millis(v);
            spec_parse_decimal(s, 0) == Some((v, s.len() as int))
        }),
{
    let s = spec_display_millis(v);
    let a = if v >= 0 {
        v
    } else {
        -v
    };
    let ip = a / 1000;
    let f = a % 1000;
    lemma_fundamental_div_mod(a, 1000);
    lemma_mod_bound(a, 1000);
    vstd::arithmetic::div_mod::lemma_div_pos_is_pos(a, 1000);
    let d = spec_dec_digits(ip);
    let dl = d.len() as int;
    lemma_dec_digits_props(ip);
    assert(s.len() == dl + 5);

    // The sign byte is consumed, so the integer digits start at 1.
    assert(s[0] == 43 || s[0] == 45);
    assert(spec_decimal_digits_start(s, 0) == 1);

    // The integer digit run covers exactly the rendered digits of `ip`.
    assert forall|k: int| 1 <= k < 1 + dl implies spec_is_digit(#[trigger] s[k]) by {
        assert(s[k] == d[k - 1]);
    }
    assert(s[1 + dl] == 46);
    lemma_scan_digits_run(s, 1, 1 + dl);
    assert(s.subrange(1, 1 + dl) =~= d);
    lemma_dec_digits_val(s, 1, ip);

    // The period is followed by exactly the three fractional digits.
    assert(s[2 + dl] == (48 + f / 100) as u8);
    assert(s[3 + dl] == (48 + (f / 10) % 10) as u8);
    assert(s[4 + dl] == (48 + f % 10) as u8);
    lemma_mod_bound(f, 10);
    lemma_mod_bound(f / 10, 10);
    vstd::arithmetic::div_mod::lemma_div_is_ordered(f, 999, 100);
    assert forall|k: int| 2 + dl <= k < 5 + dl implies spec_is_digit(#[trigger] s[k]) by {}
    lemma_scan_digits_run(s, 2 + dl, 5 + dl);

    // Reading the three fractional digits back yields `f`.
    lemma_fundamental_div_mod(f, 10);
    lemma_fundamental_div_mod(f / 10, 10);
    vstd::arithmetic::div_mod::lemma_div_denominator(f, 10, 10);
    assert(spec_digits_val(s, 2 + dl, 2 + dl) == 0);
    assert(spec_digits_val(s, 2 + dl, 3 + dl) == f / 100);
    assert(spec_digits_val(s, 2 + dl, 4 + dl) == (f / 100) * 10 + (f / 10) % 10);
    assert((f / 100) * 10 + (f / 10) % 10 == f / 10);
    assert(spec_digits_val(s, 2 + dl, 5 + dl) == (f / 10) * 10 + f % 10);
    assert(spec_digits_val(s, 2 + dl, 5 + dl) == f);

    // Reassemble: the parsed magnitude equals the rendered one.
    lemma_pow10_pos(0);
    assert(spec_parse_decimal(s, 0) == Some((v, s.len() as int)));
}

} // verus!
