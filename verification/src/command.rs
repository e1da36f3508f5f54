//! A simplified, whole-line command parser.
//!
//! This is a second, stricter entry into the protocol: a line is
//! exactly `Z`, `G90`, `G91`, or `G0` with optional space-separated `X`
//! and `A` decimal amounts, and nothing else. Its decimal literals
//! differ deliberately from the tokenizer's: excess fractional digits
//! beyond three are truncated without error rather than rejected.

use vstd::prelude::*;
use crate::gcode::ParseError;
use crate::gcode::lemma_digits_val_range;
use crate::gcode::lemma_scan_digits_bounds;
use crate::gcode::parse_digits_i32;
use crate::gcode::parse_period;
use crate::gcode::parse_sign;
use crate::gcode::spec_decimal_digits_start;
use crate::gcode::spec_digits_val;
use crate::gcode::spec_is_digit;
use crate::gcode::spec_pow10;
use crate::gcode::spec_scan_digits;
use crate::gcode::Sign;

verus! {

/// Commands of the simplified protocol.
#[derive(Debug, PartialEq, Eq, Structural, Copy, Clone)]
pub enum Command {
    /// `Z`: zero the machine.
    Zero,
    /// `G90`: absolute positioning.
    AbsolutePositioning,
    /// `G91`: relative positioning.
    RelativePositioning,
    /// `G0 ...`: move.
    Move(Move),
}

/// Errors of the simplified protocol.
#[derive(Debug, PartialEq, Eq, Structural, Copy, Clone)]
pub enum Error {
    /// The line matches no command of the protocol.
    InvalidGCode,
}

/// A move's optional axis amounts, in thousandths.
#[derive(Debug, PartialEq, Eq, Structural, Copy, Clone)]
pub struct Move {
    pub x_microns: Option<i32>,
    pub a_millidegrees: Option<i32>,
}

impl Move {
    /// The linear amount in microns; an unspecified axis is zero.
    pub fn x_microns(&self) -> (r: i32)
        ensures
            r == (match self.x_microns {
                Some(v) => v,
                None => 0,
            }),
    {
        match self.x_microns {
            Some(v) => v,
            None => 0,
        }
    }

    /// The rotary amount in millidegrees; an unspecified axis is zero.
    pub fn a_millidegrees(&self) -> (r: i32)
        ensures
            r == (match self.a_millidegrees {
                Some(v) => v,
                None => 0,
            }),
    {
        match self.a_millidegrees {
            Some(v) => v,
            None => 0,
        }
    }
}

/// A space or a tab: the separator of the simplified grammar.
pub open spec fn spec_is_space(c: u8) -> bool {
    c == 32 || c == 9
}

/// The first index at or after `i` holding a byte that is neither a
/// space nor a tab.
pub open spec fn spec_scan_space(s: Seq<u8>, i: int) -> int
    recommends
        0 <= i <= s.len(),
    decreases s.len() - i,
{
    if i < s.len() && spec_is_space(s[i]) {
        spec_scan_space(s, i + 1)
    } else {
        i
    }
}

/// What parsing a decimal with thousandths precision and *truncating*
/// excess fractional digits yields: the value and the index just past
/// the literal (all fractional digits are consumed, even the truncated
/// ones).
pub open spec fn spec_parse_decimal_trunc(s: Seq<u8>, i: int) -> Option<(int, int)> {
    let neg: bool = i < s.len() && s[i] == 45;
    let i1: int = spec_decimal_digits_start(s, i);
    let j = spec_scan_digits(s, i1);
    if j == i1 {
        None
    } else {
        let int_val = spec_digits_val(s, i1, j);
        if j < s.len() && s[j] == 46 {
            let k = spec_scan_digits(s, j + 1);
            if k == j + 1 {
                None
            } else {
                let m = if k - (j + 1) > 3 {
                    j + 1 + 3
                } else {
                    k
                };
                let frac = spec_digits_val(s, j + 1, m) * spec_pow10(3 - (m - (j + 1)));
                let v = int_val * 1000 + frac;
                if v <= i32::MAX {
                    Some((if neg { -v } else { v }, k))
                } else {
                    None
                }
            }
        } else {
            let v = int_val * 1000;
            if v <= i32::MAX {
                Some((if neg { -v } else { v }, j))
            } else {
                None
            }
        }
    }
}

/// What an optional space-separated axis amount at `i` yields: the
/// amount and the new cursor, or no amount with the cursor unmoved when
/// the separator, the axis letter or the literal is missing.
pub open spec fn spec_opt_axis_amount(s: Seq<u8>, i: int, letter: u8) -> (Option<i32>, int) {
    let j = spec_scan_space(s, i);
    if j == i || !(j < s.len() && s[j] == letter) {
        (None, i)
    } else {
        match spec_parse_decimal_trunc(s, j + 1) {
            None => (None, i),
            Some(vk) => (Some(vk.0 as i32), vk.1),
        }
    }
}

/// What a whole line means under the simplified grammar. Each branch is
/// committed by its prefix, and the whole line must be consumed.
pub open spec fn spec_parse_line(s: Seq<u8>) -> Option<Command> {
    if s.len() >= 1 && s[0] == 90 {
        if s.len() == 1 {
            Some(Command::Zero)
        } else {
            None
        }
    } else if s.len() >= 3 && s[0] == 71 && s[1] == 57 && s[2] == 48 {
        if s.len() == 3 {
            Some(Command::AbsolutePositioning)
        } else {
            None
        }
    } else if s.len() >= 3 && s[0] == 71 && s[1] == 57 && s[2] == 49 {
        if s.len() == 3 {
            Some(Command::RelativePositioning)
        } else {
            None
        }
    } else if s.len() >= 2 && s[0] == 71 && s[1] == 48 {
        let xr = spec_opt_axis_amount(s, 2, 88);
        let ar = spec_opt_axis_amount(s, xr.1, 65);
        if ar.1 == s.len() {
            Some(Command::Move(Move { x_microns: xr.0, a_millidegrees: ar.0 }))
        } else {
            None
        }
    } else {
        None
    }
}

/// Whether the byte is a space or a tab.
fn is_space(c: u8) -> (r: bool)
    ensures
        r == spec_is_space(c),
{
    c == 32 || c == 9
}

/// Parse a decimal value with thousandths precision, truncating excess
/// fractional digits.
///
/// For example `3` is 3000, `3.14` is 3140, `3.142` is 3142, and
/// `3.1428` is 3142: fractional digits beyond the third are consumed
/// and discarded.
#[verifier::loop_isolation(false)]
pub fn parse_decimal_millis(input: &[u8], pos: &mut usize) -> (r: Result<i32, ParseError>)
    requires
        *old(pos) <= input@.len(),
    ensures
        *final(pos) <= input@.len(),
        r matches Ok(v) ==> (spec_parse_decimal_trunc(input@, *old(pos) as int) matches Some(vk)
            && vk.0 == v as int && *final(pos) == vk.1),
        r is Err ==> spec_parse_decimal_trunc(input@, *old(pos) as int) is None && *final(pos)
            == *old(pos),
{
    let ghost s = input@;
    let start = *pos;

    let negative = match parse_sign(input, pos) {
        Ok(Sign::Minus) => true,
        Ok(Sign::Plus) => false,
        Err(_) => false,
    };

    let int_part = match parse_digits_i32(input, pos) {
        Err(_) => {
            proof {
                let i1 = spec_decimal_digits_start(s, start as int);
                lemma_scan_digits_bounds(s, i1);
                if spec_digits_val(s, i1, spec_scan_digits(s, i1)) > i32::MAX {
                    lemma_trunc_rejects_big(s, start as int);
                }
            }
            *pos = start;
            return Err(ParseError);
        },
        Ok(v) => v,
    };

    let frac: i32 = match parse_period(input, pos) {
        Err(_) => 0,
        Ok(()) => {
            // Scan the whole digit run, but keep only the first three
            // digits' worth of value.
            let fstart = *pos;
            proof {
                lemma_scan_digits_bounds(s, fstart as int);
            }
            let mut end = *pos;
            while end < input.len() && 48 <= input[end] && input[end] <= 57
                invariant
                    fstart <= end <= input@.len(),
                    spec_scan_digits(s, fstart as int) == spec_scan_digits(s, end as int),
                decreases input@.len() - end,
            {
                end = end + 1;
            }
            if end == fstart {
                *pos = start;
                return Err(ParseError);
            }
            let used = if end - fstart > 3 {
                fstart + 3
            } else {
                end
            };
            let mut acc: i32 = 0;
            proof {
                lemma_digits_val_range(s, fstart as int, used as int);
                lemma_pow10_small(0);
            }
            while *pos < used
                invariant
                    fstart <= *pos <= used <= input@.len(),
                    used - fstart <= 3,
                    forall|k: int| fstart <= k < used ==> spec_is_digit(#[trigger] s[k]),
                    acc as int == spec_digits_val(s, fstart as int, *pos as int),
                    0 <= acc,
                    (acc as int) < spec_pow10(*pos as int - fstart as int),
                    spec_pow10(used as int - fstart as int) <= 1000,
                decreases used - *pos,
            {
                let d: i32 = (input[*pos] - 48) as i32;
                acc = acc * 10 + d;
                *pos = *pos + 1;
            }
            let factor: i32 = if end - fstart >= 3 {
                1
            } else if end - fstart == 2 {
                10
            } else {
                100
            };
            *pos = end;
            proof {
                lemma_pow10_small(3 - (used as int - fstart as int));
            }
            acc * factor
        },
    };

    let magnitude = match int_part.checked_mul(1000) {
        None => {
            *pos = start;
            return Err(ParseError);
        },
        Some(x) => match x.checked_add(frac) {
            None => {
                *pos = start;
                return Err(ParseError);
            },
            Some(y) => y,
        },
    };

    if negative {
        Ok(-magnitude)
    } else {
        Ok(magnitude)
    }
}

/// The first three powers of ten, by unfolding.
proof fn lemma_pow10_small(n: int)
    requires
        0 <= n <= 3,
    ensures
        spec_pow10(0) == 1 && spec_pow10(1) == 10 && spec_pow10(2) == 100 && spec_pow10(3)
            == 1000,
{
    reveal_with_fuel(spec_pow10, 5);
}

/// A literal whose integer digits already exceed the 32-bit range is
/// rejected by the truncating parser, whatever follows them.
proof fn lemma_trunc_rejects_big(s: Seq<u8>, i: int)
    requires
        0 <= i <= s.len(),
        spec_digits_val(
            s,
            spec_decimal_digits_start(s, i),
            spec_scan_digits(s, spec_decimal_digits_start(s, i)),
        ) > i32::MAX,
    ensures
        spec_parse_decimal_trunc(s, i) is None,
{
    let i1 = spec_decimal_digits_start(s, i);
    lemma_scan_digits_bounds(s, i1);
    let j = spec_scan_digits(s, i1);
    if j < s.len() && s[j] == 46 {
        lemma_scan_digits_bounds(s, j + 1);
        let k = spec_scan_digits(s, j + 1);
        if k != j + 1 {
            let m = if k - (j + 1) > 3 {
                j + 1 + 3
            } else {
                k
            };
            lemma_digits_val_range(s, j + 1, m);
            lemma_pow10_small(3 - (m - (j + 1)));
            assert(spec_digits_val(s, j + 1, m) * spec_pow10(3 - (m - (j + 1))) >= 0)
                by (nonlinear_arith)
                requires
                    spec_digits_val(s, j + 1, m) >= 0,
                    spec_pow10(3 - (m - (j + 1))) >= 1,
            ;
        }
    }
}

/// Parse an optional space-separated axis amount, backtracking to the
/// entry cursor when the separator, letter or literal is absent.
#[verifier::loop_isolation(false)]
fn parse_opt_axis_amount(input: &[u8], pos: &mut usize, letter: u8) -> (r: Option<i32>)
    requires
        *old(pos) <= input@.len(),
    ensures
        *final(pos) <= input@.len(),
        ({
            let out = spec_opt_axis_amount(input@, *old(pos) as int, letter);
            &&& r == out.0
            &&& *final(pos) == out.1
        }),
{
    let ghost s = input@;
    let start = *pos;
    let mut j = *pos;
    while j < input.len() && is_space(input[j])
        invariant
            start <= j <= input@.len(),
            spec_scan_space(s, start as int) == spec_scan_space(s, j as int),
        decreases input@.len() - j,
    {
        j = j + 1;
    }
    if j == start || j >= input.len() {
        return None;
    }
    if input[j] != letter {
        return None;
    }
    *pos = j + 1;
    match parse_decimal_millis(input, pos) {
        Err(_) => {
            *pos = start;
            None
        },
        Ok(v) => Some(v),
    }
}

impl Command {
    /// Parses a whole line of the simplified protocol into a command;
    /// any unconsumed byte rejects the line.
    pub fn parse(input: &[u8]) -> (r: Result<Command, Error>)
        ensures
            r matches Ok(c) ==> spec_parse_line(input@) == Some(c),
            r matches Err(e) ==> spec_parse_line(input@) is None && e == Error::InvalidGCode,
    {
        if input.len() >= 1 && input[0] == 90 {
            return if input.len() == 1 {
                Ok(Command::Zero)
            } else {
                Err(Error::InvalidGCode)
            };
        }
        if input.len() >= 3 && input[0] == 71 && input[1] == 57 && input[2] == 48 {
            return if input.len() == 3 {
                Ok(Command::AbsolutePositioning)
            } else {
                Err(Error::InvalidGCode)
            };
        }
        if input.len() >= 3 && input[0] == 71 && input[1] == 57 && input[2] == 49 {
            return if input.len() == 3 {
                Ok(Command::RelativePositioning)
            } else {
                Err(Error::InvalidGCode)
            };
        }
        if input.len() >= 2 && input[0] == 71 && input[1] == 48 {
            let mut pos: usize = 2;
            let x_amount = parse_opt_axis_amount(input, &mut pos, 88);
            let a_amount = parse_opt_axis_amount(input, &mut pos, 65);
            return if pos == input.len() {
                Ok(Command::Move(Move { x_microns: x_amount, a_millidegrees: a_amount }))
            } else {
                Err(Error::InvalidGCode)
            };
        }
        Err(Error::InvalidGCode)
    }
}

} // verus!
