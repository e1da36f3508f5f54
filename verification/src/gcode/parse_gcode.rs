//! Token grammar of the motion protocol: axis amounts (`X-100.02`,
//! `A42.8`), and numbered `G` / `M` commands, separated by whitespace,
//! accumulated into a caller-owned bounded buffer.

use vstd::prelude::*;
use crate::gcode::ParseError;
use crate::gcode::parse_microns::lemma_digits_val_extend;
use crate::gcode::parse_microns::lemma_parse_decimal_bounds;
use crate::gcode::parse_microns::lemma_scan_digits_bounds;
use crate::gcode::parse_microns::lemma_skip_ws_bounds;
use crate::gcode::parse_microns::parse_degrees_as_millidegrees;
use crate::gcode::parse_microns::parse_mm_as_microns;
use crate::gcode::parse_microns::spec_digits_val;
use crate::gcode::parse_microns::spec_is_digit;
use crate::gcode::parse_microns::spec_is_ws;
use crate::gcode::parse_microns::spec_parse_decimal;
use crate::gcode::parse_microns::spec_scan_digits;
use crate::gcode::parse_microns::spec_skip_ws;
use crate::microns::Microns;
use crate::microns::spec_microns;
use crate::millidegrees::MilliDegrees;
use crate::millidegrees::spec_millidegrees;

verus! {

/// GCode atoms.
#[derive(Debug, PartialEq, Eq, Structural, Copy, Clone)]
pub enum GCode {
    /// Linear axis position, like `X42.3`.
    Linear(Linear),
    /// Rotary axis position, like `A180`.
    Rotary(Rotary),
    /// G command, like `G0`.
    G(G),
    /// M command, like `M100`.
    M(M),
}

impl GCode {
    /// Creates a `Gxxx` GCode.
    pub fn g(value: u8) -> (r: GCode)
        ensures
            r == GCode::G(G(value)),
    {
        GCode::G(G(value))
    }

    /// Creates an `Mxxx` GCode.
    pub fn m(value: u8) -> (r: GCode)
        ensures
            r == GCode::M(M(value)),
    {
        GCode::M(M(value))
    }
}

/// Linear axis move amount.
#[derive(Debug, PartialEq, Eq, Structural, Copy, Clone)]
pub struct Linear {
    pub axis: LinAxis,
    pub amount: Microns,
}

/// Rotary axis move amount.
#[derive(Debug, PartialEq, Eq, Structural, Copy, Clone)]
pub struct Rotary {
    pub axis: RotAxis,
    pub amount: MilliDegrees,
}

/// G command.
#[derive(Debug, PartialEq, Eq, Structural, Copy, Clone)]
pub struct G(pub u8);

/// M command.
#[derive(Debug, PartialEq, Eq, Structural, Copy, Clone)]
pub struct M(pub u8);

/// Linear axis.
#[derive(Debug, PartialEq, Eq, Structural, Copy, Clone)]
pub enum LinAxis {
    X,
    Y,
    Z,
}

/// Rotary axis.
#[derive(Debug, PartialEq, Eq, Structural, Copy, Clone)]
pub enum RotAxis {
    A,
    B,
    C,
}

/// The linear axis named by its ASCII letter.
pub open spec fn spec_linaxis(c: u8) -> LinAxis {
    if c == 88 {
        LinAxis::X
    } else if c == 89 {
        LinAxis::Y
    } else {
        LinAxis::Z
    }
}

/// The rotary axis named by its ASCII letter.
pub open spec fn spec_rotaxis(c: u8) -> RotAxis {
    if c == 65 {
        RotAxis::A
    } else if c == 66 {
        RotAxis::B
    } else {
        RotAxis::C
    }
}

/// What parsing a run of digits as an 8-bit command number yields.
pub open spec fn spec_parse_u8(s: Seq<u8>, i: int) -> Option<(int, int)> {
    let j = spec_scan_digits(s, i);
    if j == i {
        None
    } else if spec_digits_val(s, i, j) <= 255 {
        Some((spec_digits_val(s, i, j), j))
    } else {
        None
    }
}

/// What parsing one token at `i` yields: the token and the index just
/// past it. An axis letter is followed by optional whitespace and a
/// decimal amount; `G` or `M` by optional whitespace and a command
/// number up to 255.
pub open spec fn spec_parse_token(s: Seq<u8>, i: int) -> Option<(GCode, int)> {
    if i < 0 || i >= s.len() {
        None
    } else {
        let c = s[i];
        if c == 88 || c == 89 || c == 90 {
            let j = spec_skip_ws(s, i + 1);
            match spec_parse_decimal(s, j) {
                None => None,
                Some(vk) => Some(
                    (
                        GCode::Linear(
                            Linear { axis: spec_linaxis(c), amount: spec_microns(vk.0) },
                        ),
                        vk.1,
                    ),
                ),
            }
        } else if c == 65 || c == 66 || c == 67 {
            let j = spec_skip_ws(s, i + 1);
            match spec_parse_decimal(s, j) {
                None => None,
                Some(vk) => Some(
                    (
                        GCode::Rotary(
                            Rotary { axis: spec_rotaxis(c), amount: spec_millidegrees(vk.0) },
                        ),
                        vk.1,
                    ),
                ),
            }
        } else if c == 71 {
            let j = spec_skip_ws(s, i + 1);
            match spec_parse_u8(s, j) {
                None => None,
                Some(vk) => Some((GCode::G(G(vk.0 as u8)), vk.1)),
            }
        } else if c == 77 {
            let j = spec_skip_ws(s, i + 1);
            match spec_parse_u8(s, j) {
                None => None,
                Some(vk) => Some((GCode::M(M(vk.0 as u8)), vk.1)),
            }
        } else {
            None
        }
    }
}

/// A successfully parsed token consumes at least one byte and stays
/// inside the input.
pub proof fn lemma_parse_token_bounds(s: Seq<u8>, i: int)
    requires
        0 <= i <= s.len(),
    ensures
        spec_parse_token(s, i) matches Some(tk) ==> i < tk.1 <= s.len(),
{
    if i < s.len() {
        lemma_skip_ws_bounds(s, i + 1);
        let j = spec_skip_ws(s, i + 1);
        lemma_parse_decimal_bounds(s, j);
        lemma_scan_digits_bounds(s, j);
    }
}

/// Whether the byte is ASCII whitespace.
fn is_ws(c: u8) -> (r: bool)
    ensures
        r == spec_is_ws(c),
{
    c == 32 || (9 <= c && c <= 13)
}

/// Skip whitespace when parsing.
#[verifier::loop_isolation(false)]
pub fn skip_ws(input: &[u8], pos: &mut usize)
    requires
        *old(pos) <= input@.len(),
    ensures
        *final(pos) == spec_skip_ws(input@, *old(pos) as int),
        *old(pos) <= *final(pos) <= input@.len(),
{
    let ghost s = input@;
    while *pos < input.len() && is_ws(input[*pos])
        invariant
            *old(pos) <= *pos <= input@.len(),
            spec_skip_ws(s, *old(pos) as int) == spec_skip_ws(s, *pos as int),
        decreases input@.len() - *pos,
    {
        *pos = *pos + 1;
    }
}

/// Parse a run of digits as an 8-bit command number; a missing digit or
/// a value over 255 is a parse error that leaves the cursor where it
/// started.
#[verifier::loop_isolation(false)]
fn parse_digits_u8(input: &[u8], pos: &mut usize) -> (r: Result<u8, ParseError>)
    requires
        *old(pos) <= input@.len(),
    ensures
        *final(pos) <= input@.len(),
        r matches Ok(v) ==> (spec_parse_u8(input@, *old(pos) as int) matches Some(vk) && vk.0
            == v as int && *final(pos) == vk.1),
        r is Err ==> spec_parse_u8(input@, *old(pos) as int) is None && *final(pos) == *old(pos),
{
    let ghost s = input@;
    let start = *pos;
    proof {
        lemma_scan_digits_bounds(s, start as int);
    }
    let mut acc: u32 = 0;
    while *pos < input.len() && 48 <= input[*pos] && input[*pos] <= 57
        invariant
            start <= *pos <= input@.len(),
            spec_scan_digits(s, start as int) == spec_scan_digits(s, *pos as int),
            acc as int == spec_digits_val(s, start as int, *pos as int),
            acc <= 255,
        decreases input@.len() - *pos,
    {
        let d: u32 = (input[*pos] - 48) as u32;
        acc = acc * 10 + d;
        *pos = *pos + 1;
        if acc > 255 {
            proof {
                lemma_scan_digits_bounds(s, *pos as int);
                lemma_digits_val_extend(s, start as int, *pos as int, spec_scan_digits(
                    s,
                    *pos as int,
                ));
            }
            *pos = start;
            return Err(ParseError);
        }
    }
    if *pos == start {
        return Err(ParseError);
    }
    Ok(acc as u8)
}

/// Parse a single GCode token at the cursor; a grammar mismatch leaves
/// the cursor where it started.
pub fn parse_gcode(input: &[u8], pos: &mut usize) -> (r: Result<GCode, ParseError>)
    requires
        *old(pos) <= input@.len(),
    ensures
        *final(pos) <= input@.len(),
        r matches Ok(g) ==> (spec_parse_token(input@, *old(pos) as int) matches Some(tk) && tk.0
            == g && tk.1 == *final(pos)),
        r is Err ==> spec_parse_token(input@, *old(pos) as int) is None && *final(pos) == *old(
            pos,
        ),
{
    let start = *pos;
    if *pos >= input.len() {
        return Err(ParseError);
    }
    let c = input[*pos];
    if c == 88 || c == 89 || c == 90 {
        *pos = *pos + 1;
        skip_ws(input, pos);
        match parse_mm_as_microns(input, pos) {
            Err(_) => {
                *pos = start;
                Err(ParseError)
            },
            Ok(amount) => {
                let axis = if c == 88 {
                    LinAxis::X
                } else if c == 89 {
                    LinAxis::Y
                } else {
                    LinAxis::Z
                };
                Ok(GCode::Linear(Linear { axis, amount }))
            },
        }
    } else if c == 65 || c == 66 || c == 67 {
        *pos = *pos + 1;
        skip_ws(input, pos);
        match parse_degrees_as_millidegrees(input, pos) {
            Err(_) => {
                *pos = start;
                Err(ParseError)
            },
            Ok(amount) => {
                let axis = if c == 65 {
                    RotAxis::A
                } else if c == 66 {
                    RotAxis::B
                } else {
                    RotAxis::C
                };
                Ok(GCode::Rotary(Rotary { axis, amount }))
            },
        }
    } else if c == 71 {
        *pos = *pos + 1;
        skip_ws(input, pos);
        match parse_digits_u8(input, pos) {
            Err(_) => {
                *pos = start;
                Err(ParseError)
            },
            Ok(value) => Ok(GCode::G(G(value))),
        }
    } else if c == 77 {
        *pos = *pos + 1;
        skip_ws(input, pos);
        match parse_digits_u8(input, pos) {
            Err(_) => {
                *pos = start;
                Err(ParseError)
            },
            Ok(value) => Ok(GCode::M(M(value))),
        }
    } else {
        Err(ParseError)
    }
}

/// How a tokenizing run over a whole line ended.
#[derive(Debug, PartialEq, Eq, Structural, Copy, Clone)]
pub enum TokenizeStatus {
    /// The whole input was consumed.
    Complete,
    /// The buffer filled up first; the cursor rests at the start of the
    /// next unconsumed token.
    Full,
    /// A token failed to parse; the cursor rests at the failure point.
    Error,
}

/// What tokenizing from `i` with space for `room` more tokens yields:
/// the tokens parsed, the final cursor, and how the run ended.
pub open spec fn spec_tokenize(s: Seq<u8>, i: int, room: nat) -> (Seq<GCode>, int, TokenizeStatus)
    recommends
        0 <= i <= s.len(),
    decreases s.len() - i,
    via spec_tokenize_decreases
{
    if i < 0 || i >= s.len() {
        (seq![], i, TokenizeStatus::Complete)
    } else {
        let j = spec_skip_ws(s, i);
        match spec_parse_token(s, j) {
            None => (seq![], j, TokenizeStatus::Error),
            Some(tk) => {
                if room == 0 {
                    (seq![], i, TokenizeStatus::Full)
                } else {
                    let k2 = spec_skip_ws(s, tk.1);
                    let rest = spec_tokenize(s, k2, (room - 1) as nat);
                    (seq![tk.0] + rest.0, rest.1, rest.2)
                }
            },
        }
    }
}

#[via_fn]
proof fn spec_tokenize_decreases(s: Seq<u8>, i: int, room: nat) {
    if 0 <= i && i < s.len() {
        lemma_skip_ws_bounds(s, i);
        let j = spec_skip_ws(s, i);
        lemma_parse_token_bounds(s, j);
        match spec_parse_token(s, j) {
            Some(tk) => {
                lemma_skip_ws_bounds(s, tk.1);
            },
            None => {},
        }
    }
}

/// A bounded, caller-owned buffer of tokens.
///
/// The buffer never holds more tokens than the capacity it was created
/// with; `push` refuses further tokens once it is full.
pub struct TokenBuffer {
    items: Vec<GCode>,
    capacity: usize,
}

impl View for TokenBuffer {
    type V = Seq<GCode>;

    closed spec fn view(&self) -> Seq<GCode> {
        self.items@
    }
}

impl TokenBuffer {
    /// The fixed capacity the buffer was created with.
    pub closed spec fn spec_capacity(&self) -> int {
        self.capacity as int
    }

    /// The buffer holds no more tokens than its capacity.
    pub open spec fn wf(&self) -> bool {
        self@.len() <= self.spec_capacity()
    }

    /// Creates an empty buffer with the given capacity.
    pub fn new(capacity: usize) -> (r: Self)
        ensures
            r@ == Seq::<GCode>::empty(),
            r.spec_capacity() == capacity,
            r.wf(),
    {
        Self { items: Vec::new(), capacity }
    }

    /// Number of tokens currently held.
    pub fn len(&self) -> (r: usize)
        ensures
            r == self@.len(),
    {
        self.items.len()
    }

    /// The capacity the buffer was created with.
    pub fn capacity(&self) -> (r: usize)
        ensures
            r == self.spec_capacity(),
    {
        self.capacity
    }

    /// Discards all held tokens.
    pub fn clear(&mut self)
        ensures
            final(self)@ == Seq::<GCode>::empty(),
            final(self).spec_capacity() == old(self).spec_capacity(),
            final(self).wf(),
    {
        self.items.clear();
    }

    /// Appends a token if there is room, and says whether there was.
    pub fn push(&mut self, token: GCode) -> (r: bool)
        ensures
            final(self).spec_capacity() == old(self).spec_capacity(),
            r == (old(self)@.len() < old(self).spec_capacity()),
            r ==> final(self)@ == old(self)@.push(token),
            !r ==> final(self)@ == old(self)@,
            old(self).wf() ==> final(self).wf(),
    {
        if self.items.len() < self.capacity {
            self.items.push(token);
            true
        } else {
            false
        }
    }

    /// The token at the given index.
    pub fn get(&self, i: usize) -> (r: GCode)
        requires
            i < self@.len(),
        ensures
            r == self@[i as int],
    {
        self.items[i]
    }

    /// The held tokens, oldest first.
    pub fn items(&self) -> (r: &Vec<GCode>)
        ensures
            r@ == self@,
    {
        &self.items
    }
}

/// Parse multiple GCodes, storing them in a buffer.
///
/// This function tries to parse as many tokens as will fit in the
/// buffer before returning, without emptying the buffer first. It
/// returns `Ok(true)` when the input was consumed completely, and
/// `Ok(false)` when the buffer filled up first, with the input cursor
/// left exactly at the start of the next unconsumed token. On a grammar
/// failure the already-parsed tokens remain in the buffer and the
/// cursor rests at the failure point.
#[verifier::loop_isolation(false)]
pub fn parse_gcodes(input: &[u8], pos: &mut usize, buffer: &mut TokenBuffer) -> (r: Result<
    bool,
    ParseError,
>)
    requires
        *old(pos) <= input@.len(),
        old(buffer).wf(),
    ensures
        final(buffer).wf(),
        final(buffer).spec_capacity() == old(buffer).spec_capacity(),
        *final(pos) <= input@.len(),
        ({
            let out = spec_tokenize(
                input@,
                *old(pos) as int,
                (old(buffer).spec_capacity() - old(buffer)@.len()) as nat,
            );
            &&& final(buffer)@ == old(buffer)@ + out.0
            &&& *final(pos) == out.1
            &&& (out.2 == TokenizeStatus::Complete ==> r == Ok::<bool, ParseError>(true))
            &&& (out.2 == TokenizeStatus::Full ==> r == Ok::<bool, ParseError>(false))
            &&& (out.2 == TokenizeStatus::Error ==> r is Err)
        }),
{
    let ghost s = input@;
    let ghost p0 = *pos as int;
    let ghost room0 = (buffer.spec_capacity() - buffer@.len()) as nat;
    let ghost mut acc: Seq<GCode> = seq![];

    while *pos < input.len()
        invariant
            *pos <= input@.len(),
            buffer.wf(),
            buffer.spec_capacity() == old(buffer).spec_capacity(),
            buffer@ == old(buffer)@ + acc,
            ({
                let out0 = spec_tokenize(s, p0, room0);
                let outn = spec_tokenize(
                    s,
                    *pos as int,
                    (buffer.spec_capacity() - buffer@.len()) as nat,
                );
                out0.0 == acc + outn.0 && out0.1 == outn.1 && out0.2 == outn.2
            }),
        decreases input@.len() - *pos,
    {
        let prev = *pos;
        let ghost acc_old = acc;
        let ghost room_prev = (buffer.spec_capacity() - buffer@.len()) as nat;
        skip_ws(input, pos);
        let token = match parse_gcode(input, pos) {
            Err(_) => {
                return Err(ParseError);
            },
            Ok(t) => t,
        };
        proof {
            lemma_parse_token_bounds(s, spec_skip_ws(s, prev as int));
        }
        if !buffer.push(token) {
            *pos = prev;
            return Ok(false);
        }
        skip_ws(input, pos);
        proof {
            let out_prev = spec_tokenize(s, prev as int, room_prev);
            let out_next = spec_tokenize(s, *pos as int, (room_prev - 1) as nat);
            assert(out_prev.0 =~= seq![token] + out_next.0);
            acc = acc_old + seq![token];
            assert(acc + out_next.0 =~= acc_old + out_prev.0);
            assert(buffer@ =~= old(buffer)@ + acc);
        }
    }
    Ok(true)
}

} // verus!
