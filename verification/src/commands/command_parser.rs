//! Parsing a tokenized line into exactly one command, all-or-nothing.

use vstd::prelude::*;
use crate::commands::command::Command;
use crate::commands::command::Move;
use crate::gcode::GCode;
use crate::gcode::G;
use crate::gcode::LinAxis;
use crate::gcode::RotAxis;
use crate::gcode::TokenBuffer;
use crate::gcode::TokenizeStatus;
use crate::gcode::parse_gcodes;
use crate::gcode::spec_tokenize;
use crate::microns::Microns;
use crate::microns::spec_microns;
use crate::millidegrees::MilliDegrees;
use crate::millidegrees::spec_millidegrees;

verus! {

/// Possible errors that might occur during parsing.
#[derive(Debug, PartialEq, Eq, Structural, Copy, Clone)]
pub enum Error {
    /// The token buffer overflowed before the line was fully tokenized.
    BufferOverflow,
    /// Tokenizing failed, or the tokens match no command.
    ParseError,
}

/// What the amount tokens after a `G0` resolve to: each axis may appear
/// at most once, in any order; anything else is no move at all.
pub open spec fn spec_parse_move_tokens(
    tokens: Seq<GCode>,
    i: int,
    x: Microns,
    a: MilliDegrees,
    seen_x: bool,
    seen_a: bool,
) -> Option<Command>
    recommends
        0 <= i <= tokens.len(),
    decreases tokens.len() - i,
{
    if i >= tokens.len() {
        Some(Command::Move(Move { x_amount: x, a_amount: a }))
    } else {
        match tokens[i] {
            GCode::Linear(l) => if l.axis == LinAxis::X && !seen_x {
                spec_parse_move_tokens(tokens, i + 1, l.amount, a, true, seen_a)
            } else {
                None
            },
            GCode::Rotary(rt) => if rt.axis == RotAxis::A && !seen_a {
                spec_parse_move_tokens(tokens, i + 1, x, rt.amount, seen_x, true)
            } else {
                None
            },
            _ => None,
        }
    }
}

/// What a fully tokenized line means: `G28` homes, `G90`/`G91` set the
/// positioning mode, and `G0` with at most one `X` and one `A` amount
/// moves; any other token sequence, repeated axis, or trailing token is
/// no command.
pub open spec fn spec_parse_command(tokens: Seq<GCode>) -> Option<Command> {
    if tokens.len() == 0 {
        None
    } else {
        match tokens[0] {
            GCode::G(g) => if g == G(0u8) {
                spec_parse_move_tokens(
                    tokens,
                    1,
                    spec_microns(0),
                    spec_millidegrees(0),
                    false,
                    false,
                )
            } else if g == G(28u8) && tokens.len() == 1 {
                Some(Command::Home)
            } else if g == G(90u8) && tokens.len() == 1 {
                Some(Command::AbsolutePositioning)
            } else if g == G(91u8) && tokens.len() == 1 {
                Some(Command::RelativePositioning)
            } else {
                None
            },
            _ => None,
        }
    }
}

/// A token the move grammar can never accept: a linear amount off the X
/// axis, a rotary amount off the A axis, or any further command code.
pub open spec fn spec_bad_move_token(t: GCode) -> bool {
    match t {
        GCode::Linear(l) => l.axis != LinAxis::X,
        GCode::Rotary(rt) => rt.axis != RotAxis::A,
        _ => true,
    }
}

/// A linear amount on the X axis.
pub open spec fn spec_is_x_amount(t: GCode) -> bool {
    t matches GCode::Linear(l) && l.axis == LinAxis::X
}

/// A rotary amount on the A axis.
pub open spec fn spec_is_a_amount(t: GCode) -> bool {
    t matches GCode::Rotary(rt) && rt.axis == RotAxis::A
}

/// The move grammar rejects any suffix holding an unacceptable token, an
/// axis already seen, or the same axis twice.
proof fn lemma_move_tokens_reject(
    tokens: Seq<GCode>,
    i: int,
    x: Microns,
    a: MilliDegrees,
    seen_x: bool,
    seen_a: bool,
)
    requires
        0 <= i <= tokens.len(),
    ensures
        (exists|k: int|
            i <= k < tokens.len() && spec_bad_move_token(#[trigger] tokens[k]))
            ==> spec_parse_move_tokens(tokens, i, x, a, seen_x, seen_a) is None,
        (seen_x && exists|k: int|
            i <= k < tokens.len() && spec_is_x_amount(#[trigger] tokens[k]))
            ==> spec_parse_move_tokens(tokens, i, x, a, seen_x, seen_a) is None,
        (seen_a && exists|k: int|
            i <= k < tokens.len() && spec_is_a_amount(#[trigger] tokens[k]))
            ==> spec_parse_move_tokens(tokens, i, x, a, seen_x, seen_a) is None,
        (exists|k1: int, k2: int|
            i <= k1 < k2 < tokens.len() && spec_is_x_amount(#[trigger] tokens[k1])
                && spec_is_x_amount(#[trigger] tokens[k2])) ==> spec_parse_move_tokens(
            tokens,
            i,
            x,
            a,
            seen_x,
            seen_a,
        ) is None,
        (exists|k1: int, k2: int|
            i <= k1 < k2 < tokens.len() && spec_is_a_amount(#[trigger] tokens[k1])
                && spec_is_a_amount(#[trigger] tokens[k2])) ==> spec_parse_move_tokens(
            tokens,
            i,
            x,
            a,
            seen_x,
            seen_a,
        ) is None,
    decreases tokens.len() - i,
{
    if i < tokens.len() {
        match tokens[i] {
            GCode::Linear(l) => {
                if l.axis == LinAxis::X && !seen_x {
                    lemma_move_tokens_reject(tokens, i + 1, l.amount, a, true, seen_a);
                }
            },
            GCode::Rotary(rt) => {
                if rt.axis == RotAxis::A && !seen_a {
                    lemma_move_tokens_reject(tokens, i + 1, x, rt.amount, seen_x, true);
                }
            },
            _ => {},
        }
    }
}

/// The rejection half of the command grammar, stated for every token
/// sequence: an empty line, a leading token that is not a `G` code, a
/// `G` code outside the recognized set, trailing tokens after a simple
/// command, and -- within a move -- any unrecognized axis amount, any
/// further command code, or a repeated axis all yield no command.
pub proof fn lemma_parse_command_rejections(tokens: Seq<GCode>)
    ensures
        tokens.len() == 0 ==> spec_parse_command(tokens) is None,
        (tokens.len() >= 1 && !(tokens[0] matches GCode::G(_))) ==> spec_parse_command(
            tokens,
        ) is None,
        (tokens.len() >= 1 && (tokens[0] matches GCode::G(g) && g != G(0u8) && g != G(28u8) && g
            != G(90u8) && g != G(91u8))) ==> spec_parse_command(tokens) is None,
        (tokens.len() >= 2 && (tokens[0] == GCode::G(G(28u8)) || tokens[0] == GCode::G(G(90u8))
            || tokens[0] == GCode::G(G(91u8)))) ==> spec_parse_command(tokens) is None,
        (tokens.len() >= 1 && tokens[0] == GCode::G(G(0u8)) && (exists|k: int|
            1 <= k < tokens.len() && spec_bad_move_token(#[trigger] tokens[k])))
            ==> spec_parse_command(tokens) is None,
        (tokens.len() >= 1 && tokens[0] == GCode::G(G(0u8)) && (exists|k1: int, k2: int|
            1 <= k1 < k2 < tokens.len() && spec_is_x_amount(#[trigger] tokens[k1])
                && spec_is_x_amount(#[trigger] tokens[k2]))) ==> spec_parse_command(
            tokens,
        ) is None,
        (tokens.len() >= 1 && tokens[0] == GCode::G(G(0u8)) && (exists|k1: int, k2: int|
            1 <= k1 < k2 < tokens.len() && spec_is_a_amount(#[trigger] tokens[k1])
                && spec_is_a_amount(#[trigger] tokens[k2]))) ==> spec_parse_command(
            tokens,
        ) is None,
{
    if tokens.len() >= 1 && tokens[0] == GCode::G(G(0u8)) {
        lemma_move_tokens_reject(tokens, 1, spec_microns(0), spec_millidegrees(0), false, false);
    }
}

/// Command parser.
///
/// This is a struct because it owns the bounded buffer used to hold the
/// tokens of the line being parsed.
pub struct CommandParser {
    buffer: TokenBuffer,
}

impl CommandParser {
    /// How many tokens the owned buffer can hold.
    pub closed spec fn spec_capacity(&self) -> int {
        self.buffer.spec_capacity()
    }

    /// The owned buffer respects its capacity.
    pub open spec fn wf(&self) -> bool {
        self.spec_capacity() >= 0
    }

    /// Creates a new command parser whose token buffer holds up to
    /// `n_gcodes` tokens.
    pub fn new(n_gcodes: usize) -> (r: Self)
        ensures
            r.spec_capacity() == n_gcodes,
            r.buffer_wf(),
    {
        Self { buffer: TokenBuffer::new(n_gcodes) }
    }

    /// The owned buffer holds no more tokens than its capacity.
    pub closed spec fn buffer_wf(&self) -> bool {
        self.buffer.wf()
    }

    /// Parses one line into exactly one command.
    ///
    /// The line is tokenized into the owned buffer (emptied first); a
    /// grammar failure or a token sequence matching no command is a
    /// `ParseError`, and a line with more tokens than the buffer holds
    /// is a `BufferOverflow`. Either way the line is rejected whole.
    pub fn parse(&mut self, input: &[u8]) -> (r: Result<Command, Error>)
        ensures
            final(self).spec_capacity() == old(self).spec_capacity(),
            final(self).buffer_wf(),
            ({
                let out = spec_tokenize(input@, 0, old(self).spec_capacity() as nat);
                &&& (out.2 == TokenizeStatus::Error ==> (r matches Err(e) && e
                    == Error::ParseError))
                &&& (out.2 == TokenizeStatus::Full ==> (r matches Err(e) && e
                    == Error::BufferOverflow))
                &&& (out.2 == TokenizeStatus::Complete ==> match spec_parse_command(out.0) {
                    Some(c) => r == Ok::<Command, Error>(c),
                    None => r matches Err(e) && e == Error::ParseError,
                })
            }),
    {
        self.buffer.clear();
        let mut pos: usize = 0;
        match parse_gcodes(input, &mut pos, &mut self.buffer) {
            Err(_) => Err(Error::ParseError),
            Ok(false) => Err(Error::BufferOverflow),
            Ok(true) => self.parse_tokens(),
        }
    }

    /// Maps the tokens now in the buffer to a command, all-or-nothing.
    fn parse_tokens(&self) -> (r: Result<Command, Error>)
        ensures
            match spec_parse_command(self.buffer@) {
                Some(c) => r == Ok::<Command, Error>(c),
                None => r matches Err(e) && e == Error::ParseError,
            },
    {
        let n = self.buffer.len();
        if n == 0 {
            return Err(Error::ParseError);
        }
        let code = match self.buffer.get(0) {
            GCode::G(g) => g,
            _ => {
                return Err(Error::ParseError);
            },
        };
        if code == G(0) {
            self.parse_move_tokens()
        } else if code == G(28) && n == 1 {
            Ok(Command::Home)
        } else if code == G(90) && n == 1 {
            Ok(Command::AbsolutePositioning)
        } else if code == G(91) && n == 1 {
            Ok(Command::RelativePositioning)
        } else {
            Err(Error::ParseError)
        }
    }

    /// Walks the amount tokens after a `G0`, accepting each axis at most
    /// once.
    #[verifier::loop_isolation(false)]
    fn parse_move_tokens(&self) -> (r: Result<Command, Error>)
        requires
            self.buffer@.len() >= 1,
        ensures
            match spec_parse_move_tokens(
                self.buffer@,
                1,
                spec_microns(0),
                spec_millidegrees(0),
                false,
                false,
            ) {
                Some(c) => r == Ok::<Command, Error>(c),
                None => r matches Err(e) && e == Error::ParseError,
            },
    {
        let n = self.buffer.len();
        let mut x = Microns::new(0);
        let mut a = MilliDegrees::new(0);
        let mut seen_x = false;
        let mut seen_a = false;
        let mut i: usize = 1;
        while i < n
            invariant
                1 <= i <= n,
                spec_parse_move_tokens(
                    self.buffer@,
                    1,
                    spec_microns(0),
                    spec_millidegrees(0),
                    false,
                    false,
                ) == spec_parse_move_tokens(self.buffer@, i as int, x, a, seen_x, seen_a),
            decreases n - i,
        {
            match self.buffer.get(i) {
                GCode::Linear(l) => {
                    if !(l.axis == LinAxis::X) || seen_x {
                        return Err(Error::ParseError);
                    }
                    x = l.amount;
                    seen_x = true;
                },
                GCode::Rotary(rt) => {
                    if !(rt.axis == RotAxis::A) || seen_a {
                        return Err(Error::ParseError);
                    }
                    a = rt.amount;
                    seen_a = true;
                },
                _ => {
                    return Err(Error::ParseError);
                },
            }
            i = i + 1;
        }
        Ok(Command::Move(Move { x_amount: x, a_amount: a }))
    }
}

} // verus!
