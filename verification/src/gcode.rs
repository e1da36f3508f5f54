//! Tokenizer for the line-oriented motion protocol: raw ASCII text in,
//! typed motion tokens out.

use vstd::prelude::*;

mod parse_gcode;
mod parse_microns;

pub use parse_gcode::GCode;
pub use parse_gcode::G;
pub use parse_gcode::LinAxis;
pub use parse_gcode::Linear;
pub use parse_gcode::M;
pub use parse_gcode::RotAxis;
pub use parse_gcode::Rotary;
pub use parse_gcode::TokenBuffer;
pub use parse_gcode::TokenizeStatus;
pub use parse_gcode::parse_gcode;
pub use parse_gcode::parse_gcodes;
pub use parse_gcode::skip_ws;
pub use parse_gcode::spec_linaxis;
pub use parse_gcode::spec_parse_token;
pub use parse_gcode::spec_parse_u8;
pub use parse_gcode::spec_rotaxis;
pub use parse_gcode::spec_tokenize;
pub use parse_microns::Sign;
pub use parse_microns::display_millis;
pub use parse_microns::lemma_display_millis_round_trip;
pub use parse_microns::spec_dec_digits;
pub use parse_microns::spec_frac3;
pub use parse_microns::parse_degrees_as_millidegrees;
pub use parse_microns::parse_digits_i32;
pub use parse_microns::parse_fractional_digits;
pub use parse_microns::parse_mm_as_microns;
pub use parse_microns::parse_period;
pub use parse_microns::parse_sign;
pub use parse_microns::spec_digits_val;
pub use parse_microns::lemma_parse_decimal_bounds;
pub use parse_microns::lemma_scan_digits_bounds;
pub use parse_microns::lemma_skip_ws_bounds;
pub use parse_microns::lemma_digits_val_extend;
pub use parse_microns::lemma_digits_val_range;
pub use parse_microns::spec_decimal_digits_start;
pub use parse_microns::spec_is_digit;
pub use parse_microns::spec_is_ws;
pub use parse_microns::spec_parse_decimal;
pub use parse_microns::spec_pow10;
pub use parse_microns::spec_scan_digits;
pub use parse_microns::spec_skip_ws;

verus! {

/// A grammar mismatch while tokenizing or parsing.
#[derive(Debug, PartialEq, Eq, Structural, Clone, Copy)]
pub struct ParseError;

} // verus!
