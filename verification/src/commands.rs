//! Motion commands and the parser that builds them from tokens.

pub mod command;
pub mod command_parser;
