//! The ways in which formatting fails.

use vstd::prelude::*;

verus! {

/// Where and why a source text is refused.
#[derive(Clone, Copy, Debug, PartialEq, Eq, Structural)]
pub enum ParseError {
    /// The text ends where more must follow.
    UnexpectedEnd,
    /// The token that starts at this offset, counted in characters, cannot
    /// stand there.
    UnexpectedToken(usize),
}

/// Why a source text was not formatted.
#[derive(Clone, Copy, Debug, PartialEq, Eq, Structural)]
pub enum FormatterError {
    /// The text is not a program that the formatter knows.
    ParseFileError(ParseError),
    /// The formatted text could not be written.
    FormatError,
}

} // verus!
