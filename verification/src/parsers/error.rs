//! The error type that every parser of this crate can report through.
//!
//! Each parser has a more detailed error of its own; the traits
//! [`VersionParser`](crate::parsers::VersionParser),
//! [`BaseVersionParser`](crate::parsers::BaseVersionParser) and
//! [`FullVersionParser`](crate::parsers::FullVersionParser) return this one.

use crate::grammar::Flaw;
use vstd::prelude::*;

verus! {

/// Why an input was refused.
#[derive(Clone, Debug, Eq, PartialEq)]
pub enum ParserError {
    /// Some kind of byte, or the end of the input, was expected next.
    Expected(ExpectedError),
    /// A number was written in a way that is not accepted.
    Numeric(NumericError),
}

/// A byte of some kind was expected, and something else was found.
#[derive(Clone, Debug, Eq, PartialEq)]
pub enum ExpectedError {
    /// The separator `.` was expected.
    Separator {
        /// Where the separator was expected, if the parser keeps track.
        at: Option<usize>,
        /// What was found instead; `None` for the end of the input.
        got: Option<char>,
    },
    /// The end of the input was expected, and more bytes follow.
    EndOfInput {
        /// Where the input should have ended, if the parser keeps track.
        at: Option<usize>,
        /// The first byte that follows.
        got: char,
    },
    /// A digit was expected.
    Numeric {
        /// Where the digit was expected, if the parser keeps track.
        at: Option<usize>,
        /// What was found instead; `None` for the end of the input.
        got: Option<char>,
    },
}

/// A number component that is not accepted.
#[derive(Clone, Debug, Eq, PartialEq)]
pub enum NumericError {
    /// The component has several digits and starts with `0`.
    LeadingZero,
    /// The component does not fit into 64 bits.
    Overflow,
}

/// The character that stands for `byte` in a diagnostic.
pub open spec fn token(byte: u8) -> char {
    byte as char
}

/// The characters that stand for an optional byte.
pub open spec fn optional_token(byte: Option<u8>) -> Option<char> {
    match byte {
        Some(byte) => Some(token(byte)),
        None => None,
    }
}

impl ParserError {
    /// The error that reports `flaw`, found at `at` if the parser keeps track.
    pub open spec fn report(flaw: Flaw, at: Option<usize>) -> ParserError {
        match flaw {
            Flaw::ExpectedNumeric { got } => ParserError::Expected(
                ExpectedError::Numeric { at, got: optional_token(got) },
            ),
            Flaw::LeadingZero => ParserError::Numeric(NumericError::LeadingZero),
            Flaw::Overflow => ParserError::Numeric(NumericError::Overflow),
            Flaw::ExpectedSeparator { got } => ParserError::Expected(
                ExpectedError::Separator { at, got: optional_token(got) },
            ),
            Flaw::ExpectedEndOfInput { extra } => ParserError::Expected(
                ExpectedError::EndOfInput { at, got: token(extra[0]) },
            ),
        }
    }

    /// The same error without the place where it was found.
    pub open spec fn without_place(self) -> ParserError {
        match self {
            ParserError::Expected(ExpectedError::Separator { at, got }) => ParserError::Expected(
                ExpectedError::Separator { at: None, got },
            ),
            ParserError::Expected(ExpectedError::EndOfInput { at, got }) => ParserError::Expected(
                ExpectedError::EndOfInput { at: None, got },
            ),
            ParserError::Expected(ExpectedError::Numeric { at, got }) => ParserError::Expected(
                ExpectedError::Numeric { at: None, got },
            ),
            ParserError::Numeric(error) => ParserError::Numeric(error),
        }
    }
}

} // verus!
