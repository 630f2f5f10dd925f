use crate::grammar::{Flaw, Outcome};
use crate::parsers::modular::{ModularParserError, NumberError};
use crate::version::base::BaseVersion;
use crate::version::full::FullVersion;
use crate::Version;
use vstd::prelude::*;

verus! {

/// Why an input was refused, as a plain code.
#[derive(Copy, Clone, Debug, Eq, PartialEq)]
pub enum ParseError {
    /// A component was expected, and the next byte, if any, is no digit.
    NoInputForComponent,
    /// A component does not fit into 64 bits.
    Overflow,
    /// The separator `.` was expected, and the next byte, if any, is another.
    ExpectedSeparator,
    /// The input should have ended, and more bytes follow.
    ExpectedEOI,
    /// A component has several digits and starts with `0`.
    LeadingZeroNotAllowed,
}

impl ParseError {
    /// The code that reports `flaw`.
    pub open spec fn report(flaw: Flaw) -> ParseError {
        match flaw {
            Flaw::ExpectedNumeric { got } => ParseError::NoInputForComponent,
            Flaw::LeadingZero => ParseError::LeadingZeroNotAllowed,
            Flaw::Overflow => ParseError::Overflow,
            Flaw::ExpectedSeparator { got } => ParseError::ExpectedSeparator,
            Flaw::ExpectedEndOfInput { extra } => ParseError::ExpectedEOI,
        }
    }

    /// The code for an error of the staged parser.
    pub open spec fn code(error: ModularParserError) -> ParseError {
        match error {
            ModularParserError::ExpectedNumericToken { got } => ParseError::NoInputForComponent,
            ModularParserError::NumberError(NumberError::LeadingZero) =>
                ParseError::LeadingZeroNotAllowed,
            ModularParserError::NumberError(NumberError::Overflow) => ParseError::Overflow,
            ModularParserError::ExpectedSeparator { got } => ParseError::ExpectedSeparator,
            ModularParserError::ExpectedEndOfInput { got } => ParseError::ExpectedEOI,
        }
    }

    /// What a parser with plain codes returns for `outcome`.
    pub open spec fn result_of(outcome: Outcome) -> Result<Version, ParseError> {
        match outcome {
            Outcome::Base { major, minor } => Ok(Version::Base(BaseVersion { major, minor })),
            Outcome::Full { major, minor, patch } => Ok(
                Version::Full(FullVersion { major, minor, patch }),
            ),
            Outcome::Rejected { flaw, at } => Err(ParseError::report(flaw)),
        }
    }
}

impl From<ModularParserError> for ParseError {
    fn from(error: ModularParserError) -> (code: Self) {
        match error {
            ModularParserError::ExpectedNumericToken { .. } => ParseError::NoInputForComponent,
            ModularParserError::NumberError(NumberError::LeadingZero) => {
                ParseError::LeadingZeroNotAllowed
            },
            ModularParserError::NumberError(NumberError::Overflow) => ParseError::Overflow,
            ModularParserError::ExpectedSeparator { .. } => ParseError::ExpectedSeparator,
            ModularParserError::ExpectedEndOfInput { .. } => ParseError::ExpectedEOI,
        }
    }
}

impl vstd::std_specs::convert::FromSpecImpl<ModularParserError> for ParseError {
    open spec fn obeys_from_spec() -> bool {
        true
    }

    open spec fn from_spec(error: ModularParserError) -> Self {
        ParseError::code(error)
    }
}

} // verus!
