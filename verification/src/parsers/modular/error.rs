use crate::grammar::{Flaw, Outcome};
use crate::parsers::error::{
    optional_token, token, ExpectedError, NumericError, ParserError,
};
use crate::version::base::BaseVersion;
use crate::version::full::FullVersion;
use crate::Version;
use vstd::prelude::*;

verus! {

/// A number component that is not accepted.
#[derive(Copy, Clone, Debug, Eq, PartialEq)]
pub enum NumberError {
    /// The component has several digits and starts with `0`.
    LeadingZero,
    /// The component does not fit into 64 bits.
    Overflow,
}

/// Why the staged parser refused an input.
#[derive(Copy, Clone, Debug, Eq, PartialEq)]
pub enum ModularParserError {
    /// The input should have ended, and more bytes follow.
    ExpectedEndOfInput {
        /// The first byte that follows.
        got: u8,
    },
    /// The separator `.` was expected.
    ExpectedSeparator {
        /// The byte found instead; `None` for the end of the input.
        got: Option<u8>,
    },
    /// A digit was expected.
    ExpectedNumericToken {
        /// The byte found instead; `None` for the end of the input.
        got: Option<u8>,
    },
    /// A number was written in a way that is not accepted.
    NumberError(NumberError),
}

impl ModularParserError {
    /// The error that reports `flaw`. Of the bytes that a complete version
    /// leaves over, it keeps the first.
    pub open spec fn report(flaw: Flaw) -> ModularParserError {
        match flaw {
            Flaw::ExpectedNumeric { got } => ModularParserError::ExpectedNumericToken { got },
            Flaw::LeadingZero => ModularParserError::NumberError(NumberError::LeadingZero),
            Flaw::Overflow => ModularParserError::NumberError(NumberError::Overflow),
            Flaw::ExpectedSeparator { got } => ModularParserError::ExpectedSeparator { got },
            Flaw::ExpectedEndOfInput { extra } => ModularParserError::ExpectedEndOfInput {
                got: extra[0],
            },
        }
    }

    /// The same error as every parser can report it. The staged parser keeps
    /// no track of places.
    pub open spec fn common(self) -> ParserError {
        match self {
            ModularParserError::ExpectedEndOfInput { got } => ParserError::Expected(
                ExpectedError::EndOfInput { at: None, got: token(got) },
            ),
            ModularParserError::ExpectedNumericToken { got } => ParserError::Expected(
                ExpectedError::Numeric { at: None, got: optional_token(got) },
            ),
            ModularParserError::ExpectedSeparator { got } => ParserError::Expected(
                ExpectedError::Separator { at: None, got: optional_token(got) },
            ),
            ModularParserError::NumberError(NumberError::LeadingZero) => ParserError::Numeric(
                NumericError::LeadingZero,
            ),
            ModularParserError::NumberError(NumberError::Overflow) => ParserError::Numeric(
                NumericError::Overflow,
            ),
        }
    }

    /// To report a flaw through the staged parser's error is to report it
    /// without a place.
    pub proof fn lemma_common_report(flaw: Flaw)
        ensures
            ModularParserError::report(flaw).common() == ParserError::report(flaw, None),
    {
    }

    /// What the staged parser returns for `outcome`.
    pub open spec fn result_of(outcome: Outcome) -> Result<Version, ModularParserError> {
        match outcome {
            Outcome::Base { major, minor } => Ok(Version::Base(BaseVersion { major, minor })),
            Outcome::Full { major, minor, patch } => Ok(
                Version::Full(FullVersion { major, minor, patch }),
            ),
            Outcome::Rejected { flaw, at } => Err(ModularParserError::report(flaw)),
        }
    }
}

impl From<NumberError> for ModularParserError {
    fn from(error: NumberError) -> (reason: Self) {
        ModularParserError::NumberError(error)
    }
}

impl vstd::std_specs::convert::FromSpecImpl<NumberError> for ModularParserError {
    open spec fn obeys_from_spec() -> bool {
        true
    }

    open spec fn from_spec(error: NumberError) -> Self {
        ModularParserError::NumberError(error)
    }
}

impl From<ModularParserError> for ParserError {
    fn from(value: ModularParserError) -> (error: Self) {
        match value {
            ModularParserError::ExpectedEndOfInput { got } => {
                ParserError::Expected(ExpectedError::EndOfInput { at: None, got: got as char })
            },
            ModularParserError::ExpectedNumericToken { got } => {
                ParserError::Expected(
                    ExpectedError::Numeric {
                        at: None,
                        got: match got {
                            Some(byte) => Some(byte as char),
                            None => None,
                        },
                    },
                )
            },
            ModularParserError::ExpectedSeparator { got } => {
                ParserError::Expected(
                    ExpectedError::Separator {
                        at: None,
                        got: match got {
                            Some(byte) => Some(byte as char),
                            None => None,
                        },
                    },
                )
            },
            ModularParserError::NumberError(e) => match e {
                NumberError::LeadingZero => ParserError::Numeric(NumericError::LeadingZero),
                NumberError::Overflow => ParserError::Numeric(NumericError::Overflow),
            },
        }
    }
}

impl vstd::std_specs::convert::FromSpecImpl<ModularParserError> for ParserError {
    open spec fn obeys_from_spec() -> bool {
        true
    }

    open spec fn from_spec(value: ModularParserError) -> Self {
        value.common()
    }
}

} // verus!
