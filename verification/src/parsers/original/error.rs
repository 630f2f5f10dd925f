use crate::diagnostic::{
    found, push_repeated, reason_text, squiggle_text, underline, Diagnostic, LEAD,
};
use crate::grammar::Flaw;
use crate::parsers::error::{ExpectedError, NumericError, ParserError};
use crate::parsers::original::parser::Parser;
use crate::text::lossy_text;
use vstd::prelude::*;
use vstd::string::{StringExecFns, StringSliceAdditionalSpecFns};
use vstd::utf8::encode_utf8;

verus! {

/// A number component that is not accepted.
#[derive(Copy, Clone, Debug, Eq, PartialEq)]
pub enum NumberError {
    /// The component has several digits and starts with `0`.
    LeadingZero,
    /// The component does not fit into 64 bits.
    Overflow,
}

/// Why an input is not a version number.
#[derive(Debug, Eq, PartialEq)]
pub enum ErrorReason {
    /// The input should have ended, and `extra_input` follows.
    ExpectedEndOfInput {
        /// The bytes that were left.
        extra_input: Vec<u8>,
    },
    /// The separator `.` was expected.
    ExpectedSeparator {
        /// The byte found instead; `None` for the end of the input.
        got: Option<u8>,
    },
    /// A digit was expected.
    ExpectedNumericToken {
        /// The byte found instead; `None` for the end of the input.
        got: Option<u8>,
    },
    /// A number was written in a way that is not accepted.
    NumberError(NumberError),
}

impl View for NumberError {
    type V = Flaw;

    open spec fn view(&self) -> Flaw {
        match self {
            NumberError::LeadingZero => Flaw::LeadingZero,
            NumberError::Overflow => Flaw::Overflow,
        }
    }
}

impl View for ErrorReason {
    type V = Flaw;

    open spec fn view(&self) -> Flaw {
        match self {
            ErrorReason::ExpectedEndOfInput { extra_input } => Flaw::ExpectedEndOfInput {
                extra: extra_input@,
            },
            ErrorReason::ExpectedSeparator { got } => Flaw::ExpectedSeparator { got: *got },
            ErrorReason::ExpectedNumericToken { got } => Flaw::ExpectedNumeric { got: *got },
            ErrorReason::NumberError(error) => error@,
        }
    }
}

impl NumberError {
    /// What a message says of the error.
    pub fn to_string(&self) -> (text: String)
        ensures
            text@ == reason_text(self@),
    {
        match self {
            NumberError::LeadingZero => String::from_str(
                "Number may not start with a leading zero, unless the complete component is '0'",
            ),
            NumberError::Overflow => String::from_str(
                "Overflow: Found number component which would be larger than the maximum supported number (max=18446744073709551615)",
            ),
        }
    }
}

impl ErrorReason {
    /// What a message says of the reason. Bytes left over are shown as text,
    /// a byte found as a character, and the end of the input as `EOI`.
    pub fn to_string(&self) -> (text: String)
        ensures
            text@ == reason_text(self@),
    {
        match self {
            ErrorReason::ExpectedEndOfInput { extra_input } => {
                let mut text = String::from_str(
                    "Expected end of input after parsing third version number component, but got: '",
                );
                let extra = lossy_text(extra_input.as_slice());
                text.append(extra.as_str());
                text.append("'");
                text
            },
            ErrorReason::ExpectedSeparator { got } => {
                let mut text = String::from_str("Expected the dot-separator '.', but got '");
                let got = found(*got);
                text.append(got.as_str());
                text.append("'");
                text
            },
            ErrorReason::ExpectedNumericToken { got } => {
                let mut text = String::from_str("Expected 0-9, but got '");
                let got = found(*got);
                text.append(got.as_str());
                text.append("'");
                text
            },
            ErrorReason::NumberError(error) => error.to_string(),
        }
    }
}

impl Clone for ErrorReason {
    fn clone(&self) -> (copy: Self)
        ensures
            copy@ == self@,
    {
        match self {
            ErrorReason::ExpectedEndOfInput { extra_input } => {
                let copy = ErrorReason::ExpectedEndOfInput { extra_input: extra_input.clone() };
                assert(copy@->extra =~= extra_input@);
                copy
            },
            ErrorReason::ExpectedSeparator { got } => ErrorReason::ExpectedSeparator { got: *got },
            ErrorReason::ExpectedNumericToken { got } => ErrorReason::ExpectedNumericToken {
                got: *got,
            },
            ErrorReason::NumberError(error) => ErrorReason::NumberError(*error),
        }
    }
}

impl From<NumberError> for ErrorReason {
    fn from(error: NumberError) -> (reason: Self) {
        ErrorReason::NumberError(error)
    }
}

impl vstd::std_specs::convert::FromSpecImpl<NumberError> for ErrorReason {
    open spec fn obeys_from_spec() -> bool {
        true
    }

    open spec fn from_spec(error: NumberError) -> Self {
        ErrorReason::NumberError(error)
    }
}

/// The diagnostic of the one-pass parser: the input as text, the offset of the
/// failure where there is one, and the reason.
#[derive(Debug)]
pub struct OriginalParserError {
    input: String,
    cursor: Option<usize>,
    reason: ErrorReason,
}

impl View for OriginalParserError {
    type V = Diagnostic;

    closed spec fn view(&self) -> Diagnostic {
        Diagnostic { raw_input: self.input@, cursor: self.cursor, flaw: self.reason@ }
    }
}

impl Clone for OriginalParserError {
    fn clone(&self) -> (copy: Self)
        ensures
            copy@ == self@,
    {
        proof {
            use_type_invariant(self);
        }
        Self { input: self.input.clone(), cursor: self.cursor, reason: self.reason.clone() }
    }
}

impl OriginalParserError {
    /// Whatever input is left over, it is at least one byte.
    #[verifier::type_invariant]
    spec fn names_what_is_left(self) -> bool {
        self.reason matches ErrorReason::ExpectedEndOfInput { extra_input } ==> extra_input@.len()
            > 0
    }

    /// Why the input could not be parsed.
    pub fn reason(&self) -> (reason: &ErrorReason)
        ensures
            reason@ == self@.flaw,
    {
        &self.reason
    }

    /// The input, as text.
    pub fn input(&self) -> (input: &str)
        ensures
            input@ == self@.raw_input,
    {
        self.input.as_str()
    }

    /// The byte offset at which parsing failed, where the failure has one.
    pub fn cursor(&self) -> (cursor: Option<usize>)
        ensures
            cursor == self@.cursor,
    {
        self.cursor
    }

    /// The whole message: `Unable to parse '<input>' to a version number:
    /// <reason>`, and under it the mark of [`OriginalParserError::squiggle`]
    /// where the diagnostic has a place within the input.
    pub fn to_string(&self) -> (text: String)
        ensures
            text@ == self@.message(),
    {
        let mut text = String::from_str("Unable to parse '");
        text.append(self.input.as_str());
        text.append("' to a version number: ");
        let reason = self.reason.to_string();
        text.append(reason.as_str());
        let mark = self.fmt();
        text.append(mark.as_str());
        text
    }

    /// The mark for the message, or nothing where there is none.
    pub fn fmt(&self) -> (mark: String)
        ensures
            mark@ == self@.mark(),
    {
        if let Some(cursor) = self.cursor {
            match Self::squiggle(self.input.as_str(), cursor) {
                Some(mark) => mark,
                None => String::new(),
            }
        } else {
            String::new()
        }
    }

    /// The mark that points at byte `cursor` of `input` in a message: a line
    /// break, blanks up to the place, a caret under it, tildes under the rest
    /// of the input, and a line break. There is none where `cursor` is not
    /// within `input`. The mark is aligned for an input of one line.
    pub fn squiggle(input: &str, cursor: usize) -> (mark: Option<String>)
        ensures
            match squiggle_text(input.spec_bytes().len(), cursor as nat) {
                Some(text) => mark matches Some(mark) && mark@ == text,
                None => mark is None,
            },
    {
        let under = match underline(input, cursor) {
            Some(under) => under,
            None => return None,
        };
        let mut mark = String::new();
        mark.push('\n');
        push_repeated(&mut mark, ' ', LEAD);
        mark.append(under.as_str());
        mark.push('\n');
        proof {
            assert(mark@ =~= squiggle_text(input.spec_bytes().len(), cursor as nat).unwrap());
        }
        Some(mark)
    }

    /// A diagnostic without a place.
    pub(crate) fn from_parser(parser: &Parser<'_>, reason: ErrorReason) -> (error: Self)
        requires
            reason@ matches Flaw::ExpectedEndOfInput { extra } ==> extra.len() > 0,
        ensures
            error@ == (Diagnostic {
                raw_input: crate::text::utf8_lossy(parser@),
                cursor: None,
                flaw: reason@,
            }),
            vstd::utf8::valid_utf8(parser@) ==> error@.raw_input == vstd::utf8::decode_utf8(
                parser@,
            ),
    {
        Self { input: lossy_text(parser.bytes()), cursor: None, reason }
    }

    /// A diagnostic for a failure at `cursor`.
    pub(crate) fn from_parser_with_cursor(
        parser: &Parser<'_>,
        cursor: usize,
        reason: ErrorReason,
    ) -> (error: Self)
        requires
            reason@ matches Flaw::ExpectedEndOfInput { extra } ==> extra.len() > 0,
        ensures
            error@ == (Diagnostic {
                raw_input: crate::text::utf8_lossy(parser@),
                cursor: Some(cursor),
                flaw: reason@,
            }),
            vstd::utf8::valid_utf8(parser@) ==> error@.raw_input == vstd::utf8::decode_utf8(
                parser@,
            ),
    {
        Self { input: lossy_text(parser.bytes()), cursor: Some(cursor), reason }
    }
}

impl From<OriginalParserError> for ParserError {
    fn from(value: OriginalParserError) -> (error: Self) {
        proof {
            use_type_invariant(&value);
        }
        match value.reason {
            ErrorReason::NumberError(e) => match e {
                NumberError::LeadingZero => ParserError::Numeric(NumericError::LeadingZero),
                NumberError::Overflow => ParserError::Numeric(NumericError::Overflow),
            },
            ErrorReason::ExpectedEndOfInput { extra_input } => {
                ParserError::Expected(
                    ExpectedError::EndOfInput { at: value.cursor, got: extra_input[0] as char },
                )
            },
            ErrorReason::ExpectedSeparator { got } => {
                ParserError::Expected(
                    ExpectedError::Separator {
                        at: value.cursor,
                        got: match got {
                            Some(byte) => Some(byte as char),
                            None => None,
                        },
                    },
                )
            },
            ErrorReason::ExpectedNumericToken { got } => {
                ParserError::Expected(
                    ExpectedError::Numeric {
                        at: value.cursor,
                        got: match got {
                            Some(byte) => Some(byte as char),
                            None => None,
                        },
                    },
                )
            },
        }
    }
}

impl vstd::std_specs::convert::FromSpecImpl<OriginalParserError> for ParserError {
    open spec fn obeys_from_spec() -> bool {
        true
    }

    open spec fn from_spec(value: OriginalParserError) -> Self {
        ParserError::report(value@.flaw, value@.cursor)
    }
}

} // verus!
