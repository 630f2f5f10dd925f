//! The parser that reads a version in one pass.
//!
//! It keeps the input as a slice of bytes and moves a cursor over it, which
//! its diagnostics report.

use crate::diagnostic::place;
use crate::grammar::{digits_of, outcome, Flaw, Outcome, DOT};
use crate::parsers::error::{ExpectedError, ParserError};
use crate::parsers::{BaseVersionParser, FullVersionParser, VersionParser};
use crate::text::push_decimal;
use crate::version::base::BaseVersion;
use crate::version::full::FullVersion;
use crate::Version;
use vstd::prelude::*;

pub use error::{ErrorReason, NumberError, OriginalParserError};
pub use parser::{NumberComponent, NumberConstructor, Parser};

mod error;
mod parser;

verus! {

/// The one-pass parser behind the traits of [`crate::parsers`].
///
/// [`Parser`] is the one-pass parser itself, with its own error type.
#[derive(Debug)]
pub struct OriginalParser;

impl OriginalParser {
    /// What the one-pass parser returns for `input`, with the error as every
    /// parser can report it.
    pub open spec fn version_result(input: Seq<u8>) -> Result<Version, ParserError> {
        match outcome(input) {
            Outcome::Base { major, minor } => Ok(Version::Base(BaseVersion { major, minor })),
            Outcome::Full { major, minor, patch } => Ok(
                Version::Full(FullVersion { major, minor, patch }),
            ),
            Outcome::Rejected { flaw, at } => Err(ParserError::report(flaw, place(flaw, at))),
        }
    }

    /// What the one-pass parser makes of `input` when two components are asked
    /// for. A three-component version is refused for its last part, `.patch`,
    /// written out anew and without a place.
    pub open spec fn base_result(input: Seq<u8>) -> Result<BaseVersion, ParserError> {
        match outcome(input) {
            Outcome::Base { major, minor } => Ok(BaseVersion { major, minor }),
            Outcome::Full { major, minor, patch } => Err(
                ParserError::report(
                    Flaw::ExpectedEndOfInput { extra: seq![DOT] + digits_of(patch as nat) },
                    None,
                ),
            ),
            Outcome::Rejected { flaw, at } => Err(ParserError::report(flaw, place(flaw, at))),
        }
    }

    /// What the one-pass parser makes of `input` when three components are
    /// asked for. A two-component version is refused for want of a separator,
    /// without a place and without a word on what was found.
    pub open spec fn full_result(input: Seq<u8>) -> Result<FullVersion, ParserError> {
        match outcome(input) {
            Outcome::Base { major, minor } => Err(
                ParserError::Expected(ExpectedError::Separator { at: None, got: None }),
            ),
            Outcome::Full { major, minor, patch } => Ok(FullVersion { major, minor, patch }),
            Outcome::Rejected { flaw, at } => Err(ParserError::report(flaw, place(flaw, at))),
        }
    }
}

impl VersionParser for OriginalParser {
    /// Runs [`Parser::parse`]. An error keeps the place that the diagnostic
    /// has.
    fn parse_version(&self, input: &[u8]) -> (result: Result<Version, ParserError>)
        ensures
            result == OriginalParser::version_result(input@),
    {
        let parser = Parser::from_slice(input);

        match parser.parse() {
            Ok(version) => Ok(version),
            Err(error) => Err(ParserError::from(error)),
        }
    }
}

impl BaseVersionParser for OriginalParser {
    /// Runs [`Parser::parse`] and accepts a two-component version only.
    fn parse_base(&self, input: &[u8]) -> (result: Result<BaseVersion, ParserError>)
        ensures
            result == OriginalParser::base_result(input@),
    {
        let parser = Parser::from_slice(input);

        match parser.parse() {
            Ok(Version::Base(base)) => Ok(base),
            Ok(Version::Full(full)) => {
                let mut extra_input: Vec<u8> = Vec::new();
                extra_input.push(DOT);
                push_decimal(&mut extra_input, full.patch);
                proof {
                    assert(extra_input@ =~= seq![DOT] + digits_of(full.patch as nat));
                }
                Err(
                    ParserError::from(
                        OriginalParserError::from_parser(
                            &parser,
                            ErrorReason::ExpectedEndOfInput { extra_input },
                        ),
                    ),
                )
            },
            Err(error) => Err(ParserError::from(error)),
        }
    }
}

impl FullVersionParser for OriginalParser {
    /// Runs [`Parser::parse`] and accepts a three-component version only.
    fn parse_full(&self, input: &[u8]) -> (result: Result<FullVersion, ParserError>)
        ensures
            result == OriginalParser::full_result(input@),
    {
        let parser = Parser::from_slice(input);

        match parser.parse() {
            Ok(Version::Base(_)) => Err(
                ParserError::Expected(ExpectedError::Separator { at: None, got: None }),
            ),
            Ok(Version::Full(full)) => Ok(full),
            Err(error) => Err(ParserError::from(error)),
        }
    }
}

} // verus!
