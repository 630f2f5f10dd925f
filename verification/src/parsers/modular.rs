//! The parser that reads a version in stages.
//!
//! Each stage is a state of [`Parser`]: nothing parsed, `major.minor` parsed,
//! `major.minor.patch` parsed. A stage consumes the parser and returns the next
//! one, so that no stage can be run twice from the same place.

use crate::grammar::{base_stage, finish_stage, patch_stage, staged_outcome, Stage};
use crate::laws::lemma_stages_accept_what_one_pass_accepts;
use crate::parsers::error::ParserError;
use crate::parsers::{BaseVersionParser, FullVersionParser, VersionParser};
use crate::version::base::BaseVersion;
use crate::version::full::FullVersion;
use crate::Version;
use vstd::prelude::*;

pub use error::{ModularParserError, NumberError};
pub use parser::{ParsedBase, ParsedFull, ParsedState, Parser, Unparsed};
pub use take_while_peekable::{PeekableSlice, TakeWhilePeekable, TakeWhilePeekableImpl};

pub mod component;
mod error;
mod parser;
mod take_while_peekable;

verus! {

/// The staged parser behind the traits of [`crate::parsers`].
///
/// [`Parser`] is the staged parser itself, with its stages and its own error
/// type. This type runs the stages that a trait asks for, in one call.
#[derive(Debug)]
pub struct ModularParser;

impl ModularParser {
    /// What the staged parser returns for the two-component reading of
    /// `input`: `major.minor`, then the end of the input.
    pub open spec fn base_result(input: Seq<u8>) -> Result<BaseVersion, ModularParserError> {
        match base_stage(input, 0) {
            Stage::Read { value, end } => match finish_stage(input, end) {
                None => Ok(BaseVersion { major: value.0, minor: value.1 }),
                Some(flaw) => Err(ModularParserError::report(flaw)),
            },
            Stage::Failed { flaw, at } => Err(ModularParserError::report(flaw)),
        }
    }

    /// What the staged parser returns for the three-component reading of
    /// `input`: `major.minor`, `.patch`, then the end of the input.
    pub open spec fn full_result(input: Seq<u8>) -> Result<FullVersion, ModularParserError> {
        match base_stage(input, 0) {
            Stage::Read { value, end: b } => match patch_stage(input, b) {
                Stage::Read { value: patch, end } => match finish_stage(input, end) {
                    None => Ok(FullVersion { major: value.0, minor: value.1, patch }),
                    Some(flaw) => Err(ModularParserError::report(flaw)),
                },
                Stage::Failed { flaw, at } => Err(ModularParserError::report(flaw)),
            },
            Stage::Failed { flaw, at } => Err(ModularParserError::report(flaw)),
        }
    }

    /// The error of the staged parser as every parser can report it.
    pub open spec fn common<T>(result: Result<T, ModularParserError>) -> Result<T, ParserError> {
        match result {
            Ok(value) => Ok(value),
            Err(error) => Err(error.common()),
        }
    }
}

impl VersionParser for ModularParser {
    /// Runs [`Parser::parse`]. An error comes without a place.
    fn parse_version(&self, input: &[u8]) -> (result: Result<Version, ParserError>)
        ensures
            result == ModularParser::common(
                ModularParserError::result_of(staged_outcome(input@, 0)),
            ),
    {
        proof {
            lemma_stages_accept_what_one_pass_accepts(input@);
        }
        let parser = Parser::from_slice(input);

        match parser.parse() {
            Ok(version) => Ok(version),
            Err(error) => Err(ParserError::from(error)),
        }
    }
}

impl BaseVersionParser for ModularParser {
    /// Runs [`Parser::parse_base`] and [`Parser::finish_base_version`]. An
    /// error comes without a place.
    fn parse_base(&self, input: &[u8]) -> (result: Result<BaseVersion, ParserError>)
        ensures
            result == ModularParser::common(ModularParser::base_result(input@)),
    {
        proof {
            lemma_stages_accept_what_one_pass_accepts(input@);
        }
        let parser = Parser::from_slice(input);

        let finished = match parser.parse_base() {
            Ok(parser) => parser.finish_base_version(),
            Err(error) => Err(error),
        };
        match finished {
            Ok(version) => Ok(version),
            Err(error) => Err(ParserError::from(error)),
        }
    }
}

impl FullVersionParser for ModularParser {
    /// Runs [`Parser::parse_full`] and [`Parser::finish_full_version`]. An
    /// error comes without a place.
    fn parse_full(&self, input: &[u8]) -> (result: Result<FullVersion, ParserError>)
        ensures
            result == ModularParser::common(ModularParser::full_result(input@)),
    {
        proof {
            lemma_stages_accept_what_one_pass_accepts(input@);
        }
        let parser = Parser::from_slice(input);

        let finished = match parser.parse_full() {
            Ok(parser) => parser.finish_full_version(),
            Err(error) => Err(error),
        };
        match finished {
            Ok(version) => Ok(version),
            Err(error) => Err(ParserError::from(error)),
        }
    }
}

} // verus!
