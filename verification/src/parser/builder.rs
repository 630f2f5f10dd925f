//! The staged parser with errors that are plain codes.

use crate::grammar::{
    base_stage, finish_stage, patch_stage, staged_outcome, staged_rest, Stage,
};
use crate::parser::component::{is_done, maybe_can_continue, parse_component, parse_dot};
use crate::parser::error::ParseError;
use crate::parsers::modular::PeekableSlice;
use crate::version::base::BaseVersion;
use crate::version::full::FullVersion;
use crate::Version;
use vstd::prelude::*;

verus! {

/// The state of a parser that has parsed nothing.
#[derive(Debug)]
pub struct Unparsed;

/// The state of a parser that has parsed `major.minor`.
///
/// Whether the input ends there has not been looked at: of the input `a.bc`
/// the parser knows that `a.b` is a two-component version, and nothing of `c`.
#[derive(Debug)]
pub struct ParsedBase {
    version: BaseVersion,
}

/// The state of a parser that has parsed `major.minor.patch`.
///
/// Whether the input ends there has not been looked at.
#[derive(Debug)]
pub struct ParsedFull {
    version: FullVersion,
}

/// A state of a [`Parser`].
///
/// The trait is not sealed: a test may add a state of its own.
pub trait ParsedState {}

impl ParsedState for Unparsed {}

impl ParsedState for ParsedBase {}

impl ParsedState for ParsedFull {}

/// A parser that reads a [`Version`], a [`BaseVersion`] or a [`FullVersion`]
/// in stages, and reports a failure as a [`ParseError`].
#[derive(Debug)]
pub struct Parser<'p, S: ParsedState> {
    state: S,
    iter: PeekableSlice<'p, u8>,
}

impl<'p, S: ParsedState> Parser<'p, S> {
    /// The whole input.
    pub closed spec fn input(&self) -> Seq<u8> {
        self.iter.source()
    }

    /// How many bytes of the input have been read.
    pub closed spec fn cursor(&self) -> nat {
        self.iter.position()
    }
}

impl<'p> Parser<'p, Unparsed> {
    /// A parser at the front of `bytes`.
    pub fn from_bytes(bytes: &'p [u8]) -> (parser: Parser<'p, Unparsed>)
        ensures
            parser.input() == bytes@,
            parser.cursor() == 0,
    {
        Parser { state: Unparsed, iter: PeekableSlice::new(bytes) }
    }

    /// Parses `major.minor`, the base of a version, and stops there: what
    /// follows is left for the next stage, [`Parser::finish`] or
    /// [`Parser::parse_patch`].
    pub fn parse_base(self) -> (result: Result<Parser<'p, ParsedBase>, ParseError>)
        ensures
            match base_stage(self.input(), self.cursor() as int) {
                Stage::Read { value, end } => {
                    &&& result matches Ok(parser)
                    &&& parser.input() == self.input()
                    &&& parser.cursor() == end
                    &&& parser.parsed_version() == BaseVersion { major: value.0, minor: value.1 }
                },
                Stage::Failed { flaw, at } => result matches Err(error) && error
                    == ParseError::report(flaw),
            },
    {
        let Self { mut iter, .. } = self;

        let major = match parse_component(&mut iter) {
            Ok(number) => number,
            Err(error) => return Err(error),
        };
        match parse_dot(&mut iter) {
            Ok(()) => {},
            Err(error) => return Err(error),
        }
        let minor = match parse_component(&mut iter) {
            Ok(number) => number,
            Err(error) => return Err(error),
        };

        let version = BaseVersion::new(major, minor);

        Ok(Parser { state: ParsedBase { version }, iter })
    }

    /// Parses `major.minor.patch` and stops there. An input with two
    /// components only is refused.
    pub fn parse_full(self) -> (result: Result<Parser<'p, ParsedFull>, ParseError>)
        ensures
            match base_stage(self.input(), self.cursor() as int) {
                Stage::Read { value, end: b } => match patch_stage(self.input(), b) {
                    Stage::Read { value: patch, end } => {
                        &&& result matches Ok(parser)
                        &&& parser.input() == self.input()
                        &&& parser.cursor() == end
                        &&& parser.parsed_version() == FullVersion {
                            major: value.0,
                            minor: value.1,
                            patch,
                        }
                    },
                    Stage::Failed { flaw, at } => result matches Err(error) && error
                        == ParseError::report(flaw),
                },
                Stage::Failed { flaw, at } => result matches Err(error) && error
                    == ParseError::report(flaw),
            },
    {
        match self.parse_base() {
            Ok(parser) => parser.parse_patch(),
            Err(error) => Err(error),
        }
    }

    /// Parses a two-component `major.minor` or a three-component
    /// `major.minor.patch` version, whichever the input holds: after
    /// `major.minor`, a `.` decides for the third component.
    pub fn parse(self) -> (result: Result<Version, ParseError>)
        ensures
            result == ParseError::result_of(staged_outcome(self.input(), self.cursor() as int)),
    {
        let mut parser = match self.parse_base() {
            Ok(parser) => parser,
            Err(error) => return Err(error),
        };

        if maybe_can_continue(&mut parser.iter) {
            match parser.parse_patch() {
                Ok(parser) => parser.finish(),
                Err(error) => Err(error),
            }
        } else {
            parser.finish()
        }
    }
}

impl<'p> Parser<'p, ParsedBase> {
    /// The version parsed so far.
    pub closed spec fn parsed_version(&self) -> BaseVersion {
        self.state.version
    }

    /// Parses `.patch`, the third component with its separator.
    pub fn parse_patch(self) -> (result: Result<Parser<'p, ParsedFull>, ParseError>)
        ensures
            match patch_stage(self.input(), self.cursor() as int) {
                Stage::Read { value: patch, end } => {
                    &&& result matches Ok(parser)
                    &&& parser.input() == self.input()
                    &&& parser.cursor() == end
                    &&& parser.parsed_version() == FullVersion {
                        major: self.parsed_version().major,
                        minor: self.parsed_version().minor,
                        patch,
                    }
                },
                Stage::Failed { flaw, at } => result matches Err(error) && error
                    == ParseError::report(flaw),
            },
    {
        let Self { mut iter, state: ParsedBase { version: BaseVersion { major, minor } } } = self;

        match parse_dot(&mut iter) {
            Ok(()) => {},
            Err(error) => return Err(error),
        }
        let patch = match parse_component(&mut iter) {
            Ok(number) => number,
            Err(error) => return Err(error),
        };

        let version = FullVersion::new(major, minor, patch);

        Ok(Parser { state: ParsedFull { version }, iter })
    }

    /// Parses `.patch` if a `.` follows, and then expects the end of the
    /// input; the result is a [`Version::Full`]. Without a `.` the input must
    /// end here, and the result is the [`Version::Base`] parsed so far.
    pub fn parse_patch_or_finish(self) -> (result: Result<Version, ParseError>)
        ensures
            result == ParseError::result_of(
                staged_rest(
                    self.input(),
                    self.cursor() as int,
                    self.parsed_version().major,
                    self.parsed_version().minor,
                ),
            ),
    {
        let mut ahead = self.iter.clone();
        if maybe_can_continue(&mut ahead) {
            match self.parse_patch() {
                Ok(parser) => parser.finish(),
                Err(error) => Err(error),
            }
        } else {
            self.finish()
        }
    }

    /// Checks that no input is left, and returns the version parsed so far as
    /// a [`Version`].
    pub fn finish(self) -> (result: Result<Version, ParseError>)
        ensures
            result == match finish_stage(self.input(), self.cursor() as int) {
                None => Ok(Version::Base(self.parsed_version())),
                Some(flaw) => Err(ParseError::report(flaw)),
            },
    {
        match self.finish_base_version() {
            Ok(version) => Ok(Version::Base(version)),
            Err(error) => Err(error),
        }
    }

    /// Checks that no input is left, and returns the version parsed so far.
    pub fn finish_base_version(self) -> (result: Result<BaseVersion, ParseError>)
        ensures
            result == match finish_stage(self.input(), self.cursor() as int) {
                None => Ok(self.parsed_version()),
                Some(flaw) => Err(ParseError::report(flaw)),
            },
    {
        let Self { mut iter, state } = self;

        match is_done(&mut iter) {
            Ok(()) => Ok(state.version),
            Err(error) => Err(error),
        }
    }

    /// The version parsed so far. Unless the input ends here, it is not the
    /// version that the whole input holds.
    pub fn inner_version(&self) -> (version: &BaseVersion)
        ensures
            *version == self.parsed_version(),
    {
        &self.state.version
    }
}

impl<'p> Parser<'p, ParsedFull> {
    /// The version parsed so far.
    pub closed spec fn parsed_version(&self) -> FullVersion {
        self.state.version
    }

    /// Checks that no input is left, and returns the version parsed so far as
    /// a [`Version`].
    pub fn finish(self) -> (result: Result<Version, ParseError>)
        ensures
            result == match finish_stage(self.input(), self.cursor() as int) {
                None => Ok(Version::Full(self.parsed_version())),
                Some(flaw) => Err(ParseError::report(flaw)),
            },
    {
        let Self { mut iter, state } = self;

        match is_done(&mut iter) {
            Ok(()) => Ok(Version::Full(state.version)),
            Err(error) => Err(error),
        }
    }

    /// The version parsed so far. Unless the input ends here, it is not the
    /// version that the whole input holds.
    pub fn inner_version(&self) -> (version: &FullVersion)
        ensures
            *version == self.parsed_version(),
    {
        &self.state.version
    }
}

} // verus!
