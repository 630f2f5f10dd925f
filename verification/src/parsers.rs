//! The parsers.
//!
//! [`original::Parser`] reads a version in one pass over a slice of bytes, with
//! a cursor that it keeps for its diagnostics. [`modular::Parser`] reads the
//! same grammar in stages, each a state of its own, so that a caller can stop
//! after `major.minor` or go on to the patch number.
//!
//! The traits of this module let either be used where only the result
//! matters: [`original::OriginalParser`] and [`modular::ModularParser`]
//! implement them.

use crate::grammar::{outcome, Outcome};
use crate::version::base::BaseVersion;
use crate::version::full::FullVersion;
use crate::Version;
use vstd::prelude::*;

pub use error::{ExpectedError, NumericError, ParserError};

pub mod error;
pub mod modular;
pub mod original;

verus! {

/// Parses bytes to a [`Version`].
pub trait VersionParser {
    /// Parses `input` to a [`Version`], which is a [`BaseVersion`] or a
    /// [`FullVersion`] as the input has two components or three.
    ///
    /// Every implementation returns the version that the grammar reads from
    /// the input, and an error for every input that the grammar rejects.
    fn parse_version(&self, input: &[u8]) -> (result: Result<Version, ParserError>)
        ensures
            match outcome(input@) {
                Outcome::Base { major, minor } => result == Ok::<Version, ParserError>(
                    Version::Base(BaseVersion { major, minor }),
                ),
                Outcome::Full { major, minor, patch } => result == Ok::<Version, ParserError>(
                    Version::Full(FullVersion { major, minor, patch }),
                ),
                Outcome::Rejected { flaw, at } => result is Err,
            },
    ;
}

/// Parses bytes to a [`BaseVersion`].
pub trait BaseVersionParser {
    /// Parses `input` to a [`BaseVersion`].
    ///
    /// Every implementation returns the version if the input is a
    /// two-component version, and an error for every other input.
    fn parse_base(&self, input: &[u8]) -> (result: Result<BaseVersion, ParserError>)
        ensures
            match outcome(input@) {
                Outcome::Base { major, minor } => result == Ok::<BaseVersion, ParserError>(
                    BaseVersion { major, minor },
                ),
                Outcome::Full { major, minor, patch } => result is Err,
                Outcome::Rejected { flaw, at } => result is Err,
            },
    ;
}

/// Parses bytes to a [`FullVersion`].
pub trait FullVersionParser {
    /// Parses `input` to a [`FullVersion`].
    ///
    /// Every implementation returns the version if the input is a
    /// three-component version, and an error for every other input.
    fn parse_full(&self, input: &[u8]) -> (result: Result<FullVersion, ParserError>)
        ensures
            match outcome(input@) {
                Outcome::Base { major, minor } => result is Err,
                Outcome::Full { major, minor, patch } => result == Ok::<FullVersion, ParserError>(
                    FullVersion { major, minor, patch },
                ),
                Outcome::Rejected { flaw, at } => result is Err,
            },
    ;
}

} // verus!
