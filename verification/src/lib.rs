//! Two- and three-component version numbers, `major.minor` and
//! `major.minor.patch`, with strict parsers whose behaviour is proved against a
//! small grammar.
//!
//! The accepted numbers are those of semantic versioning without labels, plus
//! the two-component shorthand: both `1.0` and `1.0.0` parse, `1.0.0-alpha`
//! does not. A two-component number is a [`BaseVersion`], a three-component
//! number a [`FullVersion`], and [`Version`] holds either.

use crate::diagnostic::diagnosis;
use crate::grammar::{outcome, render_base, render_full, Outcome};
use crate::text::text_of;
use vstd::prelude::*;
use vstd::string::StringSliceAdditionalSpecFns;
use vstd::utf8::{encode_utf8, encode_utf8_decode_utf8, encode_utf8_valid_utf8};

pub mod core_version;
pub mod diagnostic;
pub mod grammar;
pub mod laws;
pub mod parser;
pub mod parsers;
pub mod range;
pub mod text;
pub mod version;

pub use core_version::CoreVersion;
pub use parsers::{BaseVersionParser, FullVersionParser, ParserError, VersionParser};
pub use version::base::BaseVersion;
pub use version::full::FullVersion;

verus! {

/// What can go wrong in this crate.
#[derive(Debug)]
pub enum Error {
    /// An input could not be parsed to a version number.
    ParseError(parser::Error),
}

impl From<parser::Error> for Error {
    fn from(error: parser::Error) -> (wrapped: Self) {
        Error::ParseError(error)
    }
}

impl vstd::std_specs::convert::FromSpecImpl<parser::Error> for Error {
    open spec fn obeys_from_spec() -> bool {
        true
    }

    open spec fn from_spec(error: parser::Error) -> Self {
        Error::ParseError(error)
    }
}

impl Error {
    /// The whole message of the error.
    pub fn to_string(&self) -> (text: String)
        ensures
            match self {
                Error::ParseError(error) => text@ == error@.message(),
            },
    {
        match self {
            Error::ParseError(error) => error.to_string(),
        }
    }
}

/// A version number of either shape.
#[derive(Clone, Debug, Hash, Eq, PartialEq, Structural)]
pub enum Version {
    /// A two-component `major.minor` version.
    Base(BaseVersion),
    /// A three-component `major.minor.patch` version.
    Full(FullVersion),
}

/// Names a shape of [`Version`]: [`Variant::Base`] for [`Version::Base`],
/// [`Variant::Full`] for [`Version::Full`].
#[derive(Copy, Clone, Debug)]
pub enum Variant {
    /// The two-component shape.
    Base,
    /// The three-component shape.
    Full,
}

impl Version {
    /// Parses a two-component `major.minor` or a three-component
    /// `major.minor.patch` version from `input`, with the one-pass parser.
    ///
    /// The result is what the grammar says of the bytes of `input`: the
    /// version, or an [`Error::ParseError`] whose diagnostic holds `input`, the
    /// reason, and the place where the reason has one.
    pub fn parse(input: &str) -> (result: Result<Self, Error>)
        ensures
            match outcome(input.spec_bytes()) {
                Outcome::Base { major, minor } => result == Ok::<Version, Error>(
                    Version::Base(BaseVersion { major, minor }),
                ),
                Outcome::Full { major, minor, patch } => result == Ok::<Version, Error>(
                    Version::Full(FullVersion { major, minor, patch }),
                ),
                Outcome::Rejected { flaw, at } => result matches Err(Error::ParseError(error))
                    && error@ == diagnosis(input.spec_bytes(), flaw, at) && error@.raw_input
                    == input@,
            },
            result matches Err(Error::ParseError(error)) ==> (error@.cursor matches Some(cursor)
                ==> cursor <= input.spec_bytes().len()),
    {
        proof {
            encode_utf8_valid_utf8(input@);
            encode_utf8_decode_utf8(input@);
        }
        match parser::Parser::from_slice(input.as_bytes()).parse() {
            Ok(version) => Ok(version),
            Err(error) => Err(Error::from(error)),
        }
    }

    /// The version written out: `major.minor` or `major.minor.patch`, in base
    /// ten and without leading zeros.
    pub fn to_string(&self) -> (text: String)
        ensures
            text@ == text_of(self.rendered()),
            encode_utf8(text@) == self.rendered(),
    {
        match self {
            Self::Base(inner) => inner.to_string(),
            Self::Full(inner) => inner.to_string(),
        }
    }

    /// The bytes of the version written out.
    pub open spec fn rendered(&self) -> Seq<u8> {
        match self {
            Version::Base(inner) => render_base(inner.major, inner.minor),
            Version::Full(inner) => render_full(inner.major, inner.minor, inner.patch),
        }
    }

    /// A two-component `major.minor` version number.
    pub fn new_base_version(major: u64, minor: u64) -> (version: Self)
        ensures
            version == Version::Base(BaseVersion { major, minor }),
    {
        Self::Base(BaseVersion { major, minor })
    }

    /// A three-component `major.minor.patch` version number.
    pub fn new_full_version(major: u64, minor: u64, patch: u64) -> (version: Self)
        ensures
            version == Version::Full(FullVersion { major, minor, patch }),
    {
        Self::Full(FullVersion { major, minor, patch })
    }

    /// The leading component, which both shapes have.
    pub open spec fn spec_major(&self) -> u64 {
        match self {
            Version::Base(inner) => inner.major,
            Version::Full(inner) => inner.major,
        }
    }

    /// The second component, which both shapes have.
    pub open spec fn spec_minor(&self) -> u64 {
        match self {
            Version::Base(inner) => inner.minor,
            Version::Full(inner) => inner.minor,
        }
    }

    /// The third component, which only the three-component shape has.
    pub open spec fn spec_patch(&self) -> Option<u64> {
        match self {
            Version::Base(_) => None,
            Version::Full(inner) => Some(inner.patch),
        }
    }

    /// The `major` component.
    #[verifier::when_used_as_spec(spec_major)]
    pub fn major(&self) -> (major: u64)
        ensures
            major == self.spec_major(),
    {
        match self {
            Self::Base(inner) => inner.major,
            Self::Full(inner) => inner.major,
        }
    }

    /// The `minor` component.
    #[verifier::when_used_as_spec(spec_minor)]
    pub fn minor(&self) -> (minor: u64)
        ensures
            minor == self.spec_minor(),
    {
        match self {
            Self::Base(inner) => inner.minor,
            Self::Full(inner) => inner.minor,
        }
    }

    /// The `patch` component: `Some` for a three-component version, `None` for
    /// a two-component one.
    #[verifier::when_used_as_spec(spec_patch)]
    pub fn patch(&self) -> (patch: Option<u64>)
        ensures
            patch == self.spec_patch(),
    {
        match self {
            Self::Base(_) => None,
            Self::Full(inner) => Some(inner.patch),
        }
    }

    /// Whether the version has the shape that `variant` names.
    pub fn is(&self, variant: Variant) -> (same: bool)
        ensures
            same == match variant {
                Variant::Base => *self is Base,
                Variant::Full => *self is Full,
            },
    {
        match self {
            Version::Base(_) => matches!(variant, Variant::Base),
            Version::Full(_) => matches!(variant, Variant::Full),
        }
    }
}

impl std::str::FromStr for Version {
    type Err = Error;

    /// Parses as [`Version::parse`] does.
    fn from_str(input: &str) -> (result: Result<Self, Error>)
        ensures
            match outcome(input.spec_bytes()) {
                Outcome::Base { major, minor } => result == Ok::<Version, Error>(
                    Version::Base(BaseVersion { major, minor }),
                ),
                Outcome::Full { major, minor, patch } => result == Ok::<Version, Error>(
                    Version::Full(FullVersion { major, minor, patch }),
                ),
                Outcome::Rejected { flaw, at } => result matches Err(Error::ParseError(error))
                    && error@ == diagnosis(input.spec_bytes(), flaw, at) && error@.raw_input
                    == input@,
            },
    {
        Version::parse(input)
    }
}

impl From<(u64, u64)> for Version {
    fn from(tuple: (u64, u64)) -> (version: Self) {
        Self::Base(BaseVersion { major: tuple.0, minor: tuple.1 })
    }
}

impl vstd::std_specs::convert::FromSpecImpl<(u64, u64)> for Version {
    open spec fn obeys_from_spec() -> bool {
        true
    }

    open spec fn from_spec(tuple: (u64, u64)) -> Self {
        Version::Base(BaseVersion { major: tuple.0, minor: tuple.1 })
    }
}

impl From<(u64, u64, u64)> for Version {
    fn from(tuple: (u64, u64, u64)) -> (version: Self) {
        Self::Full(FullVersion { major: tuple.0, minor: tuple.1, patch: tuple.2 })
    }
}

impl vstd::std_specs::convert::FromSpecImpl<(u64, u64, u64)> for Version {
    open spec fn obeys_from_spec() -> bool {
        true
    }

    open spec fn from_spec(tuple: (u64, u64, u64)) -> Self {
        Version::Full(FullVersion { major: tuple.0, minor: tuple.1, patch: tuple.2 })
    }
}

} // verus!
