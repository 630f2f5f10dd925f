//! The two-component version, `major.minor`.

use crate::grammar::{render_base, DOT};
use crate::parsers::error::ParserError;
use crate::parsers::modular::ModularParser;
use crate::parsers::BaseVersionParser;
use crate::text::{ascii_text, lemma_digits_are_ascii, push_decimal, text_of};
use crate::version::full::FullVersion;
use vstd::prelude::*;
use vstd::string::StringSliceAdditionalSpecFns;
use vstd::utf8::encode_utf8;

verus! {

/// A two-component `major.minor` version.
///
/// It keeps the first two components of a semantic version and has neither a
/// patch number nor labels. [`FullVersion`] is the variant with a patch number.
#[derive(Copy, Clone, Debug, Eq, Hash, Ord, PartialEq, PartialOrd, Structural)]
pub struct BaseVersion {
    /// Incremented when a public API changes incompatibly; `0` marks an
    /// unstable initial development version.
    pub major: u64,
    /// Incremented when a public API grows compatibly.
    pub minor: u64,
}

impl BaseVersion {
    /// A version number with the components `major` and `minor`.
    pub fn new(major: u64, minor: u64) -> (version: Self)
        ensures
            version == (BaseVersion { major, minor }),
    {
        Self { major, minor }
    }

    /// Parses a two-component `major.minor` version from `input`, with the
    /// staged parser.
    pub fn parse(input: &str) -> (result: Result<Self, ParserError>)
        ensures
            result == ModularParser::common(ModularParser::base_result(input.spec_bytes())),
    {
        ModularParser.parse_base(input.as_bytes())
    }

    /// The version written out as `major.minor`, in base ten and without
    /// leading zeros.
    pub fn to_string(&self) -> (text: String)
        ensures
            text@ == text_of(render_base(self.major, self.minor)),
            encode_utf8(text@) == render_base(self.major, self.minor),
    {
        let mut bytes: Vec<u8> = Vec::new();
        push_decimal(&mut bytes, self.major);
        bytes.push(DOT);
        push_decimal(&mut bytes, self.minor);
        proof {
            lemma_digits_are_ascii(self.major as nat);
            lemma_digits_are_ascii(self.minor as nat);
            assert(bytes@ =~= render_base(self.major, self.minor));
        }
        ascii_text(bytes.as_slice())
    }

    /// The full version with the same `major` and `minor`. A base version knows
    /// no patch number, so `patch` becomes `0`.
    pub fn to_full_version_lossy(self) -> (full: FullVersion)
        ensures
            full == (FullVersion { major: self.major, minor: self.minor, patch: 0 }),
    {
        FullVersion { major: self.major, minor: self.minor, patch: 0 }
    }

    /// Hands the version to `fun` and returns what `fun` makes of it.
    pub fn map<U, F>(self, fun: F) -> (mapped: U) where F: FnOnce(Self) -> U
        requires
            call_requires(fun, (self,)),
        ensures
            call_ensures(fun, (self,), mapped),
    {
        fun(self)
    }
}

impl From<(u64, u64)> for BaseVersion {
    fn from(tuple: (u64, u64)) -> (version: Self) {
        BaseVersion { major: tuple.0, minor: tuple.1 }
    }
}

impl vstd::std_specs::convert::FromSpecImpl<(u64, u64)> for BaseVersion {
    open spec fn obeys_from_spec() -> bool {
        true
    }

    open spec fn from_spec(tuple: (u64, u64)) -> Self {
        BaseVersion { major: tuple.0, minor: tuple.1 }
    }
}

} // verus!
