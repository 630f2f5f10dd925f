//! The three-component version, `major.minor.patch`.

use crate::core_version::CoreVersion;
use crate::grammar::{render_full, DOT};
use crate::parsers::error::ParserError;
use crate::parsers::modular::ModularParser;
use crate::parsers::FullVersionParser;
use crate::text::{ascii_text, lemma_digits_are_ascii, push_decimal, text_of};
use crate::version::base::BaseVersion;
use semver::Version as SemanticVersion;
use vstd::prelude::*;
use vstd::string::StringSliceAdditionalSpecFns;
use vstd::utf8::encode_utf8;

verus! {

/// A three-component `major.minor.patch` version.
///
/// It keeps the numbers of a semantic version and has no labels for
/// pre-releases or build metadata. [`BaseVersion`] is the variant without a
/// patch number.
#[derive(Copy, Clone, Debug, Eq, Hash, Ord, PartialEq, PartialOrd, Structural)]
pub struct FullVersion {
    /// Incremented when a public API changes incompatibly; `0` marks an
    /// unstable initial development version.
    pub major: u64,
    /// Incremented when a public API grows compatibly.
    pub minor: u64,
    /// Incremented when a bug is fixed compatibly.
    pub patch: u64,
}

impl FullVersion {
    /// A version number with the components `major`, `minor` and `patch`.
    pub fn new(major: u64, minor: u64, patch: u64) -> (version: Self)
        ensures
            version == (FullVersion { major, minor, patch }),
    {
        Self { major, minor, patch }
    }

    /// Parses a three-component `major.minor.patch` version from `input`, with
    /// the staged parser.
    pub fn parse(input: &str) -> (result: Result<Self, ParserError>)
        ensures
            result == ModularParser::common(ModularParser::full_result(input.spec_bytes())),
    {
        ModularParser.parse_full(input.as_bytes())
    }

    /// The version written out as `major.minor.patch`, in base ten and without
    /// leading zeros.
    pub fn to_string(&self) -> (text: String)
        ensures
            text@ == text_of(render_full(self.major, self.minor, self.patch)),
            encode_utf8(text@) == render_full(self.major, self.minor, self.patch),
    {
        let mut bytes: Vec<u8> = Vec::new();
        push_decimal(&mut bytes, self.major);
        bytes.push(DOT);
        push_decimal(&mut bytes, self.minor);
        bytes.push(DOT);
        push_decimal(&mut bytes, self.patch);
        proof {
            lemma_digits_are_ascii(self.major as nat);
            lemma_digits_are_ascii(self.minor as nat);
            lemma_digits_are_ascii(self.patch as nat);
            assert(bytes@ =~= render_full(self.major, self.minor, self.patch));
        }
        ascii_text(bytes.as_slice())
    }

    /// The base version with the same `major` and `minor`. The patch number is
    /// lost.
    pub fn to_base_version_lossy(self) -> (base: BaseVersion)
        ensures
            base == (BaseVersion { major: self.major, minor: self.minor }),
    {
        BaseVersion { major: self.major, minor: self.minor }
    }

    /// The core version with the same `major` and `minor`. The patch number is
    /// lost.
    pub fn to_core_version_lossy(self) -> (core: CoreVersion)
        ensures
            core == (CoreVersion { major: self.major, minor: self.minor }),
    {
        CoreVersion { major: self.major, minor: self.minor }
    }

    /// Hands the version to `fun` and returns what `fun` makes of it.
    pub fn map<U, F>(self, fun: F) -> (mapped: U) where F: FnOnce(Self) -> U
        requires
            call_requires(fun, (self,)),
        ensures
            call_ensures(fun, (self,), mapped),
    {
        fun(self)
    }
}

/// The version number of the `semver` crate: three numbers and two labels.
#[verifier::external_type_specification]
#[verifier::external_body]
pub struct ExSemanticVersion(SemanticVersion);

/// The value that `semver::Version::new` makes of three numbers.
pub uninterp spec fn semantic_version(major: u64, minor: u64, patch: u64) -> SemanticVersion;

/// Calls `semver::Version::new`, which sets the three numbers and leaves the
/// labels for pre-releases and build metadata empty.
///
/// Not proved: that the value depends on the three numbers alone.
#[verifier::external_body]
fn new_semantic_version(major: u64, minor: u64, patch: u64) -> (version: SemanticVersion)
    ensures
        version == semantic_version(major, minor, patch),
{
    SemanticVersion::new(major, minor, patch)
}

impl From<FullVersion> for SemanticVersion {
    /// The semantic version with the same three numbers and without labels.
    fn from(version: FullVersion) -> (converted: Self) {
        new_semantic_version(version.major, version.minor, version.patch)
    }
}

impl vstd::std_specs::convert::FromSpecImpl<FullVersion> for SemanticVersion {
    open spec fn obeys_from_spec() -> bool {
        true
    }

    open spec fn from_spec(version: FullVersion) -> Self {
        semantic_version(version.major, version.minor, version.patch)
    }
}

impl From<(u64, u64, u64)> for FullVersion {
    fn from(tuple: (u64, u64, u64)) -> (version: Self) {
        FullVersion { major: tuple.0, minor: tuple.1, patch: tuple.2 }
    }
}

impl vstd::std_specs::convert::FromSpecImpl<(u64, u64, u64)> for FullVersion {
    open spec fn obeys_from_spec() -> bool {
        true
    }

    open spec fn from_spec(tuple: (u64, u64, u64)) -> Self {
        FullVersion { major: tuple.0, minor: tuple.1, patch: tuple.2 }
    }
}

} // verus!
