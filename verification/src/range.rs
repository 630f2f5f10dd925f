//! Ranges of core versions, and a map keyed by them.
//!
//! A range runs from a smaller version, which it includes, to a larger one,
//! which it excludes. Its ends are kept as 128-bit integers, `major` in the
//! upper half and `minor` in the lower, so that the integers are ordered as
//! the versions are.

use crate::core_version::CoreVersion;
use std::collections::BTreeMap;
use vstd::prelude::*;

verus! {

/// The range asked for would hold no version.
#[derive(Debug, Eq, PartialEq)]
pub struct EmptyRangeError;

/// The 128-bit integer that stands for the version `major.minor`.
pub open spec fn encode(major: u64, minor: u64) -> u128 {
    (major as u128) << 64 | (minor as u128)
}

/// A core version as one 128-bit integer.
#[derive(Copy, Clone, Debug, Eq, PartialEq)]
pub struct EncodedVersion {
    encoded: u128,
}

impl View for EncodedVersion {
    type V = u128;

    closed spec fn view(&self) -> u128 {
        self.encoded
    }
}

impl EncodedVersion {
    /// The encoded form of the version `major.minor`.
    pub closed spec fn of(major: u64, minor: u64) -> EncodedVersion {
        EncodedVersion { encoded: encode(major, minor) }
    }

    /// The version that the integer stands for.
    pub open spec fn decoded(self) -> CoreVersion {
        CoreVersion { major: (self@ >> 64) as u64, minor: self@ as u64 }
    }

    /// The integer.
    pub fn encoded(&self) -> (encoded: u128)
        ensures
            encoded == self@,
    {
        self.encoded
    }
}

impl From<CoreVersion> for EncodedVersion {
    fn from(version: CoreVersion) -> (encoded: Self)
        ensures
            encoded@ == encode(version.major, version.minor),
    {
        let encoded = (version.major as u128) << 64 | (version.minor as u128);

        Self { encoded }
    }
}

impl vstd::std_specs::convert::FromSpecImpl<CoreVersion> for EncodedVersion {
    open spec fn obeys_from_spec() -> bool {
        true
    }

    open spec fn from_spec(version: CoreVersion) -> Self {
        EncodedVersion::of(version.major, version.minor)
    }
}

impl From<EncodedVersion> for CoreVersion {
    fn from(version: EncodedVersion) -> (decoded: Self) {
        let inner = version.encoded;

        Self { major: #[verifier::truncate] ((inner >> 64) as u64), minor: #[verifier::truncate] (inner as u64) }
    }
}

impl vstd::std_specs::convert::FromSpecImpl<EncodedVersion> for CoreVersion {
    open spec fn obeys_from_spec() -> bool {
        true
    }

    open spec fn from_spec(version: EncodedVersion) -> Self {
        version.decoded()
    }
}

/// Decoding gives back the version that was encoded.
pub proof fn lemma_encoding_round_trip(major: u64, minor: u64)
    ensures
        (encode(major, minor) >> 64) as u64 == major,
        encode(major, minor) as u64 == minor,
{
    assert(((((major as u128) << 64) | (minor as u128)) >> 64) as u64 == major) by (bit_vector);
    assert((((major as u128) << 64) | (minor as u128)) as u64 == minor) by (bit_vector);
}

/// The integers are ordered as the versions they stand for: by `major` first,
/// then by `minor`.
pub proof fn lemma_encoding_keeps_order(left: CoreVersion, right: CoreVersion)
    ensures
        encode(left.major, left.minor) < encode(right.major, right.minor) <==> (left.major
            < right.major || (left.major == right.major && left.minor < right.minor)),
{
    let (a, b, c, d) = (left.major, left.minor, right.major, right.minor);
    assert((((a as u128) << 64) | (b as u128)) < (((c as u128) << 64) | (d as u128)) <==> (a < c
        || (a == c && b < d))) by (bit_vector);
}

/// A range of core versions, from a smaller version to a larger one.
#[derive(Debug)]
pub struct CoreRange {
    begin: EncodedVersion,
    end: EncodedVersion,
}

impl CoreRange {
    /// The first version of the range.
    pub closed spec fn begin(&self) -> CoreVersion {
        self.begin.decoded()
    }

    /// The first version behind the range.
    pub closed spec fn end(&self) -> CoreVersion {
        self.end.decoded()
    }

    /// Whether a range from `begin` to `end` is accepted: `end` must have the
    /// larger `major` or the larger `minor`.
    pub open spec fn accepts(begin: CoreVersion, end: CoreVersion) -> bool {
        begin.major < end.major || begin.minor < end.minor
    }

    /// The range from `begin_inclusive` up to, but without, `end_exclusive`.
    pub fn try_new(begin_inclusive: CoreVersion, end_exclusive: CoreVersion) -> (result: Result<
        Self,
        EmptyRangeError,
    >)
        ensures
            CoreRange::accepts(begin_inclusive, end_exclusive) ==> {
                &&& result matches Ok(range)
                &&& range.begin() == begin_inclusive
                &&& range.end() == end_exclusive
            },
            !CoreRange::accepts(begin_inclusive, end_exclusive) ==> result is Err,
    {
        let lhs = begin_inclusive;
        let rhs = end_exclusive;

        if lhs.major < rhs.major || lhs.minor < rhs.minor {
            proof {
                lemma_encoding_round_trip(lhs.major, lhs.minor);
                lemma_encoding_round_trip(rhs.major, rhs.minor);
            }
            Ok(Self { begin: EncodedVersion::from(lhs), end: EncodedVersion::from(rhs) })
        } else {
            Err(EmptyRangeError)
        }
    }
}

/// A map from ranges of versions to values.
pub struct RangeMap<V> {
    inner: BTreeMap<CoreRange, V>,
}

impl<V> View for RangeMap<V> {
    type V = Map<CoreRange, V>;

    closed spec fn view(&self) -> Map<CoreRange, V> {
        self.inner@
    }
}

impl<V> RangeMap<V> {
    /// A map without a range.
    pub fn empty() -> (map: Self)
        ensures
            map@ == Map::<CoreRange, V>::empty(),
    {
        Self { inner: BTreeMap::new() }
    }
}

} // verus!
