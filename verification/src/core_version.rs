//! The two-component version under the name that version ranges know it by.

use crate::version::full::FullVersion;
use vstd::prelude::*;

verus! {

/// A two-component `major.minor` version, the core of a version number.
///
/// It keeps the first two components of a semantic version and has neither a
/// patch number nor labels. Ranges of versions are made of these: see
/// [`crate::range`].
#[derive(Copy, Clone, Debug, Eq, Hash, Ord, PartialEq, PartialOrd, Structural)]
pub struct CoreVersion {
    /// Incremented when a public API changes incompatibly; `0` marks an
    /// unstable initial development version.
    pub major: u64,
    /// Incremented when a public API grows compatibly.
    pub minor: u64,
}

impl CoreVersion {
    /// A version number with the components `major` and `minor`.
    pub fn new(major: u64, minor: u64) -> (version: Self)
        ensures
            version == (CoreVersion { major, minor }),
    {
        Self { major, minor }
    }

    /// The full version with the same `major` and `minor`. A core version
    /// knows no patch number, so `patch` becomes `0`.
    pub fn to_full_version_lossy(self) -> (full: FullVersion)
        ensures
            full == (FullVersion { major: self.major, minor: self.minor, patch: 0 }),
    {
        FullVersion { major: self.major, minor: self.minor, patch: 0 }
    }
}

impl From<(u64, u64)> for CoreVersion {
    fn from(tuple: (u64, u64)) -> (version: Self) {
        CoreVersion { major: tuple.0, minor: tuple.1 }
    }
}

impl vstd::std_specs::convert::FromSpecImpl<(u64, u64)> for CoreVersion {
    open spec fn obeys_from_spec() -> bool {
        true
    }

    open spec fn from_spec(tuple: (u64, u64)) -> Self {
        CoreVersion { major: tuple.0, minor: tuple.1 }
    }
}

} // verus!
