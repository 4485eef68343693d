//! A package as the registry describes it.
use vstd::prelude::*;

use crate::strmap::StrMap;

verus! {

/// A package from the registry.
pub struct RemotePackage {
    pub name: String,
    pub version: String,
    pub dependencies: StrMap<String>,
    /// The field `devDependencies`.
    pub dev_dependencies: StrMap<String>,
    pub dist: Distribution,
}

/// Where the archive of a package is, and how to check it.
pub struct Distribution {
    pub integrity: String,
    pub shasum: String,
    pub tarball: String,
    /// The field `fileCount`.
    pub file_count: Option<u64>,
    /// The field `unpackedSize`.
    pub unpacked_size: Option<u64>,
}

} // verus!
