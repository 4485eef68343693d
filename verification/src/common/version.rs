//! A version number.
use vstd::prelude::*;

verus! {

/// A version `major.minor.patch`.
#[derive(Debug, Clone, Copy, PartialEq, Eq, Structural)]
pub struct PackageVersion {
    pub major: u64,
    pub minor: u64,
    pub patch: u64,
}

impl PackageVersion {
    pub fn new(major: u64, minor: u64, patch: u64) -> (r: Self)
        ensures
            r == (PackageVersion { major, minor, patch }),
    {
        Self { major, minor, patch }
    }
}

} // verus!
