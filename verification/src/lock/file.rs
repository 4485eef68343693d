//! The installed packages, as the lock file lists them.
use vstd::prelude::*;

use crate::package::NpmPackage;

verus! {

/// The packages of the lock file.
pub struct LockFile {
    pub packages: Vec<NpmPackage>,
}

impl Default for LockFile {
    fn default() -> (r: Self)
        ensures
            r.packages@.len() == 0,
    {
        LockFile { packages: Vec::new() }
    }
}

} // verus!
