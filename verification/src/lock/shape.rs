//! One entry of the lock file.
use vstd::prelude::*;

use crate::package::NpmPackage;

verus! {

pub struct LockShape {
    pub package: NpmPackage,
}

} // verus!
