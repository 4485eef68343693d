//! What a reader of `package.json` offers.
use vstd::prelude::*;

use crate::strmap::StrMap;

verus! {

/// A source of the dependencies of a project.
pub trait PackageJson {
    fn get_dependencies(&self) -> StrMap<String>;
}

} // verus!
