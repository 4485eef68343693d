//! The project's `package.json`.
use vstd::prelude::*;

use crate::strmap::StrMap;

verus! {

/// The dependencies and version of the project.
pub struct Project {
    pub dependencies: StrMap<String>,
    /// The field `devDependencies`.
    pub dev_dependencies: StrMap<String>,
    pub version: Option<String>,
}

} // verus!
