//! Packages and the dependencies of each, by name and version.
use vstd::prelude::*;

use crate::strmap::StrMap;

verus! {

/// A package is known by name and version, so that a dependency shared by
/// several packages is fetched once.
pub struct DependencyGraph {
    pub packages: Vec<String>,
    pub dependencies: StrMap<Vec<String>>,
}

impl DependencyGraph {
    /// An empty graph.
    pub fn new() -> (r: Self)
        ensures
            r.packages@.len() == 0,
            r.dependencies@.len() == 0,
    {
        Self { packages: Vec::new(), dependencies: StrMap::new() }
    }
}

} // verus!
