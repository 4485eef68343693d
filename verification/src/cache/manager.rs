//! All the caches of the package manager together.
use vstd::prelude::*;

use crate::cache::{DependencyGraph, PackagesCache, RegistryCache};

verus! {

/// The registry cache, the cache of unpacked packages and the dependency
/// graph.
pub struct CacheManager {
    pub registry: RegistryCache,
    pub packages: PackagesCache,
    pub graph: DependencyGraph,
}

impl CacheManager {
    /// Empty caches kept in the two directories.
    pub fn new(registry_directory: String, packages_directory: String) -> (r: Self)
        ensures
            r.registry.directory == registry_directory,
            r.registry.cache@.len() == 0,
            r.packages.directory == packages_directory,
            r.packages.cache@.len() == 0,
            r.packages.downloaded_modules@.len() == 0,
            r.graph.packages@.len() == 0,
            r.graph.dependencies@.len() == 0,
    {
        Self {
            registry: RegistryCache::new(registry_directory),
            packages: PackagesCache::new(packages_directory),
            graph: DependencyGraph::new(),
        }
    }
}

} // verus!
