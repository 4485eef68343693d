//! The job that cleans the caches.
use vstd::prelude::*;

use crate::cache::CacheManager;

verus! {

/// Cleans the caches of its manager.
pub struct CacheJob {
    pub manager: CacheManager,
}

impl CacheJob {
    /// With the manager given, or a new one over the two directories.
    pub fn new(manager: Option<CacheManager>, registry_directory: String, packages_directory: String) -> (r: Self)
        ensures
            match manager {
                Some(m) => r.manager == m,
                None => r.manager.registry.directory == registry_directory
                    && r.manager.packages.directory == packages_directory
                    && r.manager.registry.cache@.len() == 0 && r.manager.packages.cache@.len() == 0
                    && r.manager.packages.downloaded_modules@.len() == 0
                    && r.manager.graph.packages@.len() == 0 && r.manager.graph.dependencies@.len() == 0,
            },
    {
        let manager = match manager {
            Some(manager) => manager,
            None => CacheManager::new(registry_directory, packages_directory),
        };
        Self { manager }
    }
}

} // verus!
