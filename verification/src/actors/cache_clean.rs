//! Cleaning the caches.
use vstd::prelude::*;

use crate::command::CacheAction;

verus! {

/// Runs a `cache` action.
pub struct CacheCleanActor {
    pub action: CacheAction,
}

impl CacheCleanActor {
    pub fn new(action: CacheAction) -> (r: Self)
        ensures
            r.action == action,
    {
        CacheCleanActor { action }
    }
}

} // verus!
