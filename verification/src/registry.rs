//! The npm registry the installer asks for packages.
use vstd::prelude::*;

verus! {

/// A registry, at the default address unless one is given.
#[derive(Debug)]
pub struct NpmRegistry {
    pub url: Option<String>,
}

impl NpmRegistry {
    pub fn new(url: Option<String>) -> (r: Self)
        ensures
            r.url == url,
    {
        NpmRegistry { url }
    }
}

} // verus!
