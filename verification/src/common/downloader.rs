//! Fetching archives (the transfer itself is done by the program).
use vstd::prelude::*;

verus! {

/// Downloads files.
pub struct Downloader;

} // verus!
