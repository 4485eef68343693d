//! Unpacking archives (the unpacking itself is done by the program).
use vstd::prelude::*;

verus! {

/// Unpacks `.tgz` archives.
pub struct Gzip;

} // verus!
