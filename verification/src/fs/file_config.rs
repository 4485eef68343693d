//! Where the installer keeps its files.
use vstd::prelude::*;

use crate::cache::packages::{join_path, path_join};

verus! {

/// `path` below `CRAFT_HOME_DIR` when it is set, else below the home
/// directory; none when neither is known.
pub fn get_config_dir(craft_home_dir: Option<&str>, home: Option<&str>, path: &str) -> (r: Option<String>)
    ensures
        match craft_home_dir {
            Some(c) => r matches Some(p) && p@ == path_join(c@, path@),
            None => match home {
                Some(h) => r matches Some(p) && p@ == path_join(h@, path@),
                None => r is None,
            },
        },
{
    match craft_home_dir {
        Some(c) => Some(join_path(c, path)),
        None => match home {
            Some(h) => Some(join_path(h, path)),
            None => None,
        },
    }
}

} // verus!
