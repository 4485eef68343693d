//! Running a script of the project through the shell.
use vstd::prelude::*;

use crate::cache::packages::{join_path, path_join};
use crate::text::owned;

verus! {

/// Runs `script`, in the directory `cwd` below the current one if given.
pub struct RunActor {
    pub script: String,
    pub cwd: Option<String>,
}

impl RunActor {
    pub fn new(script: String, cwd: Option<String>) -> (r: Self)
        ensures
            r.script == script,
            r.cwd == cwd,
    {
        Self { script, cwd }
    }

    /// The directory the script runs in: the current one, joined with
    /// `cwd` when given.
    pub fn exec_directory(&self, current: &str) -> (r: String)
        ensures
            r@ == match self.cwd {
                Some(c) => path_join(current@, c@),
                None => current@,
            },
    {
        match &self.cwd {
            Some(c) => join_path(current, c.as_str()),
            None => owned(current),
        }
    }

    /// The program and its arguments: `cmd /C script` on Windows, else
    /// `sh -c script`.
    pub fn shell_command(&self, windows: bool) -> (r: (String, Vec<String>))
        ensures
            windows ==> r.0@ == "cmd"@ && r.1@.len() == 2 && r.1@[0]@ == "/C"@ && r.1@[1] == self.script,
            !windows ==> r.0@ == "sh"@ && r.1@.len() == 2 && r.1@[0]@ == "-c"@ && r.1@[1] == self.script,
    {
        let mut args: Vec<String> = Vec::new();
        if windows {
            args.push(owned("/C"));
            args.push(self.script.clone());
            (owned("cmd"), args)
        } else {
            args.push(owned("-c"));
            args.push(self.script.clone());
            (owned("sh"), args)
        }
    }
}

} // verus!
