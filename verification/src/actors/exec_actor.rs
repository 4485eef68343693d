//! Running a binary of an installed package (`node_modules/.bin`).
use vstd::prelude::*;

use crate::text::{owned, push_char, push_str};

verus! {

/// Runs `script` with `args`.
pub struct ExecActor {
    pub script: String,
    pub args: Option<Vec<String>>,
}

impl ExecActor {
    pub fn new(script: String, args: Option<Vec<String>>) -> (r: Self)
        ensures
            r.script == script,
            r.args == args,
    {
        Self { script, args }
    }
}

/// The kind of script file the platform runs.
#[derive(Debug, Clone, Copy, PartialEq, Eq, Structural)]
pub enum ScriptType {
    Bash,
    Cmd,
    Pwsh,
}

pub open spec fn script_ending(t: ScriptType) -> Seq<char> {
    match t {
        ScriptType::Bash => Seq::empty(),
        ScriptType::Cmd => "cmd"@,
        ScriptType::Pwsh => "ps1"@,
    }
}

impl ScriptType {
    /// The file extension of such scripts: none, `cmd` or `ps1`.
    pub fn get_script_ending(&self) -> (r: String)
        ensures
            r@ == script_ending(*self),
    {
        match self {
            ScriptType::Bash => String::new(),
            ScriptType::Cmd => owned("cmd"),
            ScriptType::Pwsh => owned("ps1"),
        }
    }
}

/// PowerShell scripts on Windows when `PSModulePath` is set, else `cmd`;
/// shell scripts elsewhere.
pub fn get_file_ending_for_running(windows: bool, ps_module_path_set: bool) -> (r: ScriptType)
    ensures
        r == (if windows {
            if ps_module_path_set {
                ScriptType::Pwsh
            } else {
                ScriptType::Cmd
            }
        } else {
            ScriptType::Bash
        }),
{
    if windows {
        if ps_module_path_set {
            ScriptType::Pwsh
        } else {
            ScriptType::Cmd
        }
    } else {
        ScriptType::Bash
    }
}

/// The name of the file to look for: `script.ending` (a shell script
/// `script.`).
pub fn script_file_name(script: &str, t: ScriptType) -> (r: String)
    ensures
        r@ == script@ + seq!['.'] + script_ending(t),
{
    let mut r = String::new();
    push_str(&mut r, script);
    push_char(&mut r, '.');
    let e = t.get_script_ending();
    push_str(&mut r, e.as_str());
    r
}

/// The program and arguments that run the script file at `path`:
/// `sh -c path`, `cmd /C path` or `pwsh -File path`, then the extra
/// arguments.
pub fn script_command(t: ScriptType, path: &str, args: &Option<Vec<String>>) -> (r: (String, Vec<String>))
    ensures
        r.0@ == match t {
            ScriptType::Bash => "sh"@,
            ScriptType::Cmd => "cmd"@,
            ScriptType::Pwsh => "pwsh"@,
        },
        r.1@.len() >= 2,
        r.1@[0]@ == match t {
            ScriptType::Bash => "-c"@,
            ScriptType::Cmd => "/C"@,
            ScriptType::Pwsh => "-File"@,
        },
        r.1@[1]@ == path@,
        r.1@.skip(2) == match args {
            Some(a) => a@,
            None => Seq::empty(),
        },
{
    let mut v: Vec<String> = Vec::new();
    let program = match t {
        ScriptType::Bash => {
            v.push(owned("-c"));
            owned("sh")
        },
        ScriptType::Cmd => {
            v.push(owned("/C"));
            owned("cmd")
        },
        ScriptType::Pwsh => {
            v.push(owned("-File"));
            owned("pwsh")
        },
    };
    v.push(owned(path));
    if let Some(a) = args {
        let mut i: usize = 0;
        while i < a.len()
            invariant
                i <= a@.len(),
                v@.len() == 2 + i,
                v@.skip(2) == a@.take(i as int),
                v@[1]@ == path@,
                v@[0]@ == match t {
                    ScriptType::Bash => "-c"@,
                    ScriptType::Cmd => "/C"@,
                    ScriptType::Pwsh => "-File"@,
                },
            decreases a@.len() - i,
        {
            v.push(a[i].clone());
            i = i + 1;
            assert(v@.skip(2) =~= a@.take(i as int));
        }
        assert(a@.take(a@.len() as int) =~= a@);
    } else {
        assert(v@.skip(2) =~= Seq::<String>::empty());
    }
    (program, v)
}

} // verus!
