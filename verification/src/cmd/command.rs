//! The command line of the first installer: `install <package>`, with
//! `--verbose`.
use vstd::prelude::*;

verus! {

#[derive(Debug)]
pub struct Command {
    pub command: Option<SubCommand>,
    /// `--verbose`, `-v`.
    pub verbose: bool,
}

#[derive(Debug)]
pub enum SubCommand {
    Install(Install),
}

#[derive(Debug)]
pub struct Install {
    pub package: String,
}

} // verus!
