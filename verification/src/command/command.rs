//! The first form of the command line: `install <package>` and `cache clean`.
use vstd::prelude::*;

verus! {

#[derive(Debug, Clone)]
pub struct Command {
    pub command: Option<SubCommand>,
}

#[derive(Debug, Clone)]
pub enum SubCommand {
    Install(Install),
    Cache(CacheAction),
}

#[derive(Debug, Clone)]
pub struct Install {
    pub package: String,
}

#[derive(Debug, Clone, Copy, PartialEq, Eq, Structural)]
pub enum CacheAction {
    Clean,
}

} // verus!
