pub mod args;
pub mod command;

pub use args::{
    CacheAction, Command, ConfigGet, ConfigList, ConfigSet, ConfigSubCommand, Exec, Install,
    ProgramDesire, Run, SubCommand,
};
