//! craft: a package manager for the npm ecosystem. This crate holds its
//! logic: package specifications, version constraints, the configuration,
//! the caches and the lockfile.
use vstd::prelude::*;

pub mod actors;
pub mod cache;
pub mod cmd;
pub mod command;
pub mod common;
pub mod conf_agree;
pub mod contracts;
pub mod errors;
pub mod executors;
pub mod fs;
pub mod jobs;
pub mod lock;
pub mod lockfile;
pub mod npm_conf;
pub mod package;
pub mod pattern;
pub mod pipeline;
pub mod registry;
pub mod strmap;
pub mod text;
pub mod version_check;

verus! {

} // verus!
