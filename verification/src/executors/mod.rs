pub mod install;

pub use install::InstallActions;
