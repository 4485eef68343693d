pub mod file_config;
pub mod modules;
pub mod project;

pub use modules::NodeModules;
pub use project::Project;
