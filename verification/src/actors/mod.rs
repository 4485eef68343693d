pub mod cache_clean;
pub mod exec_actor;
pub mod install;
pub mod peer_resolver;
pub mod preprocesse_dependency_install;
pub mod run;

pub use cache_clean::CacheCleanActor;
pub use exec_actor::ExecActor;
pub use install::{InstallActor, PackageType};
pub use peer_resolver::PeerResolver;
pub use preprocesse_dependency_install::PreprocessDependencyInstall;
pub use run::RunActor;
