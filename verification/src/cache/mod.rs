pub mod graph;
pub mod manager;
pub mod packages;
pub mod registry;

pub use graph::DependencyGraph;
pub use manager::CacheManager;
pub use packages::PackagesCache;
pub use registry::{convert_to_registry_key, RegistryCache, RegistryKey};
