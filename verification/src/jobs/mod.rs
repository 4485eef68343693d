pub mod cache;

pub use cache::CacheJob;
