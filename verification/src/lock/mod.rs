pub mod file;
pub mod shape;

pub use file::LockFile;
pub use shape::LockShape;
