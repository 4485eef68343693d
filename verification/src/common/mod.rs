pub mod contracts;
pub mod errors;
pub mod downloader;
pub mod gzip;
pub mod package;
pub mod remote_package;
pub mod version;

pub use downloader::Downloader;
pub use gzip::Gzip;
