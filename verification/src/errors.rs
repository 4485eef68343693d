//! The error types of the package manager.
use vstd::prelude::*;

verus! {

/// `std::io::Error`, carried in errors unread.
#[verifier::external_type_specification]
#[verifier::external_body]
pub struct ExIoError(std::io::Error);

/// Errors of the package caches.
#[derive(Debug)]
pub enum CacheError {
    /// "Failed to manage cache directory"
    FileSystemError(std::io::Error),
    /// "Failed to manage cache directory"
    CacheError,
}

/// Errors of the commands.
#[derive(Debug)]
pub enum ExecutionError {
    /// "Failed to execute job {0}: Reason: {1}"
    JobExecutionFailed(String, String),
    /// "Failed to find pacakge.json in current working directory"
    PackageJsonNotFound,
    /// "Failed to find script {0}"
    ScriptNotFound(String),
    /// "Failed to find a script in node_modules/.bin"
    NoScriptsFound,
    /// "Failed to parse .npmrc file"
    ConfigError(String),
}

/// Errors of the lockfile.
#[derive(Debug)]
pub enum LockfileError {
    /// "Error reading file {0}"
    FileReadError(String),
    /// "Error writing file {0}"
    FileWriteError(String),
    /// "Error file contains invalid structure {0}"
    InvalidStructure(String),
}

/// Errors about versions of packages.
#[derive(Debug)]
pub enum VersionError {
    /// "Failed to fetch version {0} of package {1} from registry"
    NotFound(String, String),
    /// "Failed to parse version {0} of package {1}, reason: {2}"
    Parse(String, String, String),
}

/// Errors of unpacking archives.
#[derive(Debug)]
pub enum ZipError {
    /// "Failed to open file"
    FailedToOpen(std::io::Error),
    /// "Failed to unzip file"
    FailedToUnzip(String),
}

} // verus!
