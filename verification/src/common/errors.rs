//! The errors of the package helpers: each carries the reason as text.
use vstd::prelude::*;

verus! {

/// A version that does not read.
#[derive(Debug)]
pub struct VersionError {
    pub reason: String,
}

/// A `package.json` that does not read.
#[derive(Debug)]
pub struct JsonError {
    pub reason: String,
}

/// A package the registry does not know.
#[derive(Debug)]
pub struct PackageNotFoundError {
    pub reason: String,
}

/// An archive that could not be fetched.
#[derive(Debug)]
pub struct GzipDownloadError {
    pub reason: String,
}

/// An archive that could not be unpacked.
#[derive(Debug)]
pub struct UnzipError {
    pub reason: String,
}

/// A package that could not be installed.
#[derive(Debug)]
pub struct InstallError {
    pub reason: String,
}

/// A package that could not be removed.
#[derive(Debug)]
pub struct UninstallError {
    pub reason: String,
}

impl VersionError {
    pub fn new(reason: String) -> (r: VersionError)
        ensures
            r.reason == reason,
    {
        VersionError { reason }
    }
}

impl JsonError {
    pub fn new(reason: String) -> (r: JsonError)
        ensures
            r.reason == reason,
    {
        JsonError { reason }
    }
}

impl PackageNotFoundError {
    pub fn new(reason: String) -> (r: PackageNotFoundError)
        ensures
            r.reason == reason,
    {
        PackageNotFoundError { reason }
    }
}

impl GzipDownloadError {
    pub fn new(reason: String) -> (r: GzipDownloadError)
        ensures
            r.reason == reason,
    {
        GzipDownloadError { reason }
    }
}

impl UnzipError {
    pub fn new(reason: String) -> (r: UnzipError)
        ensures
            r.reason == reason,
    {
        UnzipError { reason }
    }
}

impl InstallError {
    pub fn new(reason: String) -> (r: InstallError)
        ensures
            r.reason == reason,
    {
        InstallError { reason }
    }
}

impl UninstallError {
    pub fn new(reason: String) -> (r: UninstallError)
        ensures
            r.reason == reason,
    {
        UninstallError { reason }
    }
}

} // verus!
