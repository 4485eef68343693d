//! What the resolver knows of packages: the registry's record of a version,
//! the metadata recorded while resolving, and their binaries.
use vstd::prelude::*;

use crate::cache::RegistryKey;
use crate::common::remote_package::Distribution;
use crate::strmap::StrMap;

verus! {

/// One version of a package, as the registry gives it.
pub struct NpmPackage {
    pub name: String,
    pub version: String,
    pub dependencies: Option<StrMap<String>>,
    pub dist: Distribution,
}

/// The binaries a package declares: one file, or files by command name.
pub enum BinType {
    Bin(String),
    BinMappings(StrMap<String>),
}

/// A binary of a dependency, as the package that needs it sees it.
#[derive(Debug)]
pub struct ResolvedBinary {
    pub name: String,
    pub path: String,
    pub package_name: String,
}

/// What is recorded of a package while resolving.
pub struct PackageMetaRecorder {
    pub name: String,
    pub bin: Option<BinType>,
    /// The paths from a main package down to this one, each a list of keys
    /// from the top.
    pub depth_traces: Option<Vec<Vec<RegistryKey>>>,
    /// Its direct dependencies: name to version.
    pub resolved_dependencies: Option<StrMap<String>>,
    pub resolved_binaries: Option<Vec<ResolvedBinary>>,
}

/// The packages of a resolution: those asked for, and what they need.
pub struct PackageRecorder {
    pub main_packages: Vec<(RegistryKey, PackageMetaRecorder)>,
    pub sub_dependencies: Vec<(RegistryKey, PackageMetaRecorder)>,
}

/// The parts of `package.json` the installer reads.
pub struct PackageJson {
    pub dependencies: Option<StrMap<String>>,
    /// The field `devDependencies`.
    pub dev_dependencies: Option<StrMap<String>>,
    /// The field `optionalDependencies`.
    pub optional_dependencies: Option<StrMap<String>>,
    pub scripts: Option<StrMap<String>>,
}

} // verus!
