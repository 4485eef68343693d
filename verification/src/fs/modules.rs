//! The `node_modules` directory.
use vstd::prelude::*;

use crate::common::remote_package::RemotePackage;
use crate::cache::packages::{join_path, path_join};
use crate::text::{owned, push_char, push_str};

verus! {

/// The directory packages are installed in.
#[derive(Debug)]
pub struct NodeModules {
    pub path: String,
}

/// What fetching a package's archive comes to.
#[derive(Debug)]
pub enum DownloadStep {
    /// The archive is there already; its file name.
    AlreadyFetched(String),
    /// Fetch `url` into `path`.
    Fetch { url: String, path: String },
}

/// What unpacking a package's archive comes to.
#[derive(Debug)]
pub enum UnzipStep {
    /// There is no archive: the error's message.
    Missing(String),
    /// The package is installed already: remove the archive and the
    /// unpacking folder.
    CleanUp { archive: String, folder: String },
    /// Unpack `archive` into `folder`, move `folder/package` to `target`,
    /// then remove the archive and the folder.
    Unpack { archive: String, folder: String, unpacked: String, target: String },
}

/// `Package name@version not found`.
pub open spec fn not_found_message(name: Seq<char>, version: Seq<char>) -> Seq<char> {
    "Package "@ + name + seq!['@'] + version + " not found"@
}

/// `name-version.tgz`.
pub open spec fn gzip_name(name: Seq<char>, version: Seq<char>) -> Seq<char> {
    name + seq!['-'] + version + ".tgz"@
}

impl NodeModules {
    pub fn new(path: &str) -> (r: Self)
        ensures
            r.path@ == path@,
    {
        Self { path: owned(path) }
    }

    /// The file name of a package's archive.
    pub fn get_gzip_name(&self, package: &RemotePackage) -> (r: String)
        ensures
            r@ == gzip_name(package.name@, package.version@),
    {
        let mut r = String::new();
        push_str(&mut r, package.name.as_str());
        push_char(&mut r, '-');
        push_str(&mut r, package.version.as_str());
        push_str(&mut r, ".tgz");
        r
    }

    /// `.craft` in the directory: where archives are fetched and unpacked.
    pub fn temporary_folder(&self) -> (r: String)
        ensures
            r@ == path_join(self.path@, ".craft"@),
    {
        join_path(self.path.as_str(), ".craft")
    }

    /// Where a package's archive is fetched to.
    pub fn archive_path(&self, package: &RemotePackage) -> (r: String)
        ensures
            r@ == path_join(path_join(self.path@, ".craft"@), gzip_name(package.name@, package.version@)),
    {
        let t = self.temporary_folder();
        let name = self.get_gzip_name(package);
        join_path(t.as_str(), name.as_str())
    }

    /// Where a package's archive is unpacked.
    pub fn unzip_folder(&self, package: &RemotePackage) -> (r: String)
        ensures
            r@ == path_join(path_join(self.path@, ".craft"@), package.name@),
    {
        let t = self.temporary_folder();
        join_path(t.as_str(), package.name.as_str())
    }

    /// Where an installed package lives.
    pub fn final_path(&self, package: &RemotePackage) -> (r: String)
        ensures
            r@ == path_join(self.path@, package.name@),
    {
        join_path(self.path.as_str(), package.name.as_str())
    }

    /// The folder `remove_package` removes.
    pub fn package_folder(&self, package: &str) -> (r: String)
        ensures
            r@ == path_join(path_join(self.path@, "node_modules"@), package@),
    {
        let m = join_path(self.path.as_str(), "node_modules");
        join_path(m.as_str(), package)
    }

    /// The message when a package's archive cannot be had.
    pub fn not_found(&self, package: &RemotePackage) -> (r: String)
        ensures
            r@ == not_found_message(package.name@, package.version@),
    {
        let mut r = owned("Package ");
        push_str(&mut r, package.name.as_str());
        push_char(&mut r, '@');
        push_str(&mut r, package.version.as_str());
        push_str(&mut r, " not found");
        r
    }

    /// Fetching a package's archive: nothing to do when it is there, else
    /// its tarball into the temporary folder.
    pub fn download_step(&self, package: &RemotePackage, archive_exists: bool) -> (r: DownloadStep)
        ensures
            archive_exists ==> (r matches DownloadStep::AlreadyFetched(n) && n@ == gzip_name(
                package.name@,
                package.version@,
            )),
            !archive_exists ==> (r matches DownloadStep::Fetch { url, path } && url@
                == package.dist.tarball@ && path@ == path_join(
                path_join(self.path@, ".craft"@),
                gzip_name(package.name@, package.version@),
            )),
    {
        if archive_exists {
            DownloadStep::AlreadyFetched(self.get_gzip_name(package))
        } else {
            DownloadStep::Fetch { url: package.dist.tarball.clone(), path: self.archive_path(package) }
        }
    }

    /// Unpacking a package's archive: an error without an archive; only
    /// cleaning up when the package is installed already; else unpacking.
    pub fn unzip_step(&self, package: &RemotePackage, archive_exists: bool, final_exists: bool) -> (r: UnzipStep)
        ensures
            !archive_exists ==> (r matches UnzipStep::Missing(m) && m@ == not_found_message(
                package.name@,
                package.version@,
            )),
            archive_exists && final_exists ==> (r matches UnzipStep::CleanUp { archive, folder }
                && archive@ == path_join(
                path_join(self.path@, ".craft"@),
                gzip_name(package.name@, package.version@),
            ) && folder@ == path_join(path_join(self.path@, ".craft"@), package.name@)),
            archive_exists && !final_exists ==> (r matches UnzipStep::Unpack {
                archive,
                folder,
                unpacked,
                target,
            } && archive@ == path_join(
                path_join(self.path@, ".craft"@),
                gzip_name(package.name@, package.version@),
            ) && folder@ == path_join(path_join(self.path@, ".craft"@), package.name@) && unpacked@
                == path_join(folder@, "package"@) && target@ == path_join(self.path@, package.name@)),
    {
        if !archive_exists {
            return UnzipStep::Missing(self.not_found(package));
        }
        let archive = self.archive_path(package);
        let folder = self.unzip_folder(package);
        if final_exists {
            return UnzipStep::CleanUp { archive, folder };
        }
        let unpacked = join_path(folder.as_str(), "package");
        let target = self.final_path(package);
        UnzipStep::Unpack { archive, folder, unpacked, target }
    }
}

} // verus!
