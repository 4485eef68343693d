use craft::lockfile::lock_file_actor::{LockFileActor, ResolvedItem};
use craft::lockfile::lockfile_structure::{
    default_lockfile_version, EnginesType, ImporterSections, IntegrityResolution,
    LockfileStructure, PackageMetaHandler, ResolvedDependency,
};
use craft::common::remote_package::Distribution;
use craft::package::NpmPackage;
use craft::strmap::StrMap;

fn dist() -> Distribution {
    Distribution {
        integrity: String::new(),
        shasum: String::new(),
        tarball: String::new(),
        file_count: None,
        unpacked_size: None,
    }
}

fn item(name: &str, version: &str, parent: Option<&str>, specifier: &str) -> ResolvedItem {
    ResolvedItem {
        package: NpmPackage {
            name: name.to_string(),
            version: version.to_string(),
            dependencies: None,
            dist: dist(),
        },
        parent: parent.map(|p| p.to_string()),
        specifier: specifier.to_string(),
    }
}

fn empty_meta() -> PackageMetaHandler {
    PackageMetaHandler {
        dependencies: None,
        peer_dependencies: None,
        peer_dependencies_meta: None,
        resolved_dependencies: None,
        has_bin: None,
        resolution: None,
        engines: None,
        cpu: None,
        os: None,
    }
}

#[test]
fn default_lockfile_text() {
    let l = LockfileStructure::default();
    assert_eq!(
        l.write_to_string(),
        "lockfileVersion: '9.0'\n\nsettings:\n  autoInstallPeers: true\n  excludeLinksFromLockfile: false\n"
    );
    assert_eq!(default_lockfile_version(), "9.0");
}

#[test]
fn importers_written_and_quoted() {
    let (tx, _rx) = std::sync::mpsc::channel();
    let actor = LockFileActor::new(
        tx,
        vec![
            item("@types/node", "20.0.0", None, "^20"),
            item("left-pad", "1.3.0", Some("x"), "1.3.0"),
        ],
    );
    let mut l = LockfileStructure::default();
    l.settings = None;
    assert!(actor.handle_importers(&mut l).is_ok());
    assert_eq!(
        l.write_to_string(),
        "lockfileVersion: '9.0'\n\nimporters: \n\n  .:\n    dependencies:\n      '@types/node':\n        specifier: ^20\n        version: 20.0.0\n"
    );
}

#[test]
fn importers_keep_earlier_dependencies() {
    let (tx, _rx) = std::sync::mpsc::channel();
    let actor = LockFileActor::new(tx, vec![item("b", "2.0.0", None, "2")]);
    let mut deps = StrMap::new();
    deps.insert(
        "a".to_string(),
        ResolvedDependency { specifier: "1".to_string(), version: "1.0.0".to_string() },
    );
    let mut importers = StrMap::new();
    importers.insert(
        ".".to_string(),
        ImporterSections {
            dependencies: Some(deps),
            dev_dependencies: None,
            optional_dependencies: None,
            peer_dependencies: None,
        },
    );
    let mut l = LockfileStructure::default();
    l.settings = None;
    l.importers = Some(importers);
    actor.handle_importers(&mut l).unwrap();
    let text = l.write_to_string();
    assert!(text.contains("      a:\n        specifier: 1\n        version: 1.0.0\n      b:\n        specifier: 2\n        version: 2.0.0\n"));
}

#[test]
fn packages_and_snapshots() {
    let mut packages = StrMap::new();
    let mut m = empty_meta();
    m.resolution = Some(IntegrityResolution { integrity: "sha512-x".to_string() });
    let mut engines = StrMap::new();
    engines.insert("node".to_string(), ">=8".to_string());
    m.engines = Some(EnginesType::EngineMap(engines));
    m.cpu = Some(vec!["x64".to_string(), "arm64".to_string()]);
    m.has_bin = Some(true);
    packages.insert("a@1.0.0".to_string(), m);
    packages.insert("b@2.0.0".to_string(), empty_meta());
    let mut l = LockfileStructure::default();
    l.settings = None;
    l.packages = Some(packages);
    assert_eq!(
        l.write_to_string(),
        "lockfileVersion: '9.0'\n\npackages:\n\n  a@1.0.0:\n    resolution: {integrity: sha512-x}\n    engines: {node: '>=8'}\n    cpu: [x64, arm64]\n    hasBin: true\n\n  b@2.0.0:\n\nsnapshots:\n\n  a@1.0.0:\n    cpu: [x64, arm64]\n    hasBin: true\n\n  b@2.0.0: {}\n"
    );
}

#[test]
fn importers_twice_same_as_once() {
    let (tx, _rx) = std::sync::mpsc::channel();
    let actor = LockFileActor::new(
        tx,
        vec![item("a", "1.0.0", None, "1"), item("a", "1.1.0", None, "^1"), item("b", "2.0.0", None, "2")],
    );
    let mut l = LockfileStructure::default();
    actor.handle_importers(&mut l).unwrap();
    let once = l.write_to_string();
    actor.handle_importers(&mut l).unwrap();
    assert_eq!(l.write_to_string(), once);
    assert!(once.contains("      a:\n        specifier: ^1\n        version: 1.1.0\n"));
}
