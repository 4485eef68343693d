use craft::actors::peer_resolver::PeerResolver;
use craft::cache::RegistryKey;
use craft::package::{BinType, PackageMetaRecorder, PackageRecorder};
use craft::strmap::StrMap;

fn key(name: &str, version: &str) -> RegistryKey {
    RegistryKey { name: name.to_string(), version: version.to_string() }
}

fn meta(name: &str, bin: Option<BinType>, traces: Option<Vec<Vec<RegistryKey>>>) -> PackageMetaRecorder {
    PackageMetaRecorder {
        name: name.to_string(),
        bin,
        depth_traces: traces,
        resolved_dependencies: None,
        resolved_binaries: None,
    }
}

#[test]
fn handle_insert_single_binary() {
    let mut req = meta("app", None, None);
    let outer = meta("tool", Some(BinType::Bin("bin/tool.js".to_string())), None);
    PeerResolver::handle_insert(&mut req, &key("tool", "1.0.0"), &outer);
    let deps = req.resolved_dependencies.as_ref().unwrap();
    assert_eq!(deps.get("tool").unwrap(), "1.0.0");
    let bins = req.resolved_binaries.as_ref().unwrap();
    assert_eq!(bins.len(), 1);
    assert_eq!(bins[0].name, "tool");
    assert_eq!(bins[0].path, "tool/bin/tool.js");
    assert_eq!(bins[0].package_name, "tool");
}

#[test]
fn handle_insert_mapped_binaries() {
    let mut req = meta("app", None, None);
    let mut m = StrMap::new();
    m.insert("b".to_string(), "cli/b.js".to_string());
    m.insert("a".to_string(), "cli/a.js".to_string());
    let outer = meta("tool", Some(BinType::BinMappings(m)), None);
    PeerResolver::handle_insert(&mut req, &key("tool", "2.0.0"), &outer);
    let bins = req.resolved_binaries.as_ref().unwrap();
    assert_eq!(bins.len(), 2);
    assert_eq!(bins[0].name, "a");
    assert_eq!(bins[1].path, "tool/cli/b.js");
    let without = meta("lib", None, None);
    PeerResolver::handle_insert(&mut req, &key("lib", "1.0.0"), &without);
    assert_eq!(req.resolved_binaries.as_ref().unwrap().len(), 2);
    assert_eq!(req.resolved_dependencies.as_ref().unwrap().len(), 2);
}

#[test]
fn run_records_in_direct_parents() {
    let recorder = PackageRecorder {
        main_packages: vec![(key("app", "1.0.0"), meta("app", None, None))],
        sub_dependencies: vec![
            (
                key("mid", "1.0.0"),
                meta("mid", None, Some(vec![vec![key("app", "1.0.0")]])),
            ),
            (
                key("leaf", "2.0.0"),
                meta(
                    "leaf",
                    Some(BinType::Bin("leaf.js".to_string())),
                    Some(vec![vec![key("app", "1.0.0"), key("mid", "1.0.0")], vec![]]),
                ),
            ),
        ],
    };
    let out = PeerResolver::new(recorder).run().ok().unwrap();
    let app = &out.main_packages[0].1;
    assert_eq!(app.resolved_dependencies.as_ref().unwrap().get("mid").unwrap(), "1.0.0");
    assert!(app.resolved_binaries.is_none());
    let mid = &out.sub_dependencies[0].1;
    assert_eq!(mid.resolved_dependencies.as_ref().unwrap().get("leaf").unwrap(), "2.0.0");
    assert_eq!(mid.resolved_binaries.as_ref().unwrap()[0].name, "leaf");
}
