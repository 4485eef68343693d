use craft::cache::registry::{cache_file_name, cache_name_of_file};
use craft::cache::packages::join_path;
use craft::cache::{convert_to_registry_key, CacheManager, PackagesCache, RegistryCache, RegistryKey};
use craft::common::remote_package::Distribution;
use craft::package::NpmPackage;
use craft::strmap::StrMap;

fn pkg(name: &str, version: &str) -> NpmPackage {
    NpmPackage {
        name: name.to_string(),
        version: version.to_string(),
        dependencies: None,
        dist: Distribution {
            integrity: String::new(),
            shasum: String::new(),
            tarball: format!("https://r/{}-{}.tgz", name, version),
            file_count: None,
            unpacked_size: None,
        },
    }
}

fn key(name: &str, version: &str) -> RegistryKey {
    RegistryKey { name: name.to_string(), version: version.to_string() }
}

#[test]
fn registry_key_text_roundtrip() {
    let k = key("express", "4.17.1");
    assert_eq!(k.to_string(), "express@4.17.1");
    let back = convert_to_registry_key(&k.to_string());
    assert_eq!(back.name, "express");
    assert_eq!(back.version, "4.17.1");
    let odd = convert_to_registry_key("@types/node@1.0.0");
    assert_eq!(odd.name, "");
    assert_eq!(odd.version, "types/node");
}

#[test]
fn registry_exact_and_range() {
    let mut cache = RegistryCache::new("/tmp/registry".to_string());
    cache.set(&key("a", "1.0.0"), pkg("a", "1.0.0"));
    cache.set(&key("a", "1.2.0"), pkg("a", "1.2.0"));
    cache.set(&key("a", "2.0.0"), pkg("a", "2.0.0"));
    assert!(cache.has(&key("a", "1.2.0")));
    assert!(!cache.has(&key("a", "1.3.0")));
    assert!(!cache.has(&key("b", "1.0.0")));
    assert_eq!(cache.get(&key("a", "1.0.0")).unwrap().version, "1.0.0");
    assert!(cache.get(&key("a", "3.0.0")).is_none());
    assert_eq!(cache.get(&key("a", "^1.0.0")).unwrap().version, "1.2.0");
    assert_eq!(cache.get(&key("a", "~1.0.0")).unwrap().version, "1.0.0");
    assert!(cache.get(&key("a", ">5")).is_none());
    assert!(cache.get(&key("b", "^1")).is_none());
    assert!(cache.try_get(&key("a", "")).is_none());
    assert!(cache.try_get(&key("a", "not a range!!")).is_none());
    assert_eq!(cache.try_get(&key("a", "*")).unwrap().unwrap().version, "2.0.0");
}

#[test]
fn registry_preload() {
    let mut cache = RegistryCache::new("/tmp/registry".to_string());
    let k = key("a", "1.0.0");
    assert!(!cache.needs_preload(&k));
    cache.cache.insert("a".to_string(), StrMap::new());
    assert!(cache.needs_preload(&k));
    let mut loaded = StrMap::new();
    loaded.insert("1.0.0".to_string(), pkg("a", "1.0.0"));
    cache.perform_preload(&k, loaded);
    assert!(!cache.needs_preload(&k));
    assert!(cache.has(&k));
}

#[test]
fn packages_cache_paths() {
    let mut cache = PackagesCache::new("/home/u/.craft/cache/packages".to_string());
    let k = key("left-pad", "1.3.0");
    assert!(cache.get(&k).is_none());
    cache.set(&k);
    cache.set(&k);
    assert_eq!(cache.cache.len(), 1);
    assert_eq!(cache.get(&k).unwrap(), "/home/u/.craft/cache/packages/left-pad@1.3.0");
    assert_eq!(cache.get_cache_directory(), "/home/u/.craft/cache/packages");
    assert_eq!(join_path("dir/", "x"), "dir/x");
    assert_eq!(join_path("dir", "/abs"), "/abs");
}

#[test]
fn manager_starts_empty() {
    let m = CacheManager::new("r".to_string(), "p".to_string());
    assert_eq!(m.registry.directory, "r");
    assert_eq!(m.packages.directory, "p");
    assert_eq!(m.graph.packages.len(), 0);
}

#[test]
fn registry_file_names() {
    assert_eq!(cache_name_of_file("express.json"), "express");
    assert_eq!(cache_name_of_file("a.jsonb.json"), "ab");
    assert_eq!(cache_name_of_file("plain"), "plain");
    assert_eq!(cache_file_name(&key("express", "4")), "express.json");
}
