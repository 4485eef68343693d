use craft::fs::modules::{DownloadStep, UnzipStep};
use craft::fs::file_config::get_config_dir;
use craft::actors::exec_actor::{get_file_ending_for_running, script_command, script_file_name, ScriptType};
use craft::actors::preprocesse_dependency_install::PreprocessDependencyInstall;
use craft::actors::{PackageType, RunActor};
use craft::command::{Command, Install, ProgramDesire, SubCommand};
use craft::common::package::Package;
use craft::common::remote_package::{Distribution, RemotePackage};
use craft::executors::InstallActions;
use craft::fs::NodeModules;
use craft::package::PackageJson;
use craft::strmap::StrMap;

fn install() -> Install {
    Install {
        save_global: false,
        save_dev: false,
        offline: false,
        prod: false,
        dev: false,
        no_optional: false,
        no_peers: false,
        save_prod: false,
        save_optional: false,
        packages: None,
    }
}

#[test]
fn install_without_arguments() {
    let c = Command { command: SubCommand::Install(install()) };
    assert!(c.is_install_without_args());
    let mut i = install();
    i.packages = Some(vec!["a".to_string()]);
    let c = Command { command: SubCommand::Install(i) };
    assert!(!c.is_install_without_args());
}

#[test]
fn program_desire() {
    let d = ProgramDesire::from_install(&install(), "development", true, false);
    assert!(d.dev_install && d.prod_install && d.optional_install);
    assert!(d.package_json_available && !d.craft_lock_available);
    let d = ProgramDesire::from_install(&install(), "production", false, false);
    assert!(!d.dev_install && d.prod_install && !d.optional_install);
    let mut i = install();
    i.dev = true;
    i.prod = true;
    let d = ProgramDesire::from_install(&i, "production", false, false);
    assert!(d.dev_install && !d.prod_install && !d.optional_install);
    let mut i = install();
    i.save_global = true;
    let d = ProgramDesire::from_install(&i, "development", false, true);
    assert!(!d.dev_install && !d.prod_install && !d.optional_install && d.craft_lock_available);
    let mut i = install();
    i.no_optional = true;
    let d = ProgramDesire::from_install(&i, "development", false, false);
    assert!(d.dev_install && d.prod_install && !d.optional_install);
}

#[test]
fn dependencies_from_package_json() {
    let mut deps = StrMap::new();
    deps.insert("react".to_string(), "^18".to_string());
    let mut dev = StrMap::new();
    dev.insert("jest".to_string(), "29".to_string());
    let json = PackageJson {
        dependencies: Some(deps),
        dev_dependencies: Some(dev),
        optional_dependencies: None,
        scripts: None,
    };
    let d = ProgramDesire::from_install(&install(), "development", true, false);
    let p = PreprocessDependencyInstall::new(d);
    let v = p.calculate_dependencies(&json);
    assert_eq!(v.len(), 2);
    assert!(matches!(&v[0], PackageType::Dev(s) if s == "jest@29"));
    assert!(matches!(&v[1], PackageType::Prod(s) if s == "react@^18"));
    let d = ProgramDesire::from_install(&install(), "production", true, false);
    let v = PreprocessDependencyInstall::new(d).calculate_dependencies(&json);
    assert_eq!(v.len(), 1);
    assert_eq!(PreprocessDependencyInstall::get_script(json).len(), 0);
}

#[test]
fn scripts_and_commands() {
    assert_eq!(ScriptType::Bash.get_script_ending(), "");
    assert_eq!(ScriptType::Cmd.get_script_ending(), "cmd");
    assert_eq!(ScriptType::Pwsh.get_script_ending(), "ps1");
    assert_eq!(get_file_ending_for_running(true, true), ScriptType::Pwsh);
    assert_eq!(get_file_ending_for_running(true, false), ScriptType::Cmd);
    assert_eq!(get_file_ending_for_running(false, true), ScriptType::Bash);
    assert_eq!(script_file_name("tsc", ScriptType::Cmd), "tsc.cmd");
    assert_eq!(script_file_name("tsc", ScriptType::Bash), "tsc.");
    let (p, a) = script_command(ScriptType::Pwsh, "x.ps1", &Some(vec!["--v".to_string()]));
    assert_eq!(p, "pwsh");
    assert_eq!(a, vec!["-File".to_string(), "x.ps1".to_string(), "--v".to_string()]);
    let r = RunActor::new("echo hi".to_string(), Some("sub".to_string()));
    assert_eq!(r.exec_directory("/p"), "/p/sub");
    let (p, a) = r.shell_command(false);
    assert_eq!(p, "sh");
    assert_eq!(a, vec!["-c".to_string(), "echo hi".to_string()]);
}

#[test]
fn common_package() {
    assert_eq!(
        Package::parse_package("lodash@4".to_string()),
        ("lodash".to_string(), "4".to_string())
    );
    assert_eq!(
        Package::parse_package("lodash".to_string()),
        ("lodash".to_string(), "latest".to_string())
    );
    let p = Package::new("lodash".to_string(), "^4.17.21".to_string()).ok().unwrap();
    assert_eq!(p.version, "4.17.21");
    let p = Package::new("lodash".to_string(), "~4.17".to_string()).ok().unwrap();
    assert_eq!(p.version, "4.17");
    let p = Package::new("lodash".to_string(), ">=4".to_string()).ok().unwrap();
    assert_eq!(p.version, "4");
    let p = Package::new("lodash".to_string(), "latest".to_string()).ok().unwrap();
    assert_eq!(p.version, "latest");
    match Package::new("lodash".to_string(), "not a version".to_string()) {
        Err(e) => assert!(!e.reason.is_empty()),
        _ => panic!("expected an error"),
    }
}

#[test]
fn modules_and_actions() {
    let m = NodeModules::new("./node_modules");
    let pkg = RemotePackage {
        name: "react".to_string(),
        version: "18.2.0".to_string(),
        dependencies: StrMap::new(),
        dev_dependencies: StrMap::new(),
        dist: Distribution {
            integrity: String::new(),
            shasum: String::new(),
            tarball: String::new(),
            file_count: None,
            unpacked_size: None,
        },
    };
    assert_eq!(m.get_gzip_name(&pkg), "react-18.2.0.tgz");
    assert_eq!(InstallActions::new(None).modules.path, "./node_modules");
    assert_eq!(InstallActions::new(Some("x")).modules.path, "x");
}

#[test]
fn module_paths() {
    let m = NodeModules::new("./node_modules");
    let pkg = RemotePackage {
        name: "react".to_string(),
        version: "18.2.0".to_string(),
        dependencies: StrMap::new(),
        dev_dependencies: StrMap::new(),
        dist: Distribution {
            integrity: String::new(),
            shasum: String::new(),
            tarball: String::new(),
            file_count: None,
            unpacked_size: None,
        },
    };
    assert_eq!(m.archive_path(&pkg), "./node_modules/.craft/react-18.2.0.tgz");
    assert_eq!(m.unzip_folder(&pkg), "./node_modules/.craft/react");
    assert_eq!(m.final_path(&pkg), "./node_modules/react");
    assert_eq!(m.package_folder("react"), "./node_modules/node_modules/react");
}

#[test]
fn config_directory() {
    assert_eq!(get_config_dir(Some("/c"), Some("/h"), ".craft/cache").as_deref(), Some("/c/.craft/cache"));
    assert_eq!(get_config_dir(None, Some("/h/"), ".craft/cache").as_deref(), Some("/h/.craft/cache"));
    assert_eq!(get_config_dir(None, None, ".craft/cache"), None);
}

#[test]
fn dev_install_takes_production_dependencies_too() {
    let mut deps = StrMap::new();
    deps.insert("a".to_string(), "1.0.0".to_string());
    let mut dev = StrMap::new();
    dev.insert("b".to_string(), "2.0.0".to_string());
    let mut opt = StrMap::new();
    opt.insert("c".to_string(), "3.0.0".to_string());
    let json = PackageJson { dependencies: Some(deps), dev_dependencies: Some(dev), optional_dependencies: Some(opt), scripts: None };
    let desire = ProgramDesire {
        dev_install: true,
        prod_install: false,
        optional_install: false,
        package_json_available: true,
        craft_lock_available: false,
    };
    let v = PreprocessDependencyInstall::new(desire).calculate_dependencies(&json);
    assert_eq!(v.len(), 2);
    assert!(matches!(&v[0], PackageType::Dev(s) if s == "b@2.0.0"));
    assert!(matches!(&v[1], PackageType::Prod(s) if s == "a@1.0.0"));
    let optional_only = ProgramDesire { dev_install: false, optional_install: true, ..desire };
    let v = PreprocessDependencyInstall::new(optional_only).calculate_dependencies(&json);
    assert_eq!(v.len(), 3);
    assert!(matches!(&v[2], PackageType::Optional(s) if s == "c@3.0.0"));
    let prod_only = ProgramDesire { dev_install: false, prod_install: true, ..desire };
    let v = PreprocessDependencyInstall::new(prod_only).calculate_dependencies(&json);
    assert_eq!(v.len(), 1);
}

#[test]
fn install_steps() {
    let m = NodeModules::new("nm");
    let mut deps = StrMap::new();
    deps.insert("a".to_string(), "1".to_string());
    deps.insert("b".to_string(), "1".to_string());
    let mut dev = StrMap::new();
    dev.insert("b".to_string(), "2".to_string());
    let pkg = RemotePackage {
        name: "react".to_string(),
        version: "18.2.0".to_string(),
        dependencies: deps,
        dev_dependencies: dev,
        dist: Distribution {
            integrity: String::new(),
            shasum: String::new(),
            tarball: "https://r/react.tgz".to_string(),
            file_count: None,
            unpacked_size: None,
        },
    };
    match m.download_step(&pkg, false) {
        DownloadStep::Fetch { url, path } => {
            assert_eq!(url, "https://r/react.tgz");
            assert_eq!(path, "nm/.craft/react-18.2.0.tgz");
        }
        _ => panic!("expected a fetch"),
    }
    assert!(matches!(m.download_step(&pkg, true), DownloadStep::AlreadyFetched(n) if n == "react-18.2.0.tgz"));
    assert!(matches!(m.unzip_step(&pkg, false, true), UnzipStep::Missing(s) if s == "Package react@18.2.0 not found"));
    assert!(matches!(m.unzip_step(&pkg, true, true), UnzipStep::CleanUp { .. }));
    match m.unzip_step(&pkg, true, false) {
        UnzipStep::Unpack { unpacked, target, .. } => {
            assert_eq!(unpacked, "nm/.craft/react/package");
            assert_eq!(target, "nm/react");
        }
        _ => panic!("expected unpacking"),
    }
    let d = InstallActions::dependencies_of(&pkg);
    assert_eq!(d.len(), 2);
    assert_eq!(d.get("b").unwrap(), "2");
}
