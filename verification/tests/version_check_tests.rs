use craft::version_check::{
    package_accepted, Connector, Operator, Package, Version, VersionField, VersionImpl,
};

#[test]
fn every_listed_package_reads() {
    let names = [
        "react@16.13.1",
        "@nest/core@16.13.1",
        "react@^16.13.1",
        "react@~16.13.1",
        "react@16.13",
        "react@16",
        "react@^16",
        "react@~16",
        "react@16.x",
        "react@^16.*",
        "react@~16.*",
        "react@*",
        "react@latest",
        "react@>=10.0.0 <11.0.0",
        "react@>=10.0.0,<11.0.0",
        "react@>=10.0.0",
        "react@<10.0.0",
        "react@10.0.0||11",
        "react@>=10.0.0||<=11",
    ];
    for name in names {
        assert!(package_accepted(name), "{}", name);
        let package = Package::new(name);
        assert!(package.version.satisfies("16.13.1"));
        assert!(package.version.satisfies("*"));
    }
}

#[test]
fn single_constraints() {
    let c = VersionImpl::parse_single_constraint("^16.13.1-beta+build");
    assert_eq!(c.operator, Operator::Caret);
    assert_eq!(c.major, VersionField::Exact(16));
    assert_eq!(c.minor, VersionField::Exact(13));
    assert_eq!(c.patch, VersionField::Exact(1));
    assert_eq!(c.pre_release.as_deref(), Some("beta"));
    assert_eq!(c.build.as_deref(), Some("build"));
    assert!(!VersionImpl::accepts("^16.13.1-beta.2+build"));
    assert!(VersionImpl::try_parse_single_constraint("^16.13.1-beta.2+build").is_none());

    let c = VersionImpl::parse_single_constraint("~1.x");
    assert_eq!(c.to_string(), "~1.*.*");
    let c = VersionImpl::parse_single_constraint("1.2.3-rc1+b7");
    assert_eq!(c.to_string(), "1.2.3-rc1+b7");
    let c = VersionImpl::parse_single_constraint("1.x1");
    assert_eq!(c.major, VersionField::Exact(1));
    assert_eq!(c.minor, VersionField::Wildcard);
    assert_eq!(c.pre_release.as_deref(), Some("x1"));
    let c = VersionImpl::parse_single_constraint("1.2.x-");
    assert_eq!(c.patch, VersionField::Wildcard);
    assert_eq!(c.pre_release.as_deref(), Some("x-"));
    let c = VersionImpl::parse_single_constraint("latest");
    assert_eq!(c.to_string(), "*.*.*");
}

#[test]
fn single_constraint_errors() {
    assert!(VersionImpl::try_parse_single_constraint("nest/core").is_none());
    assert!(VersionImpl::try_parse_single_constraint("99999999999999999999999").is_none());
    assert!(VersionImpl::try_parse_single_constraint("1.2.3.4.5").is_none());
    assert!(!package_accepted("@nest/core"));
}

#[test]
fn ranges() {
    let (connector, v) = VersionImpl::parse_range(">=10.0.0 <11.0.0");
    assert_eq!(connector, Connector::And);
    assert_eq!(v[0].to_string(), ">=10.0.0");
    assert_eq!(v[1].to_string(), "<11.0.0");
    let (connector, v) = VersionImpl::parse_range("10.0.0||11");
    assert_eq!(connector, Connector::Or);
    assert_eq!(v[1].to_string(), "11.*.*");
    let (_, v) = VersionImpl::parse_range(">=1.2.34.5.6");
    assert_eq!(v[0].to_string(), ">=1.2.3");
    assert_eq!(v[1].to_string(), "4.5.6");
    let (_, v) = VersionImpl::parse_range(">=10");
    assert_eq!(v[1].to_string(), "*.*.*");
    assert!(VersionImpl::try_parse_range("1.2.3 || 2.0.0").is_none());
}

#[test]
fn whole_specifications() {
    let v = VersionImpl::new(">=10.0.0,<11.0.0");
    assert_eq!(v.to_string(), ">=10.0.0 <11.0.0");
    let v = VersionImpl::new("16.x");
    assert_eq!(v.to_string(), "16.*.*");
    let p = Package::new("@nest/core@latest");
    assert_eq!(p.name, "@nest/core");
    assert_eq!(p.version.to_string(), "*.*.*");
    let p = Package::new("react");
    assert_eq!(p.name, "react");
}

#[test]
fn constraint_text_reads_back() {
    for text in ["~16.13.1", "^0.0.0", "1.0.0-beta+build1", "*.*.*", "^1.*.7-a-b", "2.3.4+x"] {
        let c = VersionImpl::parse_single_constraint(text);
        assert_eq!(c.to_string(), text);
        let again = VersionImpl::parse_single_constraint(&c.to_string());
        assert_eq!(again.operator, c.operator);
        assert_eq!(again.major, c.major);
        assert_eq!(again.minor, c.minor);
        assert_eq!(again.patch, c.patch);
        assert_eq!(again.pre_release, c.pre_release);
        assert_eq!(again.build, c.build);
    }
    let c = VersionImpl::parse_single_constraint("=1.2.3");
    assert_eq!(c.operator, Operator::Equal);
    assert_eq!(c.to_string(), "1.2.3");
}
