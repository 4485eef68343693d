use craft::actors::PackageType;

#[test]
pub fn test_get_parts() {
    let mappings = vec![
        ("@lodash/test@1", ("@lodash/test", "1")),
        ("@lodash/test", ("@lodash/test", "*")),
        ("is-even@~1", ("is-even", "~1")),
        ("is-even@~1.2.0", ("is-even", "~1.2.0")),
        ("is-even", ("is-even", "*")),
    ];

    for (k, v) in mappings {
        let pkg_type = PackageType::Dev(k.to_string());
        let parts = pkg_type.get_parts();

        assert_eq!(parts.0, v.0);
        assert_eq!(parts.1, v.1);
    }
}

#[test]
fn get_parts_of_every_kind() {
    let p = PackageType::Prod("react@18".to_string()).get_parts();
    assert_eq!(p, ("react".to_string(), "18".to_string()));
    let p = PackageType::Global("@scope/x@^2".to_string()).get_parts();
    assert_eq!(p, ("@scope/x".to_string(), "^2".to_string()));
}
