use craft::npm_conf::{ConfigListing, NpmConfig, Platform};
use craft::pipeline::parse_config;
use craft::strmap::StrMap;

#[test]
fn parse_config_lines() {
    let m = parse_config("a=1\nb=\n\nc\nd=x=y\na=2");
    assert_eq!(m.len(), 4);
    assert_eq!(m.get("a").unwrap().as_deref(), Some("2"));
    assert_eq!(m.get("b").unwrap().as_deref(), None);
    assert_eq!(m.get("c").unwrap().as_deref(), None);
    assert_eq!(m.get("d").unwrap().as_deref(), Some("x=y"));
}

#[test]
fn config_written_reads_back() {
    let conf = NpmConfig::new(StrMap::new(), Platform::Other, &StrMap::new());
    let read = parse_config("registry=https://r/\nsave=\n");
    let text = conf.user_config_after_set(read, "color", Some("false".to_string())).unwrap();
    assert_eq!(text, "color=false\nregistry=https://r/\nsave=\n");
    let back = parse_config(&text);
    assert_eq!(back.get("color").unwrap().as_deref(), Some("false"));
    assert_eq!(back.get("save").unwrap().as_deref(), None);
    assert_eq!(back.len(), 3);
    assert_eq!(conf.get_value(&back, "color").as_deref(), Some("false"));
    assert_eq!(conf.get_value(&back, "missing").as_deref(), Some("undefined"));
    match conf.list_value(&back) {
        Some(ConfigListing::Lines(lines)) => assert_eq!(lines, vec!["color=false", "registry=https://r/", "save="]),
        _ => panic!("expected lines"),
    }
}
