use deno_plugin::catalog::{
    collect_versions, load_versions, parse_tag, strip_tag, AliasTarget, VersionSet,
};
use deno_plugin::error::ResolveError;
use deno_plugin::version::Version;

fn tags(list: &[&str]) -> Vec<String> {
    list.iter().map(|tag| tag.to_string()).collect()
}

fn texts(set: &VersionSet) -> Vec<String> {
    set.to_vec().iter().map(|version| version.to_string()).collect()
}

fn deno_tags() -> Vec<String> {
    tags(&[
        "v0.1.0", "v0.1.0^{}", "v1.0.0-rc.1", "v1.0.0", "v1.9.2", "v1.11.5", "v1.19.3", "v1.38.0",
        "std/0.50.0", "v1.2.0",
    ])
}

#[test]
fn loads_versions_from_git() {
    let list = deno_tags();
    let output = load_versions(Some(&list), None, None).unwrap();

    assert!(!(output.versions.len() == 0));
}

#[test]
fn sets_latest_alias() {
    let list = deno_tags();
    let output = load_versions(Some(&list), None, None).unwrap();

    assert!(output.latest.is_some());
    assert!(output.resolve_alias("latest").is_ok());
    assert_eq!(
        output.resolve_alias("latest").ok(),
        output.latest.map(AliasTarget::Version)
    );
}

#[test]
fn mixed_tags_scenario() {
    let list = tags(&["v1.30.0", "v1.2.0", "garbage", "v2.0.0^{}"]);
    let output = load_versions(Some(&list), None, None).unwrap();

    assert_eq!(texts(&output.versions), vec!["1.2.0", "1.30.0"]);
    assert_eq!(output.latest, Version::parse("1.30.0"));
    assert_eq!(output.canary, None);
}

#[test]
fn versions_come_out_ascending_and_once() {
    let list = tags(&[
        "v2.0.0", "v1.0.0", "v1.0.0-beta.11", "v1.0.0-beta.2", "v1.0.0-alpha", "v1.10.0", "v1.9.0",
        "v1.0.0", "v1.0.0-alpha.1", "v1.0.0-rc.1", "v1.0.0-alpha.beta", "v2.0.0",
    ]);
    let output = load_versions(Some(&list), None, None).unwrap();

    assert_eq!(
        texts(&output.versions),
        vec![
            "1.0.0-alpha", "1.0.0-alpha.1", "1.0.0-alpha.beta", "1.0.0-beta.2", "1.0.0-beta.11",
            "1.0.0-rc.1", "1.0.0", "1.9.0", "1.10.0", "2.0.0",
        ]
    );
    assert_eq!(output.versions.len(), 10);
    assert_eq!(output.versions.get(0).to_string(), "1.0.0-alpha");
    assert_eq!(output.versions.highest().map(|v| v.to_string()), Some("2.0.0".to_string()));
    assert_eq!(output.latest.map(|v| v.to_string()), Some("2.0.0".to_string()));
}

#[test]
fn latest_is_the_maximum_whatever_the_order_of_the_tags() {
    let orders = [
        ["v1.2.0", "v1.30.0", "v1.4.0"],
        ["v1.30.0", "v1.4.0", "v1.2.0"],
        ["v1.4.0", "v1.2.0", "v1.30.0"],
    ];
    for order in orders {
        let list = tags(&order);
        let output = load_versions(Some(&list), None, None).unwrap();
        assert_eq!(texts(&output.versions), vec!["1.2.0", "1.4.0", "1.30.0"]);
        assert_eq!(output.latest, Version::parse("1.30.0"));
    }
}

#[test]
fn a_prerelease_can_be_latest() {
    let list = tags(&["v1.0.0", "v2.0.0-alpha.1"]);
    let output = load_versions(Some(&list), None, None).unwrap();

    assert_eq!(output.latest, Version::parse("2.0.0-alpha.1"));
}

#[test]
fn no_valid_tag_gives_an_empty_catalog() {
    let list = tags(&["garbage", "1.2.3", "v1.2", "v1.2.3^{}", "", "v", "vv1.2.3", "v01.2.3"]);
    let output = load_versions(Some(&list), None, None).unwrap();

    assert_eq!(output.versions.len(), 0);
    assert_eq!(output.versions.highest(), None);
    assert_eq!(output.latest, None);
    assert_eq!(
        output.resolve_alias("latest"),
        Err(ResolveError::UnresolvableAlias { alias: "latest".into() })
    );

    let none = load_versions(Some(&Vec::new()), None, None).unwrap();
    assert_eq!(none.versions.len(), 0);
    assert_eq!(none.latest, None);
}

#[test]
fn unreachable_source_fails_the_call() {
    assert_eq!(load_versions(None, None, None).err(), Some(ResolveError::CatalogUnavailable));
    assert_eq!(
        load_versions(None, Some("v1.0.0"), Some("abc")).err(),
        Some(ResolveError::CatalogUnavailable)
    );
}

#[test]
fn release_pointer_is_preferred_where_it_names_a_version() {
    let list = tags(&["v1.30.0", "v1.2.0"]);

    let output = load_versions(Some(&list), Some("v1.2.0\n"), None).unwrap();
    assert_eq!(output.latest, Version::parse("1.2.0"));

    let output = load_versions(Some(&list), Some(" v1.45.1 "), None).unwrap();
    assert_eq!(output.latest, Version::parse("1.45.1"));
    assert_eq!(texts(&output.versions), vec!["1.2.0", "1.30.0"]);

    let output = load_versions(Some(&list), Some("not a version"), None).unwrap();
    assert_eq!(output.latest, Version::parse("1.30.0"));

    let output = load_versions(Some(&list), Some("1.2.0"), None).unwrap();
    assert_eq!(output.latest, Version::parse("1.30.0"));

    let output = load_versions(Some(&Vec::new()), Some("v1.2.0"), None).unwrap();
    assert_eq!(output.latest, Version::parse("1.2.0"));
}

#[test]
fn canary_stands_for_the_trimmed_pointer_text() {
    let list = tags(&["v1.30.0"]);
    let output = load_versions(Some(&list), None, Some("  5f7a1b2c\r\n")).unwrap();

    assert_eq!(output.canary, Some("5f7a1b2c".to_string()));
    assert_eq!(output.resolve_alias("canary"), Ok(AliasTarget::Token("5f7a1b2c".into())));
    assert_eq!(texts(&output.versions), vec!["1.30.0"]);
}

#[test]
fn unknown_aliases_do_not_resolve() {
    let list = tags(&["v1.30.0"]);
    let output = load_versions(Some(&list), None, None).unwrap();

    assert_eq!(
        output.resolve_alias("latest"),
        Ok(AliasTarget::Version(Version::parse("1.30.0").unwrap()))
    );
    assert_eq!(
        output.resolve_alias("canary"),
        Err(ResolveError::UnresolvableAlias { alias: "canary".into() })
    );
    assert_eq!(
        output.resolve_alias("stable"),
        Err(ResolveError::UnresolvableAlias { alias: "stable".into() })
    );
    assert_eq!(
        output.resolve_alias(""),
        Err(ResolveError::UnresolvableAlias { alias: "".into() })
    );
    assert_eq!(
        output.resolve_alias("Latest"),
        Err(ResolveError::UnresolvableAlias { alias: "Latest".into() })
    );
}

#[test]
fn strips_the_tag_prefix() {
    assert_eq!(strip_tag("v1.30.0"), Some("1.30.0".to_string()));
    assert_eq!(strip_tag("v"), Some("".to_string()));
    assert_eq!(strip_tag("vv1"), Some("v1".to_string()));
    assert_eq!(strip_tag("1.30.0"), None);
    assert_eq!(strip_tag("V1.30.0"), None);
    assert_eq!(strip_tag(""), None);
    assert_eq!(strip_tag("garbage"), None);
    assert_eq!(strip_tag("v2.0.0^{}"), None);
    assert_eq!(strip_tag("^{}"), None);
    assert_eq!(strip_tag("v2.0.0^{"), Some("2.0.0^{".to_string()));
}

#[test]
fn stripped_tag_round_trip() {
    let version = parse_tag("v1.30.0").unwrap();
    assert_eq!(version.to_string(), "1.30.0");
    assert_eq!(version, Version::new(1, 30, 0));
}

#[test]
fn parse_tag_drops_what_names_no_version() {
    assert_eq!(parse_tag("v1.2.3"), Some(Version::new(1, 2, 3)));
    assert_eq!(parse_tag("v1.2"), None);
    assert_eq!(parse_tag("v1.2.3.4"), None);
    assert_eq!(parse_tag("v1.2.3 "), None);
    assert_eq!(parse_tag("v1.2.3^{}"), None);
    assert_eq!(parse_tag("1.2.3"), None);
}

#[test]
fn version_set_insert() {
    let mut set = VersionSet::new();
    assert_eq!(set.len(), 0);
    assert!(set.insert(Version::new(1, 2, 0)));
    assert!(set.insert(Version::new(1, 0, 0)));
    assert!(!set.insert(Version::new(1, 2, 0)));
    assert!(set.insert(Version::parse("1.2.0-rc.1").unwrap()));
    assert!(set.insert(Version::parse("1.2.0+build").unwrap()));
    assert_eq!(texts(&set), vec!["1.0.0", "1.2.0-rc.1", "1.2.0", "1.2.0+build"]);
    assert_eq!(set.get(2), &Version::new(1, 2, 0));

    let odd = Version { major: 1, minor: 0, patch: 0, pre: "not valid!".into(), build: "".into() };
    assert!(!set.insert(odd));
    let odd = Version { major: 1, minor: 0, patch: 0, pre: "01".into(), build: "".into() };
    assert!(!set.insert(odd));
    assert_eq!(set.len(), 4);
}

#[test]
fn collect_versions_keeps_each_version_once() {
    let list = tags(&["v3.0.0", "v3.0.0", "x", "v1.0.0", "v3.0.0"]);
    let set = collect_versions(&list);
    assert_eq!(texts(&set), vec!["1.0.0", "3.0.0"]);
}
