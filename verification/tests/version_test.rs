use deno_plugin::version::Version;

#[test]
fn parses_the_parts_of_a_version() {
    let version = Version::parse("1.30.0").unwrap();
    assert_eq!((version.major, version.minor, version.patch), (1, 30, 0));
    assert_eq!(version.pre, "");
    assert_eq!(version.build, "");

    let version = Version::parse("10.20.30-alpha.1+build.5").unwrap();
    assert_eq!((version.major, version.minor, version.patch), (10, 20, 30));
    assert_eq!(version.pre, "alpha.1");
    assert_eq!(version.build, "build.5");

    let version = Version::parse("18446744073709551615.0.0").unwrap();
    assert_eq!(version.major, u64::MAX);
}

#[test]
fn refuses_what_is_no_version() {
    for text in [
        "", "1", "1.2", "1.2.3.4", "v1.2.3", "01.2.3", "1.2.3-", "1.2.3+", "1.2.3-01", " 1.2.3",
        "1.2.3 ", "garbage", "2.0.0^{}", "18446744073709551616.0.0", "1.2.3-a..b",
    ] {
        assert_eq!(Version::parse(text), None, "{}", text);
    }
}

#[test]
fn writes_what_it_read() {
    for text in [
        "0.0.0", "1.30.0", "1.2.3-alpha", "1.2.3-alpha.1", "1.2.3+build", "1.2.3-rc.1+build.5",
        "18446744073709551615.18446744073709551615.18446744073709551615", "1.0.0-0", "1.0.0--",
        "1.0.0+001",
    ] {
        assert_eq!(Version::parse(text).unwrap().to_string(), text);
    }
}

#[test]
fn new_has_no_identifiers() {
    let version = Version::new(1, 2, 3);
    assert_eq!(version.to_string(), "1.2.3");
    assert_eq!(version, Version::parse("1.2.3").unwrap());
    assert_eq!(Version::new(0, 0, 0).to_string(), "0.0.0");
    assert_eq!(Version::new(100, 10, 1).to_string(), "100.10.1");
}

#[test]
fn orders_by_semantic_version_precedence() {
    let ascending = [
        "0.0.1", "0.1.0", "0.9.0", "0.10.0", "1.0.0-0", "1.0.0-1", "1.0.0-10", "1.0.0-a",
        "1.0.0-alpha", "1.0.0-alpha.1", "1.0.0-alpha.beta", "1.0.0-beta", "1.0.0-beta.2",
        "1.0.0-beta.11", "1.0.0-rc.1", "1.0.0", "1.0.0+0", "1.0.0+1", "1.0.1", "2.0.0",
        "10.0.0",
    ];
    for (i, low) in ascending.iter().enumerate() {
        let low = Version::parse(low).unwrap();
        assert_eq!(low.before(&low), Some(false));
        for high in &ascending[i + 1..] {
            let high = Version::parse(high).unwrap();
            assert_eq!(low.before(&high), Some(true), "{:?} {:?}", low, high);
            assert_eq!(high.before(&low), Some(false), "{:?} {:?}", low, high);
        }
    }
}

#[test]
fn does_not_order_what_is_no_version() {
    let good = Version::new(1, 0, 0);
    for (pre, build) in [("a b", ""), ("", "a b"), ("01", ""), ("a..b", ""), ("", "."), ("é", "")] {
        let odd = Version { major: 1, minor: 0, patch: 0, pre: pre.into(), build: build.into() };
        assert_eq!(odd.before(&good), None);
        assert_eq!(good.before(&odd), None);
        assert_eq!(odd.before(&odd), None);
    }
    let fine = Version { major: 1, minor: 0, patch: 0, pre: "rc.1".into(), build: "001".into() };
    assert_eq!(fine.before(&good), Some(true));
}

#[test]
fn same_compares_every_part() {
    let version = Version::parse("1.2.3-rc.1+b").unwrap();
    assert!(version.same(&version.duplicate()));
    assert_eq!(version.duplicate(), version);
    assert!(!version.same(&Version::parse("1.2.3-rc.1").unwrap()));
    assert!(!version.same(&Version::parse("1.2.3-rc.2+b").unwrap()));
    assert!(!version.same(&Version::parse("1.2.4-rc.1+b").unwrap()));
    assert!(!version.same(&Version::parse("1.3.3-rc.1+b").unwrap()));
    assert!(!version.same(&Version::parse("2.2.3-rc.1+b").unwrap()));
}
