use ops_tool::version::{parse_version, Version};

#[test]
fn parses_plain_release() {
    let v = parse_version("1.2.3").unwrap();
    assert_eq!(v.major, 1);
    assert_eq!(v.minor, 2);
    assert_eq!(v.patch, 3);
    assert!(v.pre.is_none());
}

#[test]
fn parses_large_components() {
    let v = parse_version("10.200.3000").unwrap();
    assert_eq!(v.major, 10);
    assert_eq!(v.minor, 200);
    assert_eq!(v.patch, 3000);
}

#[test]
fn parses_pre_release() {
    let v = parse_version("1.15.0-rc1").unwrap();
    assert_eq!(v.major, 1);
    assert_eq!(v.minor, 15);
    assert_eq!(v.patch, 0);
    assert_eq!(v.pre.as_deref(), Some("rc1"));
}

#[test]
fn parses_dotted_pre_release() {
    let v = parse_version("2.0.0-alpha.1").unwrap();
    assert_eq!(v.pre.as_deref(), Some("alpha.1"));
}

#[test]
fn rejects_missing_components() {
    assert!(parse_version("1.2").is_none());
    assert!(parse_version("1").is_none());
    assert!(parse_version("").is_none());
    assert!(parse_version("1.2.").is_none());
    assert!(parse_version(".2.3").is_none());
}

#[test]
fn rejects_non_digits() {
    assert!(parse_version("a.b.c").is_none());
    assert!(parse_version("1.2.x").is_none());
    assert!(parse_version("1.2.3.4").is_none());
}

#[test]
fn rejects_leading_zeros() {
    assert!(parse_version("01.2.3").is_none());
    assert!(parse_version("1.02.3").is_none());
    assert!(parse_version("1.2.03").is_none());
    assert!(parse_version("0.2.3").is_some());
}

#[test]
fn rejects_bad_pre_release() {
    assert!(parse_version("1.2.3-").is_none());
    assert!(parse_version("1.2.3-a..b").is_none());
    assert!(parse_version("1.2.3-.a").is_none());
    assert!(parse_version("1.2.3-a.").is_none());
    assert!(parse_version("1.2.3-a_b").is_none());
}

#[test]
fn rejects_oversized_numbers() {
    assert!(parse_version("99999999999999999999.0.0").is_none());
    assert!(parse_version("18446744073709551615.0.0").is_some());
}

#[test]
fn exceeds_orders_triples() {
    let above = Version { major: 1, minor: 20, patch: 0, pre: None };
    let below = Version { major: 1, minor: 10, patch: 0, pre: None };
    let equal = Version { major: 1, minor: 15, patch: 0, pre: None };
    assert!(above.exceeds(1, 15, 0));
    assert!(!below.exceeds(1, 15, 0));
    assert!(!equal.exceeds(1, 15, 0));
    assert!(equal.exceeds(1, 14, 9));
}
