use tool::version::{parse_target, parse_version, resolve, same_text, BumpTarget, ReleaseError, Version};

fn tag(r: Result<Version, ReleaseError>) -> String {
    r.expect("a version").to_tag()
}

#[test]
fn keyword_bumps_follow_the_component_rules() {
    let latest = parse_version("v4.7.9").unwrap();
    assert_eq!(tag(resolve("major", &latest)), "v5.0.0");
    assert_eq!(tag(resolve("minor", &latest)), "v4.8.0");
    assert_eq!(tag(resolve("patch", &latest)), "v4.7.10");
}

#[test]
fn minor_bump_from_latest_tag() {
    let latest = parse_version("v1.2.3").unwrap();
    assert_eq!(tag(resolve("minor", &latest)), "v1.3.0");
}

#[test]
fn bumps_drop_prerelease_and_build_text() {
    let latest = parse_version("v1.2.3-rc.1+sha.5").unwrap();
    assert_eq!(tag(resolve("patch", &latest)), "v1.2.4");
}

#[test]
fn explicit_target_is_taken_verbatim() {
    let latest = parse_version("v2.0.0").unwrap();
    assert_eq!(tag(resolve("v3.0.0-rc1", &latest)), "v3.0.0-rc1");
}

#[test]
fn explicit_target_may_go_backwards() {
    let latest = parse_version("v2.0.0").unwrap();
    assert_eq!(tag(resolve("v1.0.0", &latest)), "v1.0.0");
    assert_eq!(tag(resolve("v2.0.0", &latest)), "v2.0.0");
}

#[test]
fn banana_is_an_invalid_bump_target() {
    let latest = parse_version("v1.2.3").unwrap();
    assert_eq!(
        resolve("banana", &latest),
        Err(ReleaseError::InvalidBumpTarget("banana".to_string()))
    );
}

#[test]
fn other_unknown_targets_are_invalid_bump_targets() {
    let latest = Version::zero();
    for t in ["", "Major", "1.2.3", " patch", "minor ", "V1.2.3"] {
        assert_eq!(resolve(t, &latest), Err(ReleaseError::InvalidBumpTarget(t.to_string())));
    }
}

#[test]
fn malformed_explicit_versions_are_invalid_formats() {
    let latest = Version::zero();
    for t in ["v", "vbanana", "v1.2", "v01.2.3", "v1.2.3-", "v18446744073709551616.0.0"] {
        assert_eq!(resolve(t, &latest), Err(ReleaseError::InvalidVersionFormat(t.to_string())));
    }
}

#[test]
fn bump_of_the_largest_component_overflows() {
    let latest = Version::new(u64::MAX, u64::MAX, u64::MAX);
    assert_eq!(resolve("major", &latest), Err(ReleaseError::VersionOverflow));
    assert_eq!(resolve("minor", &latest), Err(ReleaseError::VersionOverflow));
    assert_eq!(resolve("patch", &latest), Err(ReleaseError::VersionOverflow));
}

#[test]
fn plain_versions_round_trip() {
    for s in ["v0.0.0", "v1.2.3", "v10.20.30", "v18446744073709551615.0.1"] {
        assert_eq!(parse_version(s).unwrap().to_tag(), s);
    }
}

#[test]
fn parse_reads_components() {
    let v = parse_version("v3.0.0-rc1+build.7").unwrap();
    assert_eq!((v.major, v.minor, v.patch), (3, 0, 0));
    assert_eq!(v.pre, "rc1");
    assert_eq!(v.build, "build.7");
    assert_eq!(v.to_tag(), "v3.0.0-rc1+build.7");
}

#[test]
fn parse_requires_the_v_prefix() {
    assert_eq!(
        parse_version("1.2.3"),
        Err(ReleaseError::InvalidVersionFormat("1.2.3".to_string()))
    );
}

#[test]
fn targets_parse_into_variants() {
    assert_eq!(parse_target("major"), Ok(BumpTarget::Major));
    assert_eq!(parse_target("minor"), Ok(BumpTarget::Minor));
    assert_eq!(parse_target("patch"), Ok(BumpTarget::Patch));
    assert_eq!(parse_target("v0.1.1"), Ok(BumpTarget::Explicit(Version::new(0, 1, 1))));
}

#[test]
fn zero_version_tag() {
    assert_eq!(Version::zero().to_tag(), "v0.0.0");
    assert_eq!(Version::new(7, 0, 12).duplicate().to_tag(), "v7.0.12");
}

#[test]
fn text_comparison() {
    assert!(same_text("main", "main"));
    assert!(!same_text("main", "master"));
    assert!(!same_text("", "x"));
    assert!(same_text("", ""));
}
