use leptos_tools::{normalize_version, Exe, SemVer};

#[test]
fn test_sanitize_version_prefix() {
    let version = Exe::sanitize_version_prefix("v1.2.3");
    assert_eq!(version, "1.2.3");
    assert!(semver::Version::parse(&version).is_ok());
    let version = Exe::sanitize_version_prefix("version_1.2.3");
    assert_eq!(version, "1.2.3");
    assert!(semver::Version::parse(&version).is_ok());
}

#[test]
fn test_normalize_version() {
    let version = Exe::normalize_version("version_112");
    assert!(version.is_some_and(|v| v.major == 112 && v.minor == 0 && v.patch == 0));

    let version = Exe::normalize_version("v3.3.3");
    assert!(version.is_some_and(|v| v.major == 3 && v.minor == 3 && v.patch == 3));

    let version = Exe::normalize_version("10.0.0");
    assert!(version.is_some_and(|v| v.major == 10 && v.minor == 0 && v.patch == 0));
}

#[test]
fn test_incomplete_version_strings() {
    let version = Exe::normalize_version("5");
    assert!(version.is_some_and(|v| v.major == 5 && v.minor == 0 && v.patch == 0));

    let version = Exe::normalize_version("0.2");
    assert!(version.is_some_and(|v| v.major == 0 && v.minor == 2 && v.patch == 0));
}

#[test]
fn test_invalid_versions() {
    let version = Exe::normalize_version("1a-test");
    assert_eq!(version, None);
}

#[test]
fn normalization_table() {
    let cases: [(&str, Option<(u64, u64, u64)>); 6] = [
        ("v1.2.3", Some((1, 2, 3))),
        ("version_112", Some((112, 0, 0))),
        ("10.0.0", Some((10, 0, 0))),
        ("5", Some((5, 0, 0))),
        ("0.2", Some((0, 2, 0))),
        ("1a-test", None),
    ];
    for (tag, expected) in cases {
        let expected = expected.map(|(major, minor, patch)| SemVer { major, minor, patch });
        assert_eq!(normalize_version(tag), expected, "tag {tag}");
    }
}

#[test]
fn sanitize_keeps_suffix_and_empties_digitless_tags() {
    assert_eq!(Exe::sanitize_version_prefix("release-2.0.0-beta.1"), "2.0.0-beta.1");
    assert_eq!(Exe::sanitize_version_prefix("latest"), "");
    assert_eq!(Exe::sanitize_version_prefix(""), "");
}

#[test]
fn normalize_keeps_prerelease_core_and_rejects_empty() {
    assert_eq!(
        normalize_version("v1.2.3-beta.1"),
        Some(SemVer { major: 1, minor: 2, patch: 3 })
    );
    assert_eq!(normalize_version(""), None);
    assert_eq!(normalize_version("nightly"), None);
}

#[test]
fn ordering_is_by_major_minor_patch() {
    let a = SemVer { major: 1, minor: 9, patch: 9 };
    let b = SemVer { major: 2, minor: 0, patch: 0 };
    assert!(a.is_older_than(&b));
    assert!(!b.is_older_than(&a));
    assert!(!a.is_older_than(&a));
    let c = SemVer { major: 1, minor: 9, patch: 10 };
    assert!(a.is_older_than(&c));
}
