use version_number::FullVersion;

#[test]
fn full_version_becomes_a_semantic_version() {
    let version = FullVersion::new(1, 2, 3);
    let converted: semver::Version = version.into();

    assert_eq!(converted, semver::Version::new(1, 2, 3));
    assert!(converted.pre.is_empty());
    assert!(converted.build.is_empty());
}

#[test]
fn largest_numbers_become_a_semantic_version() {
    let converted = semver::Version::from(FullVersion::new(u64::MAX, 0, u64::MAX));

    assert_eq!(converted.major, u64::MAX);
    assert_eq!(converted.minor, 0);
    assert_eq!(converted.patch, u64::MAX);
    assert_eq!(converted.to_string(), "18446744073709551615.0.18446744073709551615");
}
