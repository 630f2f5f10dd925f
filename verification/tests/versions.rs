use version_number::{BaseVersion, CoreVersion, FullVersion, Variant, Version};

#[test]
fn core_version_from_tuple() {
    let major = 0;
    let minor = 1;

    assert_eq!(
        CoreVersion { major, minor },
        CoreVersion::from((major, minor))
    );
}

#[test]
fn full_version_from_tuple() {
    let major = 0;
    let minor = 1;
    let patch = 2;

    assert_eq!(
        FullVersion {
            major,
            minor,
            patch
        },
        FullVersion::from((major, minor, patch))
    );
}

#[test]
fn convert_lossy() {
    let full = FullVersion {
        major: 1,
        minor: 2,
        patch: 3,
    };
    let converted = full.to_core_version_lossy();

    assert_eq!(CoreVersion { major: 1, minor: 2 }, converted)
}

#[test]
fn is_base_variant() {
    let version = Version::Base(BaseVersion::new(0, 0));

    assert!(version.is(Variant::Base));
    assert!(!version.is(Variant::Full));
}

#[test]
fn is_full_variant() {
    let version = Version::Full(FullVersion::new(0, 0, 0));

    assert!(version.is(Variant::Full));
    assert!(!version.is(Variant::Base));
}

#[test]
fn base_from_tuple() {
    let major = 0;
    let minor = 1;

    assert_eq!(
        BaseVersion { major, minor },
        BaseVersion::from((major, minor))
    );
}

#[test]
fn base_map() {
    let version = BaseVersion::new(1, 2);
    let mapped = version.map(|v| format!("Wowsies {}", v.major));

    assert_eq!(mapped.as_str(), "Wowsies 1");
}

#[test]
fn full_from_tuple() {
    let major = 0;
    let minor = 1;
    let patch = 2;

    assert_eq!(
        FullVersion {
            major,
            minor,
            patch
        },
        FullVersion::from((major, minor, patch))
    );
}

#[test]
fn to_base_version_lossy() {
    let full = FullVersion {
        major: 1,
        minor: 2,
        patch: 3,
    };
    let converted = full.to_base_version_lossy();

    assert_eq!(BaseVersion { major: 1, minor: 2 }, converted)
}

#[test]
fn full_map() {
    let version = BaseVersion::new(1, 2);
    let mapped = version.map(|v| ("Everything is awesome", v.major, v.minor));

    assert_eq!(mapped.1, 1);
    assert_eq!(mapped.2, 2);
}

#[test]
fn full_version_map_hands_over_the_version() {
    let mapped = FullVersion::new(1, 2, 3).map(|v| FullVersion::new(v.patch, v.minor, v.major));

    assert_eq!(mapped, FullVersion::new(3, 2, 1));
}

#[test]
fn core_version_to_full_version_lossy() {
    for core in [
        CoreVersion::new(1, 0),
        CoreVersion::new(1, 1),
        CoreVersion::new(1, u64::MAX),
    ] {
        assert_eq!(
            core.to_full_version_lossy(),
            FullVersion {
                major: core.major,
                minor: core.minor,
                patch: 0,
            }
        );
    }
}

#[test]
fn base_version_to_full_version_lossy() {
    for base in [
        BaseVersion::new(1, 0),
        BaseVersion::new(1, 1),
        BaseVersion::new(1, u64::MAX),
    ] {
        assert_eq!(
            base.to_full_version_lossy(),
            FullVersion {
                major: base.major,
                minor: base.minor,
                patch: 0,
            }
        );
    }
}

#[test]
fn constructors_and_getters() {
    let base = Version::new_base_version(1, 2);
    assert_eq!(base, Version::Base(BaseVersion { major: 1, minor: 2 }));
    assert_eq!(base.major(), 1);
    assert_eq!(base.minor(), 2);
    assert_eq!(base.patch(), None);

    let full = Version::new_full_version(4, 5, 6);
    assert_eq!(
        full,
        Version::Full(FullVersion {
            major: 4,
            minor: 5,
            patch: 6
        })
    );
    assert_eq!(full.major(), 4);
    assert_eq!(full.minor(), 5);
    assert_eq!(full.patch(), Some(6));
}

#[test]
fn version_from_tuples() {
    assert_eq!(Version::from((1, 27)), Version::new_base_version(1, 27));
    assert_eq!(Version::from((1, 27, 0)), Version::new_full_version(1, 27, 0));
}

#[test]
fn base_version_is_written_out() {
    assert_eq!(BaseVersion { major: 0, minor: 0 }.to_string(), "0.0");
    assert_eq!(BaseVersion { major: 1, minor: 2 }.to_string(), "1.2");
    assert_eq!(
        BaseVersion::new(u64::MAX, 10).to_string(),
        "18446744073709551615.10"
    );
}

#[test]
fn full_version_is_written_out() {
    assert_eq!(FullVersion::new(0, 0, 0).to_string(), "0.0.0");
    assert_eq!(FullVersion::new(1, 2, 3).to_string(), "1.2.3");
    assert_eq!(FullVersion::new(10, 101, 100).to_string(), "10.101.100");
}

#[test]
fn version_is_written_out() {
    assert_eq!(Version::new_base_version(1, 27).to_string(), "1.27");
    assert_eq!(Version::new_full_version(1, 27, 0).to_string(), "1.27.0");
}

#[test]
fn base_versions_are_ordered_by_major_then_minor() {
    assert!(BaseVersion::new(0, 0) == BaseVersion::new(0, 0));
    assert!(BaseVersion::new(0, 0) < BaseVersion::new(0, 1));
    assert!(BaseVersion::new(1, 0) < BaseVersion::new(2, 0));
    assert!(BaseVersion::new(0, 1) > BaseVersion::new(0, 0));
    assert!(BaseVersion::new(1, 0) > BaseVersion::new(0, 9));
    assert!(CoreVersion::new(1, 0) > CoreVersion::new(0, 9));
}

#[test]
fn full_versions_are_ordered_by_major_minor_patch() {
    assert!(FullVersion::new(1, 1, 1) == FullVersion::new(1, 1, 1));
    assert!(FullVersion::new(0, 0, 0) < FullVersion::new(1, 0, 0));
    assert!(FullVersion::new(0, 0, 0) < FullVersion::new(0, 1, 0));
    assert!(FullVersion::new(0, 0, 0) < FullVersion::new(0, 0, 1));
    assert!(FullVersion::new(0, 1, 0) > FullVersion::new(0, 0, 9));
}

#[test]
fn version_from_str() {
    let version: Version = "9.8.7".parse().unwrap();
    assert_eq!(version, Version::new_full_version(9, 8, 7));
    assert!("9.8.".parse::<Version>().is_err());
}
