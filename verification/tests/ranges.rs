use std::collections::BTreeMap;
use version_number::range::{CoreRange, EmptyRangeError, EncodedVersion, RangeMap};
use version_number::CoreVersion;

#[test]
fn unpack() {
    let unpacked1 = CoreVersion::from((1, 2));
    let packed = EncodedVersion::from(unpacked1);
    let unpacked2 = CoreVersion::from(packed);

    assert_eq!(unpacked1, unpacked2);
}

#[test]
fn range_test() {
    // A mapping from a version range to a command
    let _mapping = BTreeMap::<CoreRange, String>::new();

    // for this to be true, a given version must be comparable to a range

    let _given_version = CoreVersion::from((1, 2));
}

#[test]
fn range_accept() {
    for (lhs, rhs) in [
        (CoreVersion::from((1, 0)), CoreVersion::from((2, 0))),
        (CoreVersion::from((1, 1)), CoreVersion::from((2, 1))),
        (CoreVersion::from((1, 0)), CoreVersion::from((1, 2))),
    ] {
        assert!(CoreRange::try_new(lhs, rhs).is_ok())
    }
}

#[test]
fn range_reject() {
    for (lhs, rhs) in [
        (CoreVersion::from((0, 0)), CoreVersion::from((0, 0))),
        (CoreVersion::from((1, 0)), CoreVersion::from((1, 0))),
        (CoreVersion::from((0, 1)), CoreVersion::from((0, 1))),
        (CoreVersion::from((1, 0)), CoreVersion::from((0, 0))),
        (CoreVersion::from((1, 1)), CoreVersion::from((1, 0))),
    ] {
        assert_eq!(CoreRange::try_new(lhs, rhs).unwrap_err(), EmptyRangeError);
    }
}

#[test]
fn encoding_inequalities() {
    for (lhs, rhs) in [
        (CoreVersion::from((1, 0)), CoreVersion::from((0, 0))),
        (CoreVersion::from((0, 1)), CoreVersion::from((0, 0))),
        (
            CoreVersion::from((u64::MAX, 0)),
            CoreVersion::from((u64::MAX - 1, 0)),
        ),
        (
            CoreVersion::from((0, u64::MAX)),
            CoreVersion::from((0, u64::MAX - 1)),
        ),
        (
            CoreVersion::from((u64::MAX / 2, u64::MAX / 2)),
            CoreVersion::from((u64::MAX / 3, u64::MAX / 3)),
        ),
        (CoreVersion::from((1, 0)), CoreVersion::from((0, u64::MAX))),
    ] {
        let lhs = EncodedVersion::from(lhs);
        let rhs = EncodedVersion::from(rhs);

        assert!(lhs.encoded() > rhs.encoded())
    }
}

#[test]
fn encoding_puts_major_in_the_upper_half() {
    let packed = EncodedVersion::from(CoreVersion::new(1, 2));
    assert_eq!(packed.encoded(), (1u128 << 64) | 2);

    let packed = EncodedVersion::from(CoreVersion::new(u64::MAX, u64::MAX));
    assert_eq!(packed.encoded(), u128::MAX);
    assert_eq!(
        CoreVersion::from(packed),
        CoreVersion::new(u64::MAX, u64::MAX)
    );
}

#[test]
fn empty_map_can_be_made() {
    let _map: RangeMap<String> = RangeMap::empty();
}
