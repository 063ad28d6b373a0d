use anc_isa::{EffectiveVersion, VersionCompatibility, RUNTIME_EDITION, RUNTIME_EDITION_STRING};

#[test]
fn test_effective_version() {
    let v0 = EffectiveVersion::new(0x11, 0x13, 0x17);
    let n0 = v0.to_u64();
    assert_eq!(n0, 0x0011_0013_0017_u64);

    let v1 = EffectiveVersion::from_u64(n0);
    assert_eq!(v1.major, 0x11);
    assert_eq!(v1.minor, 0x13);
    assert_eq!(v1.patch, 0x17);

    let v2 = EffectiveVersion::from_version_string("11.13.17");
    assert_eq!(v2.major, 11);
    assert_eq!(v2.minor, 13);
    assert_eq!(v2.patch, 17);
}

#[test]
fn test_effective_version_comparison() {
    let v0 = EffectiveVersion::new(0x11, 0x13, 0x17);
    let v1 = EffectiveVersion::new(0x11, 0x13, 0x17);
    let v2 = EffectiveVersion::new(0x13, 0x11, 0x7);
    let v3 = EffectiveVersion::new(0x11, 0x17, 0x13);
    let v4 = EffectiveVersion::new(0x11, 0x13, 0x23);

    // Eq
    assert!(v0 == v1);
    assert!(v0 != v2);

    // Cmp
    assert!(v0 >= v1);
    assert!(v0 <= v1);
    assert!(v0 < v2);
    assert!(v0 < v3);
    assert!(v0 < v4);
}

#[test]
fn test_effective_version_competibility() {
    assert_eq!(
        EffectiveVersion::from_version_string("1.2.3")
            .compatible(&EffectiveVersion::from_version_string("1.2.3")),
        VersionCompatibility::Equals
    );

    assert_eq!(
        EffectiveVersion::from_version_string("1.2.3")
            .compatible(&EffectiveVersion::from_version_string("1.1.3")),
        VersionCompatibility::GreaterThan
    );

    assert_eq!(
        EffectiveVersion::from_version_string("1.2.3")
            .compatible(&EffectiveVersion::from_version_string("1.2.2")),
        VersionCompatibility::GreaterThan
    );

    assert_eq!(
        EffectiveVersion::from_version_string("1.2.3")
            .compatible(&EffectiveVersion::from_version_string("1.11.3")),
        VersionCompatibility::LessThan
    );

    assert_eq!(
        EffectiveVersion::from_version_string("1.2.3")
            .compatible(&EffectiveVersion::from_version_string("2.1.3")),
        VersionCompatibility::Conflict
    );

    // Zero-major
    assert_eq!(
        EffectiveVersion::from_version_string("0.2.3")
            .compatible(&EffectiveVersion::from_version_string("0.2.3")),
        VersionCompatibility::Equals
    );

    assert_eq!(
        EffectiveVersion::from_version_string("0.2.3")
            .compatible(&EffectiveVersion::from_version_string("0.2.2")),
        VersionCompatibility::GreaterThan
    );

    assert_eq!(
        EffectiveVersion::from_version_string("0.2.3")
            .compatible(&EffectiveVersion::from_version_string("0.2.11")),
        VersionCompatibility::LessThan
    );

    assert_eq!(
        EffectiveVersion::from_version_string("0.2.3")
            .compatible(&EffectiveVersion::from_version_string("0.3.2")),
        VersionCompatibility::Conflict
    );
}

#[test]
fn test_runtime_edition() {
    let strlen = RUNTIME_EDITION
        .iter()
        .position(|c| *c == 0)
        .unwrap_or(RUNTIME_EDITION.len());

    assert_eq!(
        std::str::from_utf8(&RUNTIME_EDITION[..strlen]).unwrap(),
        RUNTIME_EDITION_STRING
    );
}

#[test]
fn version_string_components() {
    assert_eq!(
        EffectiveVersion::parse_version_string("11.13.17"),
        Some(EffectiveVersion::new(11, 13, 17))
    );
    assert_eq!(
        EffectiveVersion::parse_version_string("0.0.0"),
        Some(EffectiveVersion::new(0, 0, 0))
    );
    assert_eq!(
        EffectiveVersion::parse_version_string("65535.65535.65535"),
        Some(EffectiveVersion::new(65535, 65535, 65535))
    );
    // leading zeros and a plus sign are digits' company in a component
    assert_eq!(
        EffectiveVersion::parse_version_string("007.+8.0009"),
        Some(EffectiveVersion::new(7, 8, 9))
    );
}

#[test]
fn version_string_rejected() {
    for text in [
        "", ".", "..", "1", "1.2", "1.2.", ".2.3", "1..3", "1.2.3.4", "1.2.3.", "a.b.c", "1.2.x",
        "1.2.-3", "1.2.65536", "1.2.99999999999999999999", " 1.2.3", "1.2.3 ", "1.+.3", "1.2.+",
        "1._2.3", "\u{ff11}.2.3", "1,2,3",
    ] {
        assert_eq!(EffectiveVersion::parse_version_string(text), None, "{:?}", text);
    }
}

#[test]
fn version_to_string_and_back() {
    assert_eq!(EffectiveVersion::new(1, 2, 3).to_string(), "1.2.3");
    assert_eq!(EffectiveVersion::new(0, 0, 0).to_string(), "0.0.0");
    assert_eq!(EffectiveVersion::new(10, 200, 65535).to_string(), "10.200.65535");
    for version in [
        EffectiveVersion::new(0, 0, 0),
        EffectiveVersion::new(1, 0, 10),
        EffectiveVersion::new(65535, 100, 9),
        EffectiveVersion::new(12345, 6789, 101),
    ] {
        assert_eq!(EffectiveVersion::from_version_string(&version.to_string()), version);
    }
}

#[test]
fn version_packing() {
    assert_eq!(EffectiveVersion::new(1, 2, 3).to_u64(), 0x0001_0002_0003);
    assert_eq!(EffectiveVersion::new(0xffff, 0xffff, 0xffff).to_u64(), 0xffff_ffff_ffff);
    // the high 16 bits are ignored
    assert_eq!(
        EffectiveVersion::from_u64(0xabcd_0001_0002_0003),
        EffectiveVersion::new(1, 2, 3)
    );
    assert_eq!(EffectiveVersion::from_u64(0xabcd_0001_0002_0003).to_u64(), 0x0001_0002_0003);
    let version = EffectiveVersion::new(513, 7, 65535);
    assert_eq!(EffectiveVersion::from_u64(version.to_u64()), version);
}

#[test]
fn version_order_follows_packed_form() {
    let low = EffectiveVersion::new(1, 65535, 65535);
    let high = EffectiveVersion::new(2, 0, 0);
    assert!(low < high);
    assert!(high > low);
    assert_eq!(low.partial_cmp(&high), Some(std::cmp::Ordering::Less));
    assert_eq!(high.partial_cmp(&low), Some(std::cmp::Ordering::Greater));
    assert_eq!(low.partial_cmp(&low), Some(std::cmp::Ordering::Equal));
}

#[test]
fn compatibility_is_mirrored() {
    let versions = [
        EffectiveVersion::new(0, 1, 0),
        EffectiveVersion::new(0, 1, 5),
        EffectiveVersion::new(0, 2, 0),
        EffectiveVersion::new(1, 0, 0),
        EffectiveVersion::new(1, 0, 9),
        EffectiveVersion::new(1, 4, 0),
        EffectiveVersion::new(2, 0, 0),
    ];
    for a in versions {
        assert_eq!(a.compatible(&a), VersionCompatibility::Equals);
        for b in versions {
            let mirrored = match a.compatible(&b) {
                VersionCompatibility::Equals => VersionCompatibility::Equals,
                VersionCompatibility::GreaterThan => VersionCompatibility::LessThan,
                VersionCompatibility::LessThan => VersionCompatibility::GreaterThan,
                VersionCompatibility::Conflict => VersionCompatibility::Conflict,
            };
            assert_eq!(b.compatible(&a), mirrored);
        }
    }
    assert_eq!(
        EffectiveVersion::new(0, 1, 5).compatible(&EffectiveVersion::new(0, 2, 0)),
        VersionCompatibility::Conflict
    );
    assert_eq!(
        EffectiveVersion::new(1, 4, 0).compatible(&EffectiveVersion::new(1, 0, 9)),
        VersionCompatibility::GreaterThan
    );
}
