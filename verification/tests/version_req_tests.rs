use fast_version::Version;
use fast_version::VersionReq;
use fast_version::VersionReqVariant;
use fast_version::VersionReqVariantLowerBound;
use fast_version::VersionReqVariantUpperBound;

#[test]
fn star_matches_everything() {
    let star = VersionReq::star();
    assert!(star.matches(&Version::new(0, 0, 0)));
    assert!(star.matches(&Version::new(1, 2, 3)));
    assert!(star.matches(&Version::new(u64::MAX, u64::MAX, u64::MAX)));
}

#[test]
fn strict_matches_only_itself() {
    let v = Version::new(1, 2, 3);
    let req = VersionReq::new(&VersionReqVariant::Strict(v));
    assert!(req.matches(&v));
    assert!(!req.matches(&Version::new(1, 2, 4)));
    assert!(!req.matches(&Version::new(1, 3, 3)));
    assert!(!req.matches(&Version::new(2, 2, 3)));
    assert!(!req.matches(&Version::new(0, 2, 3)));
}

#[test]
fn saturation_at_the_boundaries() {
    let req = VersionReq::new(&VersionReqVariant::MajorGreater { major: u64::MAX });
    assert_eq!(req.major_lower, u64::MAX);
    assert_eq!(req.minor_lower, 0);
    assert_eq!(req.patch_lower, 0);

    let req = VersionReq::new(&VersionReqVariant::MajorLess { major: 0 });
    assert_eq!(req.major_higher, 0);
    assert_eq!(req.minor_higher, u64::MAX);
    assert_eq!(req.patch_higher, u64::MAX);
}

#[test]
fn greater_variants_normalize_componentwise() {
    let req = VersionReq::new(&VersionReqVariant::MajorGreater { major: 1 });
    assert_eq!(
        (req.major_lower, req.minor_lower, req.patch_lower),
        (2, 0, 0)
    );
    let req = VersionReq::new(&VersionReqVariant::MinorGreater { major: 1, minor: 2 });
    assert_eq!(
        (req.major_lower, req.minor_lower, req.patch_lower),
        (2, 3, 0)
    );
    let req = VersionReq::new(&VersionReqVariant::PatchGreater {
        major: 1,
        minor: 2,
        patch: 3,
    });
    assert_eq!(
        (req.major_lower, req.minor_lower, req.patch_lower),
        (2, 3, 4)
    );
    assert_eq!(req.major_higher, u64::MAX);
    assert_eq!(req.minor_higher, u64::MAX);
    assert_eq!(req.patch_higher, u64::MAX);
}

#[test]
fn greater_equal_variants_default_to_zero() {
    let req = VersionReq::new(&VersionReqVariant::MajorGreaterEqual { major: 3 });
    assert_eq!(
        (req.major_lower, req.minor_lower, req.patch_lower),
        (3, 0, 0)
    );
    let req = VersionReq::new(&VersionReqVariant::MinorGreaterEqual { major: 3, minor: 4 });
    assert_eq!(
        (req.major_lower, req.minor_lower, req.patch_lower),
        (3, 4, 0)
    );
    let req = VersionReq::new(&VersionReqVariant::PatchGreaterEqual {
        major: 3,
        minor: 4,
        patch: 5,
    });
    assert_eq!(
        (req.major_lower, req.minor_lower, req.patch_lower),
        (3, 4, 5)
    );
}

#[test]
fn less_variants_normalize_componentwise() {
    let req = VersionReq::new(&VersionReqVariant::MajorLess { major: 3 });
    assert_eq!(
        (req.major_higher, req.minor_higher, req.patch_higher),
        (2, u64::MAX, u64::MAX)
    );
    let req = VersionReq::new(&VersionReqVariant::MinorLess { major: 3, minor: 4 });
    assert_eq!(
        (req.major_higher, req.minor_higher, req.patch_higher),
        (2, 3, u64::MAX)
    );
    let req = VersionReq::new(&VersionReqVariant::PatchLess {
        major: 3,
        minor: 4,
        patch: 5,
    });
    assert_eq!(
        (req.major_higher, req.minor_higher, req.patch_higher),
        (2, 3, 4)
    );
    assert_eq!(req.major_lower, 0);
    assert_eq!(req.minor_lower, 0);
    assert_eq!(req.patch_lower, 0);
}

#[test]
fn less_equal_variants_default_to_max() {
    let req = VersionReq::new(&VersionReqVariant::MajorLessEqual { major: 3 });
    assert_eq!(
        (req.major_higher, req.minor_higher, req.patch_higher),
        (3, u64::MAX, u64::MAX)
    );
    let req = VersionReq::new(&VersionReqVariant::MinorLessEqual { major: 3, minor: 4 });
    assert_eq!(
        (req.major_higher, req.minor_higher, req.patch_higher),
        (3, 4, u64::MAX)
    );
    let req = VersionReq::new(&VersionReqVariant::PatchLessEqual {
        major: 3,
        minor: 4,
        patch: 5,
    });
    assert_eq!(
        (req.major_higher, req.minor_higher, req.patch_higher),
        (3, 4, 5)
    );
}

#[test]
fn componentwise_box_counterexample() {
    // The known semantic trap: the box is componentwise, not
    // lexicographic. Lower (1,5,0), upper (2,MAX,MAX) does not contain
    // 2.0.0 because the minor lower bound 5 exceeds 0.
    let req = VersionReq::new(&VersionReqVariant::Compound(
        VersionReqVariantLowerBound::MinorGreaterEqual { major: 1, minor: 5 },
        VersionReqVariantUpperBound::MajorLessEqual { major: 2 },
    ));
    assert_eq!(
        (req.major_lower, req.minor_lower, req.patch_lower),
        (1, 5, 0)
    );
    assert_eq!(
        (req.major_higher, req.minor_higher, req.patch_higher),
        (2, u64::MAX, u64::MAX)
    );
    assert!(!req.matches(&Version::new(2, 0, 0)));
    assert!(req.matches(&Version::new(1, 5, 0)));
    assert!(req.matches(&Version::new(2, 5, 3)));
}

#[test]
fn compound_bounds_normalize_independently() {
    let req = VersionReq::new(&VersionReqVariant::Compound(
        VersionReqVariantLowerBound::PatchGreater {
            major: 1,
            minor: 2,
            patch: 3,
        },
        VersionReqVariantUpperBound::PatchLess {
            major: 5,
            minor: 6,
            patch: 7,
        },
    ));
    assert_eq!(
        (req.major_lower, req.minor_lower, req.patch_lower),
        (2, 3, 4)
    );
    assert_eq!(
        (req.major_higher, req.minor_higher, req.patch_higher),
        (4, 5, 6)
    );
    assert!(req.matches(&Version::new(3, 4, 5)));
    assert!(!req.matches(&Version::new(2, 3, 3)));
    assert!(!req.matches(&Version::new(4, 6, 6)));
}

#[test]
fn matches_is_componentwise_not_lexicographic() {
    let req = VersionReq::new(&VersionReqVariant::PatchGreaterEqual {
        major: 1,
        minor: 2,
        patch: 3,
    });
    assert!(req.matches(&Version::new(1, 2, 3)));
    assert!(req.matches(&Version::new(2, 3, 4)));
    // Lexicographically 2.0.0 is after 1.2.3, but the box test compares
    // each component on its own.
    assert!(!req.matches(&Version::new(2, 0, 0)));
}

#[test]
fn inverted_box_matches_nothing() {
    // Normalization can produce an inverted box; it must evaluate as
    // containing no version at all.
    let req = VersionReq::new(&VersionReqVariant::Compound(
        VersionReqVariantLowerBound::MajorGreaterEqual { major: 5 },
        VersionReqVariantUpperBound::MajorLessEqual { major: 3 },
    ));
    assert!(req.major_lower > req.major_higher);
    assert!(!req.matches(&Version::new(3, 0, 0)));
    assert!(!req.matches(&Version::new(4, 0, 0)));
    assert!(!req.matches(&Version::new(5, 0, 0)));
}

#[test]
fn unmatched_major_bound() {
    let version = Version::new_from_str("1.2.3").unwrap();
    let req = VersionReq::new(&VersionReqVariant::MajorLessEqual { major: 0 });
    assert!(!req.matches(&version));
    let strict = VersionReq::new(&VersionReqVariant::Strict(version));
    assert!(strict.matches(&version));
}
