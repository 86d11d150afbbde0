use fast_version::Version;
use fast_version::VersionParseError;

#[test]
fn parse_success_basic() {
    let v = Version::new_from_str("1.2.3").unwrap();
    assert_eq!(v, Version::new(1, 2, 3));
    assert_eq!(v.major, 1);
    assert_eq!(v.minor, 2);
    assert_eq!(v.patch, 3);
}

#[test]
fn parse_failure_cases() {
    assert_eq!(
        Version::new_from_str("1.2"),
        Err(VersionParseError::FormatWrong)
    );
    assert_eq!(
        Version::new_from_str("1.2.3.4"),
        Err(VersionParseError::FormatWrong)
    );
    assert_eq!(
        Version::new_from_str("a.2.3"),
        Err(VersionParseError::MajorParseError)
    );
    assert_eq!(
        Version::new_from_str("1.b.3"),
        Err(VersionParseError::MinorParseError)
    );
    assert_eq!(
        Version::new_from_str("1.2.c"),
        Err(VersionParseError::PatchParseError)
    );
}

#[test]
fn parse_rejects_sign_and_whitespace() {
    assert_eq!(
        Version::new_from_str("+1.2.3"),
        Err(VersionParseError::MajorParseError)
    );
    assert_eq!(
        Version::new_from_str(" 1.2.3"),
        Err(VersionParseError::MajorParseError)
    );
    assert_eq!(
        Version::new_from_str("1.2.3 "),
        Err(VersionParseError::PatchParseError)
    );
    assert_eq!(
        Version::new_from_str("1.-2.3"),
        Err(VersionParseError::MinorParseError)
    );
}

#[test]
fn parse_empty_fields() {
    assert_eq!(
        Version::new_from_str(""),
        Err(VersionParseError::FormatWrong)
    );
    assert_eq!(
        Version::new_from_str(".."),
        Err(VersionParseError::MajorParseError)
    );
    assert_eq!(
        Version::new_from_str("1..3"),
        Err(VersionParseError::MinorParseError)
    );
    assert_eq!(
        Version::new_from_str("1.2."),
        Err(VersionParseError::PatchParseError)
    );
}

#[test]
fn parse_leading_zeros_permitted() {
    let v = Version::new_from_str("01.002.0003").unwrap();
    assert_eq!(v, Version::new(1, 2, 3));
}

#[test]
fn parse_u64_boundary() {
    let v = Version::new_from_str("18446744073709551615.0.0").unwrap();
    assert_eq!(v, Version::new(u64::MAX, 0, 0));
    assert_eq!(
        Version::new_from_str("18446744073709551616.0.0"),
        Err(VersionParseError::MajorParseError)
    );
}

#[test]
fn parse_non_ascii_field() {
    assert_eq!(
        Version::new_from_str("\u{e9}.2.3"),
        Err(VersionParseError::MajorParseError)
    );
}

#[test]
fn parse_through_from_str() {
    let v: Version = "4.5.6".parse().unwrap();
    assert_eq!(v, Version::new(4, 5, 6));
    assert!("4.5".parse::<Version>().is_err());
}

#[test]
fn to_string_exact() {
    assert_eq!(&Version::new(1, 2, 3).to_string(), "1.2.3");
    assert_eq!(&Version::new(0, 0, 0).to_string(), "0.0.0");
    assert_eq!(&Version::new(10, 200, 3000).to_string(), "10.200.3000");
    assert_eq!(
        &Version::new(u64::MAX, 0, 7).to_string(),
        "18446744073709551615.0.7"
    );
}

#[test]
fn round_trip_through_string() {
    let cases = [
        Version::new(0, 0, 0),
        Version::new(0, 1, 2),
        Version::new(1, 2, 3),
        Version::new(12, 345, 6789),
        Version::new(u64::MAX, u64::MAX, u64::MAX),
    ];
    for v in cases {
        let rendered = v.to_string();
        assert_eq!(Version::new_from_str(&rendered), Ok(v));
    }
}

#[test]
fn ordering_is_lexicographic() {
    assert!(Version::new(1, 9, 9) < Version::new(2, 0, 0));
    assert!(Version::new(1, 2, 9) < Version::new(1, 3, 0));
    assert!(Version::new(1, 2, 3) < Version::new(1, 2, 4));
    assert!(Version::new(2, 0, 0) > Version::new(1, 9, 9));
    assert!(Version::new(1, 2, 3) <= Version::new(1, 2, 3));
    assert!(Version::new(1, 2, 3) >= Version::new(1, 2, 3));
}

#[test]
fn ordering_exactly_one_holds() {
    let a = Version::new(1, 2, 3);
    let b = Version::new(1, 2, 4);
    assert!(a < b);
    assert!(!(b < a));
    assert!(a != b);
    let c = Version::new(1, 2, 3);
    assert!(a == c);
    assert!(!(a < c));
    assert!(!(c < a));
}

#[test]
fn error_messages() {
    assert_eq!(
        VersionParseError::FormatWrong.message(),
        "Format of version string is wrong"
    );
    assert_eq!(
        VersionParseError::MajorParseError.message(),
        "Parsing error in major"
    );
    assert_eq!(
        VersionParseError::MinorParseError.message(),
        "Minor Parse Error"
    );
    assert_eq!(
        VersionParseError::PatchParseError.message(),
        "Patch Parse Error"
    );
}
