use pcd_tool::error::ConvertError;
use pcd_tool::text::{parse_usize, push_decimal, str_ends_with, str_eq};

#[test]
fn parse_plain_numbers() {
    assert_eq!(parse_usize("0"), Some(0));
    assert_eq!(parse_usize("42"), Some(42));
    assert_eq!(parse_usize("000123"), Some(123));
}

#[test]
fn parse_accepts_one_leading_plus() {
    assert_eq!(parse_usize("+7"), Some(7));
    assert_eq!(parse_usize("+"), None);
    assert_eq!(parse_usize("++7"), None);
}

#[test]
fn parse_rejects_non_digits() {
    assert_eq!(parse_usize(""), None);
    assert_eq!(parse_usize("-1"), None);
    assert_eq!(parse_usize("1 2"), None);
    assert_eq!(parse_usize("12a"), None);
    assert_eq!(parse_usize("1.0"), None);
}

#[test]
fn parse_handles_the_usize_boundary() {
    assert_eq!(parse_usize("18446744073709551615"), Some(usize::MAX));
    assert_eq!(parse_usize("18446744073709551616"), None);
    assert_eq!(parse_usize("99999999999999999999999"), None);
}

#[test]
fn suffix_matching() {
    assert!(str_ends_with("cloud.pcd", ".pcd"));
    assert!(str_ends_with(".pcd", ".pcd"));
    assert!(!str_ends_with("pcd", ".pcd"));
    assert!(!str_ends_with("cloud.pcdx", ".pcd"));
    assert!(str_ends_with("anything", ""));
}

#[test]
fn string_equality() {
    assert!(str_eq("dual", "dual"));
    assert!(!str_eq("dual", "duel"));
    assert!(!str_eq("dual", "dua"));
}

#[test]
fn formatted_numbers_parse_back() {
    for n in [0usize, 9, 10, 123456, usize::MAX] {
        let mut text = String::new();
        push_decimal(n, &mut text);
        assert_eq!(parse_usize(&text), Some(n), "round trip of {n}");
    }
}

#[test]
fn error_messages_name_the_failure() {
    assert_eq!(
        ConvertError::TransformSourceConflict.message(),
        "--transform and --transform-file cannot be both specified"
    );
    assert_eq!(
        ConvertError::TruncatedRecord.message(),
        "the raw binary file ends inside a record"
    );
    assert_eq!(
        ConvertError::MalformedTransformSpec.message(),
        "the transform description does not parse"
    );
    assert_eq!(
        ConvertError::DirectoryConflict.message(),
        "the output directory already exists"
    );
    assert_eq!(
        ConvertError::FormatAmbiguous.message(),
        "cannot guess the file format"
    );
}
