use emulator_pool::text::{contains_token, decimal_string, parse_version_field};

#[test]
fn decimal_rendering() {
    assert_eq!(decimal_string(0), "0");
    assert_eq!(decimal_string(7), "7");
    assert_eq!(decimal_string(5554), "5554");
    assert_eq!(decimal_string(65535), "65535");
    assert_eq!(decimal_string(100), "100");
}

#[test]
fn token_search() {
    assert!(!contains_token("", "pkg"));
    assert!(contains_token("pkg", "pkg"));
    assert!(contains_token("a pkg\tb", "pkg"));
    assert!(contains_token("a\u{a0}pkg\u{2028}b", "pkg"));
    assert!(!contains_token("apkg", "pkg"));
    assert!(!contains_token("pkg2", "pkg"));
    assert!(!contains_token("pkg", ""));
    assert!(!contains_token("a b", "a b"));
}

#[test]
fn version_field_extraction() {
    assert_eq!(parse_version_field("versionName=2.0\n"), Some("2.0".to_string()));
    assert_eq!(parse_version_field("\nversionName=2.0"), None);
    assert_eq!(parse_version_field(""), None);
    assert_eq!(parse_version_field("k= \t x y \u{a0}\r\n"), Some("x y".to_string()));
    assert_eq!(parse_version_field("k=\u{2003}\u{3000}"), Some(String::new()));
    assert_eq!(parse_version_field("k=é=z"), Some("é".to_string()));
}
