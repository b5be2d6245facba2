use secret_sealer::validate::{is_rfc1123_compliant, is_valid_data_key};

#[test]
fn test_rfc1123_regex() {
    assert!(is_rfc1123_compliant("abc"));
    assert!(is_rfc1123_compliant("123"));
    assert!(is_rfc1123_compliant("abc123"));
    assert!(!is_rfc1123_compliant(""));
    assert!(!is_rfc1123_compliant("/abc"));
    assert!(!is_rfc1123_compliant("name_with_unserscores"));
    assert!(is_rfc1123_compliant("abc-123"));
    assert!(!is_rfc1123_compliant(
        "very-loooooooooooooooooooooooooooooooooooooooooooooooooooooooooooooooong-name"
    ));
    assert!(!is_rfc1123_compliant("Name"));
    assert!(!is_rfc1123_compliant("UPPERCASE"));
}

#[test]
fn test_secret_data_key_regex() {
    assert!(is_valid_data_key("testfile.txt"));
    assert!(is_valid_data_key(".secret-file"));
    assert!(!is_valid_data_key(""));
    assert!(is_valid_data_key("UPPERCASE_NAME"));
    assert!(!is_valid_data_key("file/with/path.txt"));
}

#[test]
fn test_label_boundaries() {
    // 63 characters ending in an alphanumeric: the longest admissible label.
    let longest = "a".repeat(63);
    assert!(is_rfc1123_compliant(&longest));
    // 64 characters: too long.
    let too_long = "a".repeat(64);
    assert!(!is_rfc1123_compliant(&too_long));
    // A 63-character label must end with an alphanumeric.
    let hyphen_at_63 = format!("{}-", "a".repeat(62));
    assert!(!is_rfc1123_compliant(&hyphen_at_63));
    // Below 63 characters the rule admits a trailing hyphen.
    assert!(is_rfc1123_compliant("a-"));
    // A leading hyphen is never admitted.
    assert!(!is_rfc1123_compliant("-a"));
    // A single alphanumeric is the shortest admissible label.
    assert!(is_rfc1123_compliant("a"));
    assert!(is_rfc1123_compliant("7"));
}

#[test]
fn test_data_key_characters() {
    assert!(is_valid_data_key("a"));
    assert!(is_valid_data_key("A-Z_0.9"));
    assert!(!is_valid_data_key("space key"));
    assert!(!is_valid_data_key("key:colon"));
    assert!(!is_valid_data_key("\n"));
}
