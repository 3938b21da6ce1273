use crumbbox::configuration::Environment;
use crumbbox::upload::UploadError;
use crumbbox::validators::validate_file_name;

#[test]
fn ordinary_file_names_are_accepted() {
    for name in [
        "report.txt",
        "test.png",
        "test with spaces.txt",
        "...",
        "\u{3042}.txt",
    ] {
        assert!(validate_file_name(name).is_ok(), "name: {}", name);
    }
}

#[test]
fn names_holding_a_separator_are_rejected() {
    for name in ["a/b", "/", "../evil", "nested/dir/file.txt", "/etc"] {
        let message = validate_file_name(name).unwrap_err();
        assert_eq!(message, format!("Invalid file name: {}", name));
    }
}

#[test]
fn empty_and_whitespace_names_are_rejected() {
    for name in ["", " ", "   ", "\t \n", "\u{00A0}\u{3000}"] {
        let message = validate_file_name(name).unwrap_err();
        assert_eq!(message, format!("Invalid file name: {}", name));
    }
}

#[test]
fn reserved_names_are_rejected() {
    assert!(validate_file_name("..").is_err());
    assert!(validate_file_name("/").is_err());
}

#[test]
fn names_with_control_characters_are_rejected() {
    for name in ["a\u{0000}b", "a\u{0007}b", "tab\tnot-trimmed-away", "del\u{007F}"] {
        assert!(validate_file_name(name).is_err(), "name: {:?}", name);
    }
}

#[test]
fn byte_length_limit_is_exactly_255_bytes() {
    assert!(validate_file_name(&"a".repeat(255)).is_ok());
    assert!(validate_file_name(&"a".repeat(256)).is_err());
    // 85 three-byte characters are 255 bytes; 86 are 258
    assert!(validate_file_name(&"\u{3042}".repeat(85)).is_ok());
    assert!(validate_file_name(&"\u{3042}".repeat(86)).is_err());
    // 128 three-byte characters are well over the limit even though
    // only 128 characters long
    assert!(validate_file_name(&"\u{3042}".repeat(128)).is_err());
}

#[test]
fn environment_names_round_trip() {
    assert_eq!(Environment::Local.as_str(), "local");
    assert_eq!(Environment::Production.as_str(), "production");
    assert_eq!(
        Environment::try_from("local".to_string()).unwrap(),
        Environment::Local
    );
    assert_eq!(
        Environment::try_from("production".to_string()).unwrap(),
        Environment::Production
    );
}

#[test]
fn unknown_environment_is_reported() {
    let message = Environment::try_from("staging".to_string()).unwrap_err();
    assert_eq!(
        message,
        "staging is not a valid environment. Use local or production"
    );
}

#[test]
fn error_classification_matches_the_variant() {
    let validation = UploadError::ValidationError("bad".to_string());
    assert!(validation.is_client_error());
    assert_eq!(validation.into_message(), "bad");
    let unexpected = UploadError::UnexpectedError("disk".to_string());
    assert!(!unexpected.is_client_error());
    assert_eq!(unexpected.into_message(), "disk");
}
