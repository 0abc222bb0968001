use spec_server::domain::value_objects::{
    check_content, SpecContent, SpecName, ValidationError, Version, MAX_CONTENT_BYTES, MAX_NAME_CHARS,
};

#[test]
fn name_of_no_character_is_refused() {
    assert_eq!(SpecName::new(String::new()).unwrap_err(), ValidationError::EmptyName);
}

#[test]
fn name_of_one_character_is_accepted() {
    let name = SpecName::new("a".to_string()).unwrap();
    assert_eq!(name.as_str(), "a");
    assert_eq!(name.to_string(), "a");
}

#[test]
fn name_of_255_characters_is_accepted() {
    assert_eq!(MAX_NAME_CHARS, 255);
    let text = "n".repeat(255);
    assert_eq!(SpecName::new(text.clone()).unwrap().as_str(), text);
}

#[test]
fn name_of_256_characters_is_refused() {
    assert_eq!(SpecName::new("n".repeat(256)).unwrap_err(), ValidationError::NameTooLong);
}

#[test]
fn name_takes_letters_digits_and_three_marks() {
    let text = "Auth-rules_v2.0".to_string();
    assert_eq!(SpecName::new(text.clone()).unwrap().as_str(), text);
}

#[test]
fn name_with_other_characters_is_refused() {
    for bad in ["a b", "a/b", "a:b", "caf\u{e9}", "a\n", "*"] {
        assert_eq!(
            SpecName::new(bad.to_string()).unwrap_err(),
            ValidationError::InvalidCharacters,
            "{bad:?}"
        );
    }
}

#[test]
fn name_length_is_judged_before_its_characters() {
    let text = format!("{} ", "n".repeat(255));
    assert_eq!(SpecName::new(text).unwrap_err(), ValidationError::NameTooLong);
}

#[test]
fn name_length_counts_characters() {
    let text = "\u{e9}".repeat(200);
    assert_eq!(SpecName::new(text).unwrap_err(), ValidationError::InvalidCharacters);
}

#[test]
fn clone_of_a_name_is_the_name() {
    let name = SpecName::new("auth".to_string()).unwrap();
    assert_eq!(name.clone().as_str(), "auth");
}

#[test]
fn content_of_no_byte_is_refused() {
    assert_eq!(SpecContent::new(String::new()).unwrap_err(), ValidationError::EmptyContent);
    assert_eq!(SpecContent::validate(""), Some(ValidationError::EmptyContent));
}

#[test]
fn content_of_one_byte_is_accepted() {
    assert_eq!(SpecContent::new("a".to_string()).unwrap().as_str(), "a");
}

#[test]
fn content_of_2048_bytes_is_accepted() {
    assert_eq!(MAX_CONTENT_BYTES, 2048);
    let text = format!("a: {}", "x".repeat(2045));
    assert_eq!(text.len(), 2048);
    assert_eq!(SpecContent::new(text.clone()).unwrap().as_str(), text);
}

#[test]
fn content_of_2049_bytes_is_refused() {
    let text = format!("a: {}", "x".repeat(2046));
    assert_eq!(text.len(), 2049);
    assert_eq!(SpecContent::new(text).unwrap_err(), ValidationError::ContentTooLarge);
}

#[test]
fn content_size_counts_bytes() {
    let text = format!("a: {}", "\u{e9}".repeat(1023));
    assert_eq!(text.len(), 2049);
    assert!(text.chars().count() < 2048);
    assert_eq!(SpecContent::new(text).unwrap_err(), ValidationError::ContentTooLarge);
}

#[test]
fn content_size_is_judged_before_its_syntax() {
    let text = format!("key: : :{}", "x".repeat(2048));
    assert_eq!(SpecContent::new(text).unwrap_err(), ValidationError::ContentTooLarge);
}

#[test]
fn malformed_yaml_is_refused() {
    assert_eq!(
        SpecContent::new("key: : :".to_string()).unwrap_err(),
        ValidationError::InvalidYaml
    );
    assert_eq!(SpecContent::validate("key: : :"), Some(ValidationError::InvalidYaml));
    assert_eq!(SpecContent::validate("a: [1, 2"), Some(ValidationError::InvalidYaml));
}

#[test]
fn well_formed_yaml_is_accepted() {
    assert_eq!(SpecContent::validate("a: 1"), None);
    assert_eq!(SpecContent::validate("rules:\n  - pattern: x\n    operator: AND\n"), None);
    assert_eq!(SpecContent::new("a: 1".to_string()).unwrap().clone().as_str(), "a: 1");
}

#[test]
fn verdict_on_content_follows_what_the_parser_said() {
    assert_eq!(check_content("a: 1", true), None);
    assert_eq!(check_content("a: 1", false), Some(ValidationError::InvalidYaml));
    assert_eq!(check_content("", true), Some(ValidationError::EmptyContent));
    assert_eq!(check_content(&"x".repeat(2049), true), Some(ValidationError::ContentTooLarge));
    assert_eq!(check_content(&"x".repeat(2048), true), None);
}

#[test]
fn version_counts_from_one() {
    assert_eq!(Version::initial().as_u32(), 1);
    assert_eq!(Version::initial().increment().as_u32(), 2);
    assert_eq!(Version::new(7).as_u32(), 7);
    assert_eq!(Version::new(7).increment().as_u32(), 8);
    assert_eq!(Version::new(0).as_u32(), 0);
    assert_eq!(Version::new(3), Version::new(3));
}

#[test]
fn version_is_written_in_decimal() {
    assert_eq!(Version::new(0).to_string(), "0");
    assert_eq!(Version::initial().to_string(), "1");
    assert_eq!(Version::new(10).to_string(), "10");
    assert_eq!(Version::new(4294967295).to_string(), "4294967295");
}
