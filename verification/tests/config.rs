use canvas::validation::config::{AllowedValues, ValidationConfig, ValidationConfigBuilder};
use canvas::validation::mask::DisplayMask;
use canvas::validation::{CharacterLimits, ExternalValidationState, ValidationError, ValidationResult};

#[test]
fn test_config_with_user_defined_mask() {
    let phone_mask = DisplayMask::new("(###) ###-####", '#');
    let config = ValidationConfig::with_mask(phone_mask);

    assert!(config.has_validation());

    let result = config.validate_char_insertion("123", 3, '4');
    assert!(result.is_acceptable());

    let result = config.validate_content("1234567890");
    assert!(result.is_acceptable());
}

#[test]
fn test_validation_config_builder() {
    let config = ValidationConfigBuilder::new().with_max_length(10).build();

    assert!(config.character_limits.is_some());
    assert_eq!(config.character_limits.unwrap().max_length(), Some(10));
}

#[test]
fn test_config_builder_with_user_mask() {
    let custom_mask = DisplayMask::new("##-##-##", '#').with_template('_');
    let config = ValidationConfigBuilder::new()
        .with_display_mask(custom_mask)
        .with_max_length(6)
        .build();

    assert!(config.has_validation());
    assert!(config.character_limits.is_some());
    assert!(config.display_mask.is_some());
}

#[test]
fn test_allowed_values() {
    let config = ValidationConfigBuilder::new()
        .with_allowed_values(vec!["alpha", "beta", "gamma", "delta", "epsilon"])
        .build();

    let result = config.validate_content("");
    assert!(result.is_acceptable());

    assert!(config.validate_content("alpha").is_acceptable());
    assert!(config.validate_content("beta").is_acceptable());

    let res = config.validate_content("alph");
    assert!(res.is_error());
    let res = config.validate_content("ALPHA");
    assert!(res.is_error());
}

#[test]
fn test_allowed_values_case_insensitive_and_required() {
    let config = ValidationConfigBuilder::new()
        .with_allowed_values_ci(vec!["Yes", "No"])
        .with_allowed_values_allow_empty(false)
        .build();

    let res = config.validate_content("");
    assert!(res.is_acceptable());

    assert!(config.validate_content("yes").is_acceptable());
    assert!(config.validate_content("NO").is_acceptable());

    let res = config.validate_content("maybe");
    assert!(res.is_error());
}

#[test]
fn test_validation_result() {
    let valid = ValidationResult::Valid;
    assert!(valid.is_acceptable());
    assert!(!valid.is_error());
    assert_eq!(valid.message(), None);

    let warning = ValidationResult::warning("Too long");
    assert!(warning.is_acceptable());
    assert!(!warning.is_error());
    assert_eq!(warning.message(), Some("Too long"));

    let error = ValidationResult::error("Invalid");
    assert!(!error.is_acceptable());
    assert!(error.is_error());
    assert_eq!(error.message(), Some("Invalid"));
}

#[test]
fn test_config_with_max_length() {
    let config = ValidationConfig::with_max_length(5);
    assert!(config.has_validation());

    let result = config.validate_char_insertion("test", 4, 'x');
    assert!(result.is_acceptable());

    let result = config.validate_char_insertion("tests", 5, 'x');
    assert!(!result.is_acceptable());
}

#[test]
fn config_messages_and_switch_rules() {
    let config = ValidationConfig::with_max_length(3);
    assert_eq!(config.validate_content("abcd").message(), Some("Character limit exceeded"));
    assert!(config.validate_content("abc").is_acceptable());
    assert!(config.allows_field_switch("a"));
    assert_eq!(config.field_switch_block_reason("a"), None);

    let ranged = ValidationConfigBuilder::new()
        .with_character_limits(CharacterLimits::new_range(2, 4))
        .build();
    assert!(!ranged.allows_field_switch("a"));
    assert!(ranged.allows_field_switch(""));
    assert!(ranged.allows_field_switch("ab"));
    assert_eq!(ranged.field_switch_block_reason("a"), Some("Minimum length not met".to_string()));
    let short = ranged.validate_content("a");
    assert!(short.is_acceptable());
    assert_eq!(short.message(), None);

    let required = ValidationConfigBuilder::new().with_allowed_values_allow_empty(false).build();
    assert_eq!(required.validate_content("").message(), Some("Value required"));
    assert!(required.has_allowed_values());
    assert!(!ValidationConfig::new().has_validation());
    let wl = ValidationConfigBuilder::new().with_allowed_values(vec!["x"]).build();
    assert_eq!(
        wl.validate_content("y").message(),
        Some("Value must be one of the allowed options")
    );
    let enabled = ValidationConfigBuilder::new().with_external_validation_enabled(true).build();
    assert!(enabled.external_validation_enabled);
}

#[test]
fn allowed_values_builders() {
    let av = AllowedValues::new(vec!["A".to_string()]).case_insensitive(true).allow_empty(false);
    assert!(!av.allows_empty());
    assert!(av.matches(&vec!['a']));
    assert!(!av.matches(&vec!['b']));
}

#[test]
fn validation_error_and_external_state() {
    let e = ValidationError::LimitExceeded { message: "5".to_string() };
    assert_eq!(e.describe(), "Character limit exceeded: 5");
    let p = ValidationError::PatternFailed { message: "x".to_string() };
    assert_eq!(p.describe(), "Pattern validation failed: x");
    let s = ExternalValidationState::Invalid { message: "m".to_string(), suggestion: None };
    assert_eq!(s.clone(), s);
}
