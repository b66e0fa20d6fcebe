use web_spec::discovery::catalog::build_step_catalog;
use web_spec::validation::feature::validate_feature_content;
use web_spec::validation::step::validate_step;

#[test]
fn test_validate_valid_feature() {
    let feature = "\nFeature: Login\n  Scenario: Valid Login\n    Given I navigate to \"https://example.com\"\n    When I click on \"button.login\"\n    Then I should see \"Welcome\"\n";
    let result = validate_feature_content(feature).unwrap();
    assert!(result.is_valid(), "Valid feature should pass validation");
}

#[test]
fn test_validate_invalid_step() {
    let feature = "\nFeature: Login\n  Scenario: Invalid\n    Given I foobarbaz something\n";
    let result = validate_feature_content(feature).unwrap();
    assert!(!result.is_valid(), "Invalid step should fail validation");
    assert!(!result.errors.is_empty());
}

#[test]
fn test_validate_missing_feature() {
    let feature = "\nScenario: No feature\n    Given something\n";
    let result = validate_feature_content(feature).unwrap();
    assert!(!result.is_valid(), "Missing Feature should fail");
}

#[test]
fn test_validate_known_step() {
    let catalog = build_step_catalog();
    let result = validate_step("I click on \"button.login\"", 1, &catalog);
    assert!(result.is_ok());
}

#[test]
fn test_validate_unknown_step() {
    let catalog = build_step_catalog();
    let result = validate_step("I foobarbaz on \"button\"", 1, &catalog);
    assert!(result.is_err());
    let e = result.err().unwrap();
    assert_eq!(e.error_type, "UNKNOWN_STEP");
    assert_eq!(e.step_number, Some(1));
}
