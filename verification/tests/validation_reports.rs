use web_spec::validation::errors::{ValidationError, ValidationResult, ValidationWarning};
use web_spec::validation::report::{validation_to_html, validation_to_tap};

fn invalid_result() -> ValidationResult {
    let mut r = ValidationResult::new();
    r.add_error(
        ValidationError::new("UNKNOWN_STEP", "Step 'I frob' does not match any registered pattern"),
    );
    r.add_warning(ValidationWarning::new("NO_SCENARIOS", "Feature file contains no scenarios"));
    r
}

#[test]
fn tap_report_of_a_valid_file_is_one_ok() {
    let r = ValidationResult::new();
    let tap = validation_to_tap(&r, "login.feature");
    assert_eq!(tap, "TAP version 13\n1..1\nok 1 - Feature validation passed\n");
}

#[test]
fn tap_report_of_an_invalid_file_lists_the_errors() {
    let tap = validation_to_tap(&invalid_result(), "login.feature");
    assert!(tap.contains("not ok 1 - Feature validation failed"));
    assert!(tap.contains("File: login.feature"));
    assert!(tap.contains("Errors: 1"));
    assert!(tap.contains("Warnings: 1"));
    assert!(tap.contains("- UNKNOWN_STEP: Step 'I frob' does not match any registered pattern"));
}

#[test]
fn html_report_escapes_and_lists() {
    let html = validation_to_html(&invalid_result(), "a&b<c>.feature");
    assert!(html.starts_with("<!DOCTYPE html>"));
    assert!(html.contains("a&amp;b&lt;c&gt;.feature"));
    assert!(html.contains("INVALID"));
    assert!(html.contains("error-message"));
    assert!(html.contains("warning-message"));
    assert!(html.ends_with("</html>\n"));
    let html_ok = validation_to_html(&ValidationResult::new(), "x.feature");
    assert!(html_ok.contains("VALID"));
    assert!(!html_ok.contains("errors-section"));
}
