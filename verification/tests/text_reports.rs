use web_spec::execution::result::{ExecutionResult, FeatureInfo};
use web_spec::execution::text_output::to_text_output;

#[test]
fn test_text_output_formatting() {
    let feature = FeatureInfo {
        name: "Test Feature".to_string(),
        file: Some("test.feature".to_string()),
        description: Some("A test feature".to_string()),
    };
    let result = ExecutionResult::new(feature);
    let text = to_text_output(&result);
    assert!(text.contains("=== Execution Report ==="));
    assert!(text.contains("Feature: Test Feature"));
    assert!(text.contains("File: test.feature"));
    assert!(text.contains("Description: A test feature"));
    assert!(text.contains("=== Summary ==="));
}
