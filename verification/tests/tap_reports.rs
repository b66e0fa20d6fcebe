use web_spec::execution::result::{
    ExecutionResult, ExecutionSummary, FeatureInfo, ScenarioResult, Status, StepResult,
};
use web_spec::execution::tap_output::{parse_tap_output, to_tap_output, TapSummary};

fn create_test_result() -> ExecutionResult {
    ExecutionResult {
        status: Status::Failed,
        timestamp: "2024-01-01T00:00:00Z".to_string(),
        duration_ms: 150,
        feature: FeatureInfo {
            name: "Test Feature".to_string(),
            file: Some("test.feature".to_string()),
            description: None,
        },
        scenarios: vec![
            ScenarioResult {
                name: "Scenario 1".to_string(),
                status: Status::Passed,
                duration_ms: 100,
                steps: vec![],
            },
            ScenarioResult {
                name: "Scenario 2".to_string(),
                status: Status::Failed,
                duration_ms: 50,
                steps: vec![StepResult {
                    text: "I click on button".to_string(),
                    keyword: "Given".to_string(),
                    status: Status::Failed,
                    duration_ms: 50,
                    output: None,
                    error: None,
                }],
            },
        ],
        summary: ExecutionSummary {
            total_scenarios: 2,
            passed_scenarios: 1,
            failed_scenarios: 1,
            skipped_scenarios: 0,
            total_steps: 1,
            passed_steps: 0,
            failed_steps: 1,
            skipped_steps: 0,
        },
    }
}

#[test]
fn test_tap_output_format() {
    let result = create_test_result();
    let tap = to_tap_output(&result);
    assert!(tap.contains("TAP version 13"));
    assert!(tap.contains("1..2"));
    assert!(tap.contains("ok 1 Scenario 1"));
    assert!(tap.contains("not ok 2 Scenario 2"));
}

#[test]
fn test_tap_output_with_errors() {
    let result = create_test_result();
    let tap = to_tap_output(&result);
    assert!(tap.contains("---"));
    assert!(tap.contains("message:"));
    assert!(tap.contains("Step failed: I click on button"));
}

#[test]
fn test_parse_tap_output() {
    let tap_text = "TAP version 13\n1..2\nok 1 Scenario 1\nnot ok 2 Scenario 2\n  ---\n  message: Step failed\n  ...\n";
    let summary = parse_tap_output(tap_text);
    assert_eq!(summary.version, "13");
    assert_eq!(summary.total, 2);
    assert_eq!(summary.passed, 1);
    assert_eq!(summary.failed, 1);
}

#[test]
fn test_tap_summary_success() {
    let success = TapSummary {
        version: "13".to_string(),
        total: 2,
        passed: 2,
        failed: 0,
    };
    assert!(success.success());
    let failure = TapSummary {
        version: "13".to_string(),
        total: 2,
        passed: 1,
        failed: 1,
    };
    assert!(!failure.success());
}

#[test]
fn tap_round_trip_counts_agree() {
    let result = create_test_result();
    let tap = to_tap_output(&result);
    let summary = parse_tap_output(&tap);
    assert_eq!(summary.total, 2);
    assert_eq!(summary.passed, 1);
    assert_eq!(summary.failed, 1);
    assert_eq!(summary.version, "13");
}
