use web_spec::execution::result::{
    count_steps, ErrorInfo, ExecutionResult, ExecutionSummary, FeatureInfo, ScenarioResult,
    Status, StepResult,
};

fn feature(name: &str) -> FeatureInfo {
    FeatureInfo { name: name.to_string(), file: None, description: None }
}

#[test]
fn test_execution_result_creation() {
    let feature = FeatureInfo {
        name: "Test Feature".to_string(),
        file: None,
        description: None,
    };
    let result = ExecutionResult::new(feature);
    assert_eq!(result.status, Status::Pending);
}

#[test]
fn test_scenario_status_update() {
    let mut scenario = ScenarioResult::new("Test Scenario".to_string());
    scenario.add_step(
        StepResult::new("Step 1".to_string(), "Given".to_string()).with_status(Status::Passed),
    );
    scenario.update_status();
    assert_eq!(scenario.status, Status::Passed);
}

#[test]
fn test_summary_calculation() {
    let mut summary = ExecutionSummary::new();
    let scenario = ScenarioResult {
        name: "Test".to_string(),
        status: Status::Passed,
        duration_ms: 100,
        steps: vec![StepResult {
            text: "Step 1".to_string(),
            keyword: "Given".to_string(),
            status: Status::Passed,
            duration_ms: 50,
            output: None,
            error: None,
        }],
    };
    summary.add_scenario_result(&scenario);
    assert_eq!(summary.total_scenarios, 1);
    assert_eq!(summary.total_steps, 1);
    assert_eq!(summary.passed_steps, 1);
}

#[test]
fn summary_identity_after_many_adds() {
    let mut summary = ExecutionSummary::new();
    let statuses = [Status::Passed, Status::Failed, Status::Skipped, Status::Pending];
    for (i, st) in statuses.iter().enumerate() {
        let mut sc = ScenarioResult::new(format!("s{}", i));
        for (j, st2) in statuses.iter().enumerate() {
            sc.add_step(
                StepResult::new(format!("t{}", j), "Given".to_string()).with_status(*st2),
            );
        }
        sc.status = *st;
        summary.add_scenario_result(&sc);
    }
    assert_eq!(
        summary.total_scenarios,
        summary.passed_scenarios + summary.failed_scenarios + summary.skipped_scenarios
    );
    assert_eq!(
        summary.total_steps,
        summary.passed_steps + summary.failed_steps + summary.skipped_steps
    );
    assert_eq!(summary.total_steps, 16);
}

#[test]
fn zero_step_scenario_derives_skipped() {
    let mut scenario = ScenarioResult::new("empty".to_string());
    scenario.update_status();
    assert_eq!(scenario.status, Status::Skipped);
}

#[test]
fn failed_step_dominates_scenario_status() {
    let mut scenario = ScenarioResult::new("mixed".to_string());
    scenario.add_step(
        StepResult::new("a".to_string(), "Given".to_string()).with_status(Status::Passed),
    );
    scenario.add_step(
        StepResult::new("b".to_string(), "When".to_string()).with_status(Status::Failed),
    );
    scenario.update_status();
    assert_eq!(scenario.status, Status::Failed);
}

#[test]
fn run_status_derives_from_summary() {
    let mut result = ExecutionResult::new(feature("f"));
    result.summary.total_steps = 2;
    result.summary.passed_steps = 1;
    result.summary.failed_steps = 1;
    result.update_status();
    assert_eq!(result.status, Status::Failed);
    result.summary.failed_steps = 0;
    result.update_status();
    assert_eq!(result.status, Status::Passed);
    result.summary.passed_steps = 0;
    result.update_status();
    assert_eq!(result.status, Status::Skipped);
}

#[test]
fn error_info_collects_suggestions() {
    let e = ErrorInfo::new("CODE".to_string(), "broken".to_string())
        .with_suggestion("try A".to_string())
        .with_suggestion("try B".to_string());
    assert_eq!(e.suggestions.len(), 2);
    assert_eq!(e.suggestions[1], "try B");
    let _ = count_steps;
}
