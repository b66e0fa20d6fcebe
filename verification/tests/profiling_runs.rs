use web_spec::execution::profiling::analyze_execution;
use web_spec::execution::result::{
    ExecutionResult, ExecutionSummary, FeatureInfo, ScenarioResult, Status, StepResult,
};

fn step(text: &str, keyword: &str, duration_ms: u64) -> StepResult {
    StepResult {
        text: text.to_string(),
        keyword: keyword.to_string(),
        status: Status::Passed,
        duration_ms,
        output: None,
        error: None,
    }
}

fn create_test_result() -> ExecutionResult {
    ExecutionResult {
        status: Status::Passed,
        timestamp: "2024-01-01T00:00:00Z".to_string(),
        duration_ms: 1000,
        feature: FeatureInfo {
            name: "Test".to_string(),
            file: Some("test.feature".to_string()),
            description: None,
        },
        scenarios: vec![
            ScenarioResult {
                name: "Scenario 1".to_string(),
                status: Status::Passed,
                duration_ms: 600,
                steps: vec![step("I navigate to", "Given", 400), step("I click on button", "When", 200)],
            },
            ScenarioResult {
                name: "Scenario 2".to_string(),
                status: Status::Passed,
                duration_ms: 400,
                steps: vec![step("I navigate to", "Given", 300), step("I type text", "When", 100)],
            },
        ],
        summary: ExecutionSummary {
            total_scenarios: 2,
            passed_scenarios: 2,
            failed_scenarios: 0,
            skipped_scenarios: 0,
            total_steps: 4,
            passed_steps: 4,
            failed_steps: 0,
            skipped_steps: 0,
        },
    }
}

#[test]
fn test_analyze_execution() {
    let result = create_test_result();
    let metrics = analyze_execution(&result);
    assert_eq!(metrics.total_duration_ms, 1000);
    assert_eq!(metrics.scenarios.len(), 2);
    assert!(!metrics.slowest_steps.is_empty());
}

#[test]
fn test_scenario_metrics() {
    let result = create_test_result();
    let metrics = analyze_execution(&result);
    let scenario1 = &metrics.scenarios[0];
    assert_eq!(scenario1.name, "Scenario 1");
    assert_eq!(scenario1.duration_ms, 600);
    assert_eq!(scenario1.step_count, 2);
    // the first step takes 400 of 600 ms: exactly 40000/600 percent
    let share = &scenario1.steps[0].percentage;
    assert_eq!(share.num, 40000);
    assert_eq!(share.den, 600);
}

#[test]
fn test_slowest_steps_aggregation() {
    let result = create_test_result();
    let metrics = analyze_execution(&result);
    let nav_step = metrics
        .slowest_steps
        .iter()
        .find(|s| s.text.contains("navigate"));
    assert!(nav_step.is_some());
    if let Some(step) = nav_step {
        assert_eq!(step.calls, 2);
        assert_eq!(step.total_ms, 700);
        assert_eq!(step.average_ms, 350);
    }
    // largest totals first
    for w in metrics.slowest_steps.windows(2) {
        assert!(w[0].total_ms >= w[1].total_ms);
    }
}

#[test]
fn test_bottleneck_analysis() {
    let result = create_test_result();
    let metrics = analyze_execution(&result);
    assert_eq!(
        metrics.bottleneck_analysis.top_bottleneck.as_deref(),
        Some("I navigate to")
    );
    assert!(!metrics.bottleneck_analysis.suggestions.is_empty());
    assert_eq!(
        metrics.bottleneck_analysis.slow_scenario.as_deref(),
        Some("Scenario 1")
    );
}
