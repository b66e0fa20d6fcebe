use web_spec::execution::comparison::{compare_results, ChangeType, ComparisonStatus, Severity};
use web_spec::execution::result::{
    ExecutionResult, ExecutionSummary, FeatureInfo, ScenarioResult, Status, StepResult,
};

fn create_test_result(name: &str, status: Status, duration_ms: u64) -> ExecutionResult {
    let feature = FeatureInfo {
        name: name.to_string(),
        file: Some("test.feature".to_string()),
        description: None,
    };
    let mut result = ExecutionResult::new(feature);
    result.status = status;
    result.duration_ms = duration_ms;

    let mut scenario = ScenarioResult {
        name: "Test Scenario".to_string(),
        status,
        duration_ms,
        steps: Vec::new(),
    };
    let step = StepResult {
        text: "I do something".to_string(),
        keyword: "Given".to_string(),
        status,
        duration_ms: duration_ms / 2,
        output: None,
        error: None,
    };
    scenario.steps.push(step);
    result.add_scenario(scenario);
    result.summary = ExecutionSummary {
        total_scenarios: 1,
        passed_scenarios: if status == Status::Passed { 1 } else { 0 },
        failed_scenarios: if status == Status::Failed { 1 } else { 0 },
        skipped_scenarios: if status == Status::Skipped { 1 } else { 0 },
        total_steps: 1,
        passed_steps: if status == Status::Passed { 1 } else { 0 },
        failed_steps: if status == Status::Failed { 1 } else { 0 },
        skipped_steps: if status == Status::Skipped { 1 } else { 0 },
    };
    result
}

#[test]
fn test_compare_identical_results() {
    let baseline = create_test_result("Feature", Status::Passed, 1000);
    let current = create_test_result("Feature", Status::Passed, 1000);

    let comparison = compare_results(&baseline, &current);
    assert_eq!(comparison.status, ComparisonStatus::Unchanged);
    assert_eq!(comparison.summary.regression_count, 0);
    assert_eq!(comparison.summary.improvement_count, 0);
}

#[test]
fn test_detect_regression_status_change() {
    let baseline = create_test_result("Feature", Status::Passed, 1000);
    let current = create_test_result("Feature", Status::Failed, 1000);

    let comparison = compare_results(&baseline, &current);
    assert_eq!(comparison.status, ComparisonStatus::Regression);
    assert!(comparison.summary.regression_count > 0);
    assert_eq!(comparison.regressions[0].severity, Severity::Critical);
}

#[test]
fn test_detect_duration_improvement() {
    let baseline = create_test_result("Feature", Status::Passed, 2000);
    let current = create_test_result("Feature", Status::Passed, 1000);

    let comparison = compare_results(&baseline, &current);
    assert_eq!(comparison.status, ComparisonStatus::Improvement);
    assert!(comparison.summary.improvement_count > 0);
}

#[test]
fn test_metrics_difference_calculation() {
    let baseline = create_test_result("Feature", Status::Passed, 1000);
    let current = create_test_result("Feature", Status::Passed, 1500);

    let comparison = compare_results(&baseline, &current);
    assert!(comparison.metrics_diff.duration_diff_ms > 0);
    // the exact percentage: (1500 - 1000) / 1000 * 100 = 50
    let pct = comparison.metrics_diff.duration_change_percent;
    assert!(!pct.neg);
    assert_eq!(pct.num, 500 * 100);
    assert_eq!(pct.den, 1000);
}

#[test]
fn regression_and_improvement_both_present_reports_regression() {
    // one scenario regresses from passed to failed, another improves its
    // duration: the overall status is still a regression
    let mk = |name: &str, status: Status, dur: u64| ScenarioResult {
        name: name.to_string(),
        status,
        duration_ms: dur,
        steps: vec![],
    };
    let feature = FeatureInfo { name: "F".to_string(), file: None, description: None };
    let mut baseline = ExecutionResult::new(feature);
    let mut current = ExecutionResult::new(FeatureInfo {
        name: "F".to_string(),
        file: None,
        description: None,
    });
    baseline.add_scenario(mk("a", Status::Passed, 100));
    baseline.add_scenario(mk("b", Status::Passed, 1000));
    current.add_scenario(mk("a", Status::Failed, 100));
    current.add_scenario(mk("b", Status::Passed, 500));

    let comparison = compare_results(&baseline, &current);
    assert!(comparison.regressions.len() >= 1);
    assert!(comparison.improvements.len() >= 1);
    assert_eq!(comparison.status, ComparisonStatus::Regression);
}

#[test]
fn duration_regression_severity_boundaries() {
    let mk_pair = |base_ms: u64, cur_ms: u64| {
        let baseline = create_test_result("Feature", Status::Passed, 0);
        let mut baseline = baseline;
        baseline.scenarios[0].duration_ms = base_ms;
        let mut current = create_test_result("Feature", Status::Passed, 0);
        current.scenarios[0].duration_ms = cur_ms;
        compare_results(&baseline, &current)
    };

    // exactly +51%: severity high
    let c = mk_pair(100, 151);
    assert_eq!(c.regressions.len(), 1);
    assert_eq!(c.regressions[0].severity, Severity::High);

    // exactly +11%: severity medium
    let c = mk_pair(100, 111);
    assert_eq!(c.regressions.len(), 1);
    assert_eq!(c.regressions[0].severity, Severity::Medium);

    // exactly +5%: below the 10% reporting floor, not reported
    let c = mk_pair(100, 105);
    assert_eq!(c.regressions.len(), 0);

    // exactly +50%: still medium, not high
    let c = mk_pair(100, 150);
    assert_eq!(c.regressions.len(), 1);
    assert_eq!(c.regressions[0].severity, Severity::Medium);

    // exactly +10%: not reported
    let c = mk_pair(100, 110);
    assert_eq!(c.regressions.len(), 0);
}

#[test]
fn scenario_regression_description_has_one_decimal() {
    let mut baseline = create_test_result("Feature", Status::Passed, 0);
    baseline.scenarios[0].duration_ms = 100;
    let mut current = create_test_result("Feature", Status::Passed, 0);
    current.scenarios[0].duration_ms = 151;
    let c = compare_results(&baseline, &current);
    assert_eq!(
        c.regressions[0].description,
        "Scenario 'Test Scenario' duration regressed by 51.0%"
    );
    assert_eq!(c.regressions[0].impact_value, 51);
    assert_eq!(c.regressions[0].impact_unit, "ms");
}

#[test]
fn step_mean_changes_respect_the_five_percent_floor() {
    let mk = |durs: &[u64]| {
        let feature = FeatureInfo { name: "F".to_string(), file: None, description: None };
        let mut r = ExecutionResult::new(feature);
        let mut sc = ScenarioResult::new("s".to_string());
        for d in durs {
            sc.add_step(
                StepResult::new("shared step".to_string(), "Given".to_string())
                    .with_status(Status::Passed),
            );
            sc.steps.last_mut().unwrap().duration_ms = *d;
        }
        sc.duration_ms = durs.iter().sum();
        sc.update_status();
        r.add_scenario(sc);
        r
    };
    // mean goes from 100 to 104: +4%, below the 5% floor
    let c = compare_results(&mk(&[100, 100]), &mk(&[104, 104]));
    assert_eq!(c.step_performance_changes.len(), 0);
    // mean goes from 100 to 120: +20%, a significant regression
    let c = compare_results(&mk(&[100, 100]), &mk(&[120, 120]));
    assert_eq!(c.step_performance_changes.len(), 1);
    assert!(c.step_performance_changes[0].is_regression);
    assert_eq!(c.step_performance_changes[0].occurrence_count, 2);
    // and it crosses the 10% promotion floor too
    assert!(c.regressions.iter().any(|r| r.step_text.as_deref() == Some("shared step")));
}

#[test]
fn new_and_removed_scenarios_are_classified() {
    let feature = |n: &str| FeatureInfo { name: n.to_string(), file: None, description: None };
    let mut baseline = ExecutionResult::new(feature("F"));
    let mut current = ExecutionResult::new(feature("F"));
    baseline.add_scenario(ScenarioResult::new("old only".to_string()));
    current.add_scenario(ScenarioResult::new("new only".to_string()));
    let c = compare_results(&baseline, &current);
    assert_eq!(c.scenario_changes.len(), 2);
    assert_eq!(c.scenario_changes[0].change_type, ChangeType::Removed);
    assert_eq!(c.scenario_changes[1].change_type, ChangeType::New);
    assert_eq!(c.scenario_changes[1].scenario_name, "new only");
}
