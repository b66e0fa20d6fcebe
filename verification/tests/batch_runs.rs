use web_spec::execution::batch::{feature_record_of, BatchConfig, BatchExecutor, FeatureResult};
use web_spec::execution::result::{ExecutionResult, ExecutionSummary, FeatureInfo, Status};
use web_spec::execution::batch::BatchProgress;

fn create_mock_result(path: &str, status: Status) -> ExecutionResult {
    let mut r = ExecutionResult::new(FeatureInfo {
        name: path.to_string(),
        file: Some(path.to_string()),
        description: Some("Test feature".to_string()),
    });
    r.status = status;
    r.duration_ms = 100;
    r.summary = ExecutionSummary {
        total_scenarios: 5,
        passed_scenarios: if status == Status::Passed { 5 } else { 3 },
        failed_scenarios: if status == Status::Failed { 2 } else { 0 },
        skipped_scenarios: 0,
        total_steps: 20,
        passed_steps: if status == Status::Passed { 20 } else { 18 },
        failed_steps: if status == Status::Failed { 2 } else { 0 },
        skipped_steps: 0,
    };
    r
}

#[test]
fn test_batch_config_defaults() {
    let config = BatchConfig::default();
    assert!(config.parallel);
    assert!(config.max_workers >= 1);
    assert_eq!(config.timeout_seconds, 300);
    assert!(config.continue_on_failure);
}

#[test]
fn test_batch_executor_creation() {
    let executor = BatchExecutor::new();
    assert!(executor.config.parallel);
}

#[test]
fn test_batch_executor_with_config() {
    let config = BatchConfig {
        parallel: false,
        max_workers: 2,
        ..BatchConfig::default()
    };
    let executor = BatchExecutor::with_config(config);
    assert!(!executor.config.parallel);
    assert_eq!(executor.config.max_workers, 2);
}

#[test]
fn test_feature_result_creation() {
    let result = FeatureResult {
        name: "Test Feature".to_string(),
        path: "test.feature".to_string(),
        status: Status::Passed,
        scenarios_passed: 5,
        scenarios_failed: 0,
        duration_ms: 100,
        result: None,
    };
    assert_eq!(result.name, "Test Feature");
    assert_eq!(result.status, Status::Passed);
    assert_eq!(result.scenarios_passed, 5);
}

#[test]
fn test_batch_execute_single_feature() {
    let mut executor = BatchExecutor::new();
    let paths = vec!["test.feature".to_string()];
    let result = executor.execute(&paths, |path: &String| {
        Ok(create_mock_result(path, Status::Passed))
    });
    assert_eq!(result.total_features, 1);
    assert_eq!(result.passed_features, 1);
    assert_eq!(result.failed_features, 0);
}

#[test]
fn test_batch_execute_multiple_features() {
    // the second feature's runner errors; the batch carries on, records
    // the failure, and the other two still count
    let mut executor = BatchExecutor::new();
    let paths = vec![
        "feature1.feature".to_string(),
        "feature2.feature".to_string(),
        "feature3.feature".to_string(),
    ];
    let result = executor.execute(&paths, |path: &String| {
        if path.contains("feature2") {
            Err("Simulated failure".to_string())
        } else {
            Ok(create_mock_result(path, Status::Passed))
        }
    });
    assert_eq!(result.total_features, 3);
    assert_eq!(result.passed_features, 2);
    assert_eq!(result.failed_features, 1);
    assert_eq!(result.errors.len(), 1);
    assert_eq!(result.errors[0].path, "feature2.feature");
    assert_eq!(result.errors[0].error, "Feature execution failed");
    assert_eq!(result.total_scenarios, 10);
}

#[test]
fn batch_aggregates_scenario_counts_by_summation() {
    let mut executor = BatchExecutor::new();
    let paths = vec!["a.feature".to_string(), "b.feature".to_string()];
    let result = executor.execute(&paths, |path: &String| {
        Ok(create_mock_result(path, Status::Passed))
    });
    assert_eq!(result.passed_scenarios, 10);
    assert_eq!(result.failed_scenarios, 0);
    assert_eq!(result.results.len(), 2);
    assert_eq!(result.results[0].path, "a.feature");
}

#[test]
fn feature_files_are_selected_and_sorted() {
    let paths = vec![
        "z/last.feature".to_string(),
        "readme.md".to_string(),
        "a/first.feature".to_string(),
        "middle.feature".to_string(),
    ];
    let sorted = BatchExecutor::select_feature_files(paths);
    assert_eq!(
        sorted,
        vec![
            "a/first.feature".to_string(),
            "middle.feature".to_string(),
            "z/last.feature".to_string(),
        ]
    );
}

#[test]
fn test_batch_progress_creation() {
    let progress = BatchProgress::new(10);
    let p = progress.get_progress();
    assert_eq!(p.num, 0);
}

#[test]
fn test_batch_progress_increment() {
    let mut progress = BatchProgress::new(10);
    progress.increment_completed();
    let p = progress.get_progress();
    // exactly one tenth
    assert_eq!(p.num, 1);
    assert_eq!(p.den, 10);
}

#[test]
fn records_hold_exactly_what_the_runner_returned() {
    let ok = create_mock_result("a.feature", Status::Passed);
    let rec = feature_record_of(&"dir/a.feature".to_string(), Ok(ok), 7);
    assert_eq!(rec.name, "a");
    assert_eq!(rec.path, "dir/a.feature");
    assert_eq!(rec.status, Status::Passed);
    assert_eq!(rec.scenarios_passed, 5);
    assert_eq!(rec.duration_ms, 7);
    assert!(rec.result.is_some());
    let rec = feature_record_of(&"b.feature".to_string(), Err("down".to_string()), 3);
    assert_eq!(rec.status, Status::Failed);
    assert_eq!(rec.scenarios_passed, 0);
    assert!(rec.result.is_none());
}

