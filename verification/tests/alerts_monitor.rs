use web_spec::execution::alerts::{
    AlertConfig, AlertManager, AlertMetric, AlertOperator, AlertSeverity, PerformanceMonitor,
};
use web_spec::execution::result::{ScenarioResult, Status};
use web_spec::rational::Rational;

fn scenario(name: &str, status: Status, duration_ms: u64) -> ScenarioResult {
    ScenarioResult { name: name.to_string(), status, duration_ms, steps: vec![] }
}

#[test]
fn test_alert_severity_ordering() {
    assert_eq!(AlertSeverity::Info, AlertSeverity::Info);
    assert_eq!(AlertSeverity::Warning, AlertSeverity::Warning);
    assert_eq!(AlertSeverity::Critical, AlertSeverity::Critical);
}

#[test]
fn test_alert_config_defaults() {
    let config = AlertConfig::default();
    assert!(config.enabled);
    assert_eq!(config.name, "default");
    assert!(!config.thresholds.is_empty());
}

#[test]
fn test_performance_monitor_creation() {
    let monitor = PerformanceMonitor::new();
    assert_eq!(monitor.scenario_count, 0);
    assert_eq!(monitor.step_count, 0);
    assert!(monitor.alerts.is_empty());
}

#[test]
fn test_performance_monitor_scenario_recording() {
    let mut monitor = PerformanceMonitor::new();
    monitor.record_scenario(&scenario("Test", Status::Passed, 5000));
    assert_eq!(monitor.scenario_count, 1);
    assert_eq!(monitor.scenario_durations.len(), 1);
}

#[test]
fn test_performance_monitor_failure_tracking() {
    let mut monitor = PerformanceMonitor::new();
    monitor.record_scenario(&scenario("Passed", Status::Passed, 1000));
    monitor.record_scenario(&scenario("Failed", Status::Failed, 2000));
    let summary = monitor.get_summary();
    assert_eq!(summary.scenario_count, 2);
    assert_eq!(summary.scenarios_passed, 1);
    assert_eq!(summary.scenarios_failed, 1);
    // the failure rate is exactly 100/2 percent
    assert!(!summary.failure_rate_percent.neg);
    assert_eq!(summary.failure_rate_percent.num, 100);
    assert_eq!(summary.failure_rate_percent.den, 2);
}

#[test]
fn test_evaluate_thresholds_with_disabled_config() {
    let mut monitor = PerformanceMonitor::new();
    let mut config = AlertConfig::default();
    config.enabled = false;
    monitor.record_scenario(&scenario("Slow", Status::Passed, 45000));
    let alerts = monitor.evaluate_thresholds(&config);
    assert!(alerts.is_empty());
}

#[test]
fn threshold_crossing_emits_exactly_one_warning() {
    // a monitor holding one 45,000 ms scenario crosses the 30 s warning
    // rule and no other rule of the default set
    let mut monitor = PerformanceMonitor::new();
    monitor.record_scenario(&scenario("Slow", Status::Passed, 45000));
    let config = AlertConfig::default();
    let alerts = monitor.evaluate_thresholds(&config);
    assert_eq!(alerts.len(), 1);
    assert_eq!(alerts[0].severity, AlertSeverity::Warning);
    assert_eq!(alerts[0].threshold_name, "slow_scenario");
    assert!(!alerts.iter().any(|a| a.severity == AlertSeverity::Critical));
    assert_eq!(monitor.alerts.len(), 1);
}

#[test]
fn test_metric_custom_key() {
    let mut monitor = PerformanceMonitor::new();
    monitor.set_metric("memory_usage", Rational::from_milli(false, 256500));
    monitor.set_metric("cpu_usage", Rational::from_milli(false, 75000));
    let custom = AlertMetric::Custom { key: "memory_usage".to_string() };
    let value = monitor.get_metric_value(&custom);
    assert!(!value.neg);
    assert_eq!(value.num, 256500);
    assert_eq!(value.den, 1000);
}

#[test]
fn test_empty_scenario_durations() {
    let monitor = PerformanceMonitor::new();
    let summary = monitor.get_summary();
    assert_eq!(summary.avg_scenario_duration_ms.num, 0);
    assert_eq!(summary.avg_step_duration_ms.num, 0);
    assert_eq!(summary.failure_rate_percent.num, 0);
}

#[test]
fn test_alert_manager_creation() {
    let manager = AlertManager::new();
    assert!(manager.configs.is_empty());
}

#[test]
fn equality_operator_is_exact() {
    let mut monitor = PerformanceMonitor::new();
    monitor.record_scenario(&scenario("a", Status::Passed, 300));
    let mut config = AlertConfig::default();
    config.thresholds.clear();
    config.thresholds.push(web_spec::execution::alerts::AlertThreshold {
        name: "exact".to_string(),
        metric: AlertMetric::ScenarioDurationMs,
        operator: AlertOperator::EqualTo,
        value: Rational { neg: false, num: 300, den: 1 },
        severity: AlertSeverity::Info,
        message: "mean is exactly 300ms".to_string(),
    });
    let alerts = monitor.evaluate_thresholds(&config);
    assert_eq!(alerts.len(), 1);
    assert_eq!(alerts[0].metric, "ScenarioDurationMs");
}

#[test]
fn mean_duration_is_an_exact_ratio() {
    // three scenarios of 1 ms each: the mean is exactly 3/3, not a
    // rounded machine number
    let mut monitor = PerformanceMonitor::new();
    for i in 0..3 {
        monitor.record_scenario(&scenario(&format!("s{}", i), Status::Passed, 1));
    }
    let v = monitor.get_metric_value(&AlertMetric::ScenarioDurationMs);
    assert_eq!(v.num, 3);
    assert_eq!(v.den, 3);
}

#[test]
fn manager_evaluates_configs_in_order() {
    // two enabled configs: the collected alerts are the first config's
    // block followed by the second's; a disabled third adds nothing
    let mut monitor = PerformanceMonitor::new();
    monitor.record_scenario(&scenario("Slow", Status::Passed, 45000));
    let mut manager = AlertManager::new();
    let mut strict = AlertConfig::default();
    strict.name = "strict".to_string();
    strict.thresholds.truncate(1);
    strict.thresholds[0].name = "first_rule".to_string();
    manager.add_config(strict);
    manager.add_config(AlertConfig::default());
    let mut disabled = AlertConfig::default();
    disabled.enabled = false;
    manager.add_config(disabled);
    let alerts = manager.evaluate(&mut monitor);
    assert_eq!(alerts.len(), 2);
    assert_eq!(alerts[0].threshold_name, "first_rule");
    assert_eq!(alerts[1].threshold_name, "slow_scenario");
    assert_eq!(monitor.alerts.len(), 2);
}

