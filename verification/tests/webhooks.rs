use web_spec::execution::result::{ExecutionResult, ExecutionSummary, FeatureInfo, Status};
use web_spec::execution::webhook::{
    next_delivery_action, RetryDecision, SlackWebhookPayload, WebhookConfig, WebhookError,
    WebhookEvent, WebhookManager,
};

fn create_test_result(status: Status) -> ExecutionResult {
    let mut r = ExecutionResult::new(FeatureInfo {
        name: "Test Feature".to_string(),
        file: Some("test.feature".to_string()),
        description: Some("Test description".to_string()),
    });
    r.status = status;
    r.duration_ms = 1000;
    r.summary = ExecutionSummary {
        total_scenarios: 5,
        passed_scenarios: 4,
        failed_scenarios: 1,
        skipped_scenarios: 0,
        total_steps: 20,
        passed_steps: 18,
        failed_steps: 2,
        skipped_steps: 0,
    };
    r
}

#[test]
fn test_webhook_config_defaults() {
    let config = WebhookConfig::default();
    assert!(config.url.is_empty());
    assert_eq!(config.name, "default");
    assert_eq!(config.retry_count, 3);
    assert_eq!(config.timeout_seconds, 30);
}

#[test]
fn test_webhook_config_custom() {
    let mut config = WebhookConfig::default();
    config.url = "https://hooks.example.com/webhook".to_string();
    config.name = "slack".to_string();
    config.events = vec![WebhookEvent::Completion];
    config.retry_count = 5;
    assert_eq!(config.url, "https://hooks.example.com/webhook");
    assert_eq!(config.name, "slack");
    assert_eq!(config.events, vec![WebhookEvent::Completion]);
    assert_eq!(config.retry_count, 5);
}

#[test]
fn test_webhook_event_enum() {
    assert_eq!(WebhookEvent::Start, WebhookEvent::Start);
    assert_eq!(WebhookEvent::Completion, WebhookEvent::Completion);
    assert_ne!(WebhookEvent::Success, WebhookEvent::Failure);
}

#[test]
fn test_webhook_error_display() {
    let error = WebhookError::HttpError(404, "Not Found".to_string());
    assert!(error.message().contains("404"));
    let error2 = WebhookError::Serialization("test".to_string());
    assert!(error2.message().contains("Serialization"));
}

#[test]
fn test_slack_payload_from_result() {
    let result = create_test_result(Status::Passed);
    let slack = SlackWebhookPayload::from_execution_result(&result);
    assert!(slack.text.contains("All tests passed"));
    assert_eq!(slack.username, Some("web-spec-bot".to_string()));
    assert!(slack.attachments.is_some());
    let attachments = slack.attachments.unwrap();
    assert_eq!(attachments.len(), 1);
    assert_eq!(attachments[0].color, "good");
}

#[test]
fn test_slack_payload_failed() {
    let result = create_test_result(Status::Failed);
    let slack = SlackWebhookPayload::from_execution_result(&result);
    assert!(slack.text.contains("Some tests failed"));
    assert_eq!(slack.attachments.unwrap()[0].color, "danger");
}

#[test]
fn test_execution_payload_creation() {
    let result = create_test_result(Status::Passed);
    let manager = WebhookManager::new();
    let payload = manager.create_payload(&result, WebhookEvent::Completion);
    assert_eq!(payload.event, "Completion");
    assert_eq!(payload.feature, "Test Feature");
    assert_eq!(payload.status, Status::Passed);
    assert_eq!(payload.summary.total_scenarios, 5);
    assert_eq!(payload.summary.passed_scenarios, 4);
}

#[test]
fn test_webhook_manager_creation() {
    let manager = WebhookManager::new();
    assert!(manager.configs.is_empty());
}

#[test]
fn configs_for_event_picks_the_firing_configurations() {
    let mut manager = WebhookManager::new();
    let mut only_failure = WebhookConfig::default();
    only_failure.events = vec![WebhookEvent::Failure];
    manager.add_config(only_failure);
    manager.add_config(WebhookConfig::default());
    let hits = manager.configs_for_event(WebhookEvent::Completion);
    assert_eq!(hits, vec![1]);
    let hits = manager.configs_for_event(WebhookEvent::Failure);
    assert_eq!(hits, vec![0, 1]);
}

#[test]
fn delivery_retries_with_growing_backoff_until_exhausted() {
    let config = WebhookConfig::default();
    assert_eq!(config.retry_count, 3);
    assert_eq!(next_delivery_action(&config, 0, true), RetryDecision::Delivered);
    assert_eq!(next_delivery_action(&config, 0, false), RetryDecision::RetryAfterMs(500));
    assert_eq!(next_delivery_action(&config, 1, false), RetryDecision::RetryAfterMs(1000));
    assert_eq!(next_delivery_action(&config, 2, false), RetryDecision::GiveUp);
}

#[test]
fn slack_fields_carry_duration_and_ratio() {
    let result = create_test_result(Status::Passed);
    let slack = SlackWebhookPayload::from_execution_result(&result);
    let a = &slack.attachments.unwrap()[0];
    assert_eq!(a.fields[0].value, "1000ms");
    assert_eq!(a.fields[1].value, "4/5");
    assert_eq!(a.title, "Test Execution: Test Feature");
}

