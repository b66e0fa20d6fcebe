//! Webhook notification payloads and configuration.
//!
//! This module decides which configurations apply to an event and builds
//! the notification payloads; performing HTTP requests belongs to the
//! surrounding program, which hands each payload to its own client.

use vstd::prelude::*;
use vstd::string::StringExecFns;
use crate::execution::result::{ExecutionResult, Status};
use crate::kvstore::KvMap;
use crate::text::{spec_digits, u64_to_string, usize_to_string};
use crate::clock::{now_rfc3339, now_unix_seconds};

verus! {

/// The moments at which a webhook fires.
#[derive(Clone, Copy, PartialEq, Eq, Debug, Structural)]
pub enum WebhookEvent {
    Start,
    Completion,
    Failure,
    Success,
    Regression,
    Improvement,
}

/// One webhook endpoint: where to send, on which events, with which
/// headers, how often to retry and how long to wait.
#[derive(Debug)]
pub struct WebhookConfig {
    pub url: String,
    pub name: String,
    pub events: Vec<WebhookEvent>,
    pub headers: KvMap<String>,
    pub retry_count: u32,
    pub timeout_seconds: u64,
}

impl Default for WebhookConfig {
    /// No URL yet, named "default", firing on completion and failure,
    /// three retries, thirty seconds.
    fn default() -> (c: WebhookConfig)
        ensures
            c.url@.len() == 0,
            c.name@ == "default"@,
            c.events@ == seq![WebhookEvent::Completion, WebhookEvent::Failure],
            c.headers.entries@.len() == 0,
            c.retry_count == 3,
            c.timeout_seconds == 30,
    {
        let mut events: Vec<WebhookEvent> = Vec::new();
        events.push(WebhookEvent::Completion);
        events.push(WebhookEvent::Failure);
        proof {
            assert(events@ =~= seq![WebhookEvent::Completion, WebhookEvent::Failure]);
        }
        WebhookConfig {
            url: String::new(),
            name: String::from_str("default"),
            events,
            headers: KvMap::new(),
            retry_count: 3,
            timeout_seconds: 30,
        }
    }
}

impl WebhookConfig {
    /// Does this configuration fire on the given event?
    pub fn wants_event(&self, event: WebhookEvent) -> (r: bool)
        ensures
            r == self.events@.contains(event),
    {
        let n = self.events.len();
        let mut i: usize = 0;
        while i < n
            invariant
                i <= n,
                n == self.events@.len(),
                forall|k: int| 0 <= k < i ==> self.events@[k] != event,
            decreases n - i,
        {
            if self.events[i] == event {
                return true;
            }
            i = i + 1;
        }
        proof {
            if self.events@.contains(event) {
                let k = choose|k: int| 0 <= k < n && #[trigger] self.events@[k] == event;
            }
        }
        false
    }
}

impl WebhookEvent {
    pub open spec fn spec_label(self) -> Seq<char> {
        match self {
            WebhookEvent::Start => "Start"@,
            WebhookEvent::Completion => "Completion"@,
            WebhookEvent::Failure => "Failure"@,
            WebhookEvent::Success => "Success"@,
            WebhookEvent::Regression => "Regression"@,
            WebhookEvent::Improvement => "Improvement"@,
        }
    }

    /// The event's name, as payloads carry it.
    pub fn label(&self) -> (s: &'static str)
        ensures
            s@ == self.spec_label(),
    {
        match self {
            WebhookEvent::Start => "Start",
            WebhookEvent::Completion => "Completion",
            WebhookEvent::Failure => "Failure",
            WebhookEvent::Success => "Success",
            WebhookEvent::Regression => "Regression",
            WebhookEvent::Improvement => "Improvement",
        }
    }
}

/// What a webhook reports about one run.
#[derive(Debug)]
pub struct WebhookPayload {
    pub event: String,
    pub timestamp: String,
    pub feature: String,
    pub status: Status,
    pub summary: ExecutionSummaryPayload,
    pub comparison: Option<ComparisonPayload>,
}

/// The counters a payload carries.
#[derive(Clone, Copy, Debug, PartialEq, Eq, Structural)]
pub struct ExecutionSummaryPayload {
    pub total_scenarios: usize,
    pub passed_scenarios: usize,
    pub failed_scenarios: usize,
    pub total_steps: usize,
    pub duration_ms: u64,
}

/// Comparison counters, when a payload reports a comparison.
#[derive(Clone, Debug)]
pub struct ComparisonPayload {
    pub baseline_status: String,
    pub current_status: String,
    pub regressions: u32,
    pub improvements: u32,
}

/// The errors of a webhook delivery.
#[derive(Debug)]
pub enum WebhookError {
    Serialization(String),
    HttpError(u16, String),
    Request(String),
    Unknown,
}

impl WebhookError {
    pub open spec fn spec_message(self) -> Seq<char> {
        match self {
            WebhookError::Serialization(m) => "Serialization error: "@ + m@,
            WebhookError::HttpError(code, body) => "HTTP error: "@ + spec_digits(code as int)
                + " - "@ + body@,
            WebhookError::Request(m) => "Request error: "@ + m@,
            WebhookError::Unknown => "Unknown error"@,
        }
    }

    /// Render this error for a report.
    pub fn message(&self) -> (s: String)
        ensures
            s@ == self.spec_message(),
    {
        match self {
            WebhookError::Serialization(m) => {
                let mut s = String::from_str("Serialization error: ");
                s.append(m.as_str());
                proof {
                    assert(s@ =~= self.spec_message());
                }
                s
            },
            WebhookError::HttpError(code, body) => {
                let mut s = String::from_str("HTTP error: ");
                let c = crate::text::u128_to_string(*code as u128);
                s.append(c.as_str());
                s.append(" - ");
                s.append(body.as_str());
                proof {
                    assert(s@ =~= self.spec_message());
                }
                s
            },
            WebhookError::Request(m) => {
                let mut s = String::from_str("Request error: ");
                s.append(m.as_str());
                proof {
                    assert(s@ =~= self.spec_message());
                }
                s
            },
            WebhookError::Unknown => String::from_str("Unknown error"),
        }
    }
}

/// Indices among the first `n` configurations whose event list holds
/// the event, in order.
pub open spec fn spec_event_indices(
    configs: Seq<WebhookConfig>,
    event: WebhookEvent,
    n: int,
) -> Seq<int>
    decreases n,
{
    if n <= 0 {
        Seq::empty()
    } else {
        spec_event_indices(configs, event, n - 1) + (if configs[n - 1].events@.contains(
            event,
        ) {
            seq![n - 1]
        } else {
            Seq::empty()
        })
    }
}

/// Holds webhook configurations and prepares their payloads.
#[derive(Debug)]
pub struct WebhookManager {
    pub configs: Vec<WebhookConfig>,
}

impl WebhookManager {
    pub fn new() -> (m: WebhookManager)
        ensures
            m.configs@.len() == 0,
    {
        WebhookManager { configs: Vec::new() }
    }

    pub fn add_config(&mut self, config: WebhookConfig)
        ensures
            final(self).configs@ == old(self).configs@.push(config),
    {
        self.configs.push(config);
    }

    /// Indices of the configurations that fire on the given event:
    /// exactly those whose event list holds it, in order.
    pub fn configs_for_event(&self, event: WebhookEvent) -> (r: Vec<usize>)
        ensures
            r@.map_values(|u: usize| u as int) == spec_event_indices(
                self.configs@,
                event,
                self.configs@.len() as int,
            ),
    {
        let mut r: Vec<usize> = Vec::new();
        let n = self.configs.len();
        proof {
            assert(r@.map_values(|u: usize| u as int) =~= spec_event_indices(
                self.configs@,
                event,
                0,
            ));
        }
        for i in 0..n
            invariant
                n == self.configs@.len(),
                r@.map_values(|u: usize| u as int) == spec_event_indices(
                    self.configs@,
                    event,
                    i as int,
                ),
        {
            if self.configs[i].wants_event(event) {
                r.push(i);
            }
            proof {
                assert(r@.map_values(|u: usize| u as int) =~~= spec_event_indices(
                    self.configs@,
                    event,
                    i + 1,
                ));
            }
        }
        r
    }

    /// Build the payload a run produces for an event, stamped with the
    /// current time.
    pub fn create_payload(&self, result: &ExecutionResult, event: WebhookEvent) -> (p:
        WebhookPayload)
        ensures
            p.event@ == event.spec_label(),
            p.feature@ == result.feature.name@,
            p.status == result.status,
            p.summary.total_scenarios == result.summary.total_scenarios,
            p.summary.passed_scenarios == result.summary.passed_scenarios,
            p.summary.failed_scenarios == result.summary.failed_scenarios,
            p.summary.total_steps == result.summary.total_steps,
            p.summary.duration_ms == result.duration_ms,
            p.comparison is None,
    {
        WebhookPayload {
            event: String::from_str(event.label()),
            timestamp: now_rfc3339(),
            feature: result.feature.name.clone(),
            status: result.status,
            summary: ExecutionSummaryPayload {
                total_scenarios: result.summary.total_scenarios,
                passed_scenarios: result.summary.passed_scenarios,
                failed_scenarios: result.summary.failed_scenarios,
                total_steps: result.summary.total_steps,
                duration_ms: result.duration_ms,
            },
            comparison: None,
        }
    }
}

/// A Slack-shaped notification.
#[derive(Debug)]
pub struct SlackWebhookPayload {
    pub text: String,
    pub channel: Option<String>,
    pub username: Option<String>,
    pub icon_emoji: Option<String>,
    pub attachments: Option<Vec<SlackAttachment>>,
}

#[derive(Debug)]
pub struct SlackAttachment {
    pub color: String,
    pub title: String,
    pub text: String,
    pub fields: Vec<SlackField>,
    pub footer: Option<String>,
    pub ts: Option<i64>,
}

#[derive(Debug)]
pub struct SlackField {
    pub title: String,
    pub value: String,
    pub short: bool,
}

/// A duration in whole milliseconds, as payload fields carry it.
pub open spec fn spec_ms_text(d: u64) -> Seq<char> {
    spec_digits(d as int) + "ms"@
}

/// A passed-over-total ratio, as payload fields carry it.
pub open spec fn spec_ratio_text(passed: int, total: int) -> Seq<char> {
    spec_digits(passed) + "/"@ + spec_digits(total)
}

/// The headline of a Slack notification.
pub open spec fn spec_slack_text(r: ExecutionResult) -> Seq<char> {
    "Test execution completed: "@ + r.feature.name@ + " - "@ + (if r.status == Status::Passed {
        "All tests passed"@
    } else {
        "Some tests failed"@
    })
}

/// The colour a status maps to in Slack.
pub open spec fn spec_slack_color(st: Status) -> Seq<char> {
    match st {
        Status::Passed => "good"@,
        Status::Failed => "danger"@,
        _ => "warning"@,
    }
}

impl SlackWebhookPayload {
    /// Shape a run into a Slack notification.
    pub fn from_execution_result(result: &ExecutionResult) -> (p: SlackWebhookPayload)
        ensures
            p.text@ == spec_slack_text(*result),
            p.username matches Some(u) && u@ == "web-spec-bot"@,
            p.icon_emoji is Some,
            p.channel is None,
            p.attachments matches Some(a) && {
                &&& a@.len() == 1
                &&& a@[0].color@ == spec_slack_color(result.status)
                &&& a@[0].title@ == "Test Execution: "@ + result.feature.name@
                &&& a@[0].text@ == "Status: *"@ + result.status.spec_label()
                    + "*\nScenarios: "@ + spec_digits(result.summary.passed_scenarios as int)
                    + " passed, "@ + spec_digits(result.summary.failed_scenarios as int)
                    + " failed"@
                &&& a@[0].fields@.len() == 2
                &&& a@[0].fields@[0].title@ == "Duration"@
                &&& a@[0].fields@[0].value@ == spec_ms_text(result.duration_ms)
                &&& a@[0].fields@[1].title@ == "Scenarios"@
                &&& a@[0].fields@[1].value@ == spec_ratio_text(
                    result.summary.passed_scenarios as int,
                    result.summary.total_scenarios as int,
                )
                &&& a@[0].footer matches Some(f) && f@ == "web-spec"@
            },
    {
        let color = match result.status {
            Status::Passed => "good",
            Status::Failed => "danger",
            _ => "warning",
        };
        let mut title = String::from_str("Test Execution: ");
        title.append(result.feature.name.as_str());
        let mut atext = String::from_str("Status: *");
        atext.append(result.status.label());
        atext.append("*\nScenarios: ");
        let ps = usize_to_string(result.summary.passed_scenarios);
        atext.append(ps.as_str());
        atext.append(" passed, ");
        let fs = usize_to_string(result.summary.failed_scenarios);
        atext.append(fs.as_str());
        atext.append(" failed");
        let mut dur = u64_to_string(result.duration_ms);
        dur.append("ms");
        let mut ratio = usize_to_string(result.summary.passed_scenarios);
        ratio.append("/");
        let tot = usize_to_string(result.summary.total_scenarios);
        ratio.append(tot.as_str());
        proof {
            assert(title@ =~= "Test Execution: "@ + result.feature.name@);
            assert(atext@ =~= "Status: *"@ + result.status.spec_label() + "*\nScenarios: "@
                + spec_digits(result.summary.passed_scenarios as int) + " passed, "@
                + spec_digits(result.summary.failed_scenarios as int) + " failed"@);
            assert(dur@ =~= spec_ms_text(result.duration_ms));
            assert(ratio@ =~= spec_ratio_text(
                result.summary.passed_scenarios as int,
                result.summary.total_scenarios as int,
            ));
        }
        let mut fields: Vec<SlackField> = Vec::new();
        fields.push(SlackField { title: String::from_str("Duration"), value: dur, short: true });
        fields.push(
            SlackField { title: String::from_str("Scenarios"), value: ratio, short: true },
        );
        let attachment = SlackAttachment {
            color: String::from_str(color),
            title,
            text: atext,
            fields,
            footer: Some(String::from_str("web-spec")),
            ts: Some(now_unix_seconds()),
        };
        let mut text = String::from_str("Test execution completed: ");
        text.append(result.feature.name.as_str());
        text.append(" - ");
        if result.status == Status::Passed {
            text.append("All tests passed");
        } else {
            text.append("Some tests failed");
        }
        proof {
            assert(text@ =~= spec_slack_text(*result));
        }
        let mut attachments: Vec<SlackAttachment> = Vec::new();
        attachments.push(attachment);
        SlackWebhookPayload {
            text,
            channel: None,
            username: Some(String::from_str("web-spec-bot")),
            icon_emoji: Some(String::from_str(":rocket:")),
            attachments: Some(attachments),
        }
    }
}

/// A Discord-shaped notification.
#[derive(Debug)]
pub struct DiscordWebhookPayload {
    pub content: Option<String>,
    pub username: Option<String>,
    pub avatar_url: Option<String>,
    pub embeds: Option<Vec<DiscordEmbed>>,
}

#[derive(Debug)]
pub struct DiscordEmbed {
    pub title: Option<String>,
    pub description: Option<String>,
    pub color: Option<u32>,
    pub fields: Option<Vec<DiscordField>>,
    pub footer: Option<DiscordFooter>,
    pub timestamp: Option<String>,
}

#[derive(Debug)]
pub struct DiscordField {
    pub name: String,
    pub value: String,
    pub inline: Option<bool>,
}

#[derive(Debug)]
pub struct DiscordFooter {
    pub text: String,
    pub icon_url: Option<String>,
}

/// The colour a status maps to in Discord.
pub open spec fn spec_discord_color(st: Status) -> u32 {
    match st {
        Status::Passed => 0x00FF00u32,
        Status::Failed => 0xFF0000u32,
        _ => 0xFFFF00u32,
    }
}

impl DiscordWebhookPayload {
    /// Shape a run into a Discord notification.
    pub fn from_execution_result(result: &ExecutionResult) -> (p: DiscordWebhookPayload)
        ensures
            p.content is None,
            p.username matches Some(u) && u@ == "web-spec"@,
            p.avatar_url is None,
            p.embeds matches Some(e) && {
                &&& e@.len() == 1
                &&& e@[0].color == Some(spec_discord_color(result.status))
                &&& (e@[0].title matches Some(t) && t@ == "Test Execution: "@
                    + result.feature.name@)
                &&& (e@[0].description matches Some(d) && d@ == "**Status:** "@ + (
                if result.status == Status::Passed {
                    ":white_check_mark: All tests passed"@
                } else {
                    ":x: Some tests failed"@
                }))
                &&& e@[0].fields matches Some(f) && {
                    &&& f@.len() == 3
                    &&& f@[0].name@ == "Duration"@
                    &&& f@[0].value@ == spec_ms_text(result.duration_ms)
                    &&& f@[1].name@ == "Scenarios"@
                    &&& f@[1].value@ == spec_ratio_text(
                        result.summary.passed_scenarios as int,
                        result.summary.total_scenarios as int,
                    ) + " passed"@
                    &&& f@[2].name@ == "Failed"@
                    &&& f@[2].value@ == spec_digits(result.summary.failed_scenarios as int)
                }
            },
    {
        let color: u32 = match result.status {
            Status::Passed => 0x00FF00,
            Status::Failed => 0xFF0000,
            _ => 0xFFFF00,
        };
        let mut title = String::from_str("Test Execution: ");
        title.append(result.feature.name.as_str());
        let mut description = String::from_str("**Status:** ");
        if result.status == Status::Passed {
            description.append(":white_check_mark: All tests passed");
        } else {
            description.append(":x: Some tests failed");
        }
        let mut dur = u64_to_string(result.duration_ms);
        dur.append("ms");
        let mut ratio = usize_to_string(result.summary.passed_scenarios);
        ratio.append("/");
        let tot = usize_to_string(result.summary.total_scenarios);
        ratio.append(tot.as_str());
        ratio.append(" passed");
        let failed = usize_to_string(result.summary.failed_scenarios);
        proof {
            assert(title@ =~= "Test Execution: "@ + result.feature.name@);
            assert(description@ =~= "**Status:** "@ + (if result.status == Status::Passed {
                ":white_check_mark: All tests passed"@
            } else {
                ":x: Some tests failed"@
            }));
            assert(dur@ =~= spec_ms_text(result.duration_ms));
            assert(ratio@ =~= spec_ratio_text(
                result.summary.passed_scenarios as int,
                result.summary.total_scenarios as int,
            ) + " passed"@);
        }
        let mut fields: Vec<DiscordField> = Vec::new();
        fields.push(
            DiscordField { name: String::from_str("Duration"), value: dur, inline: Some(true) },
        );
        fields.push(
            DiscordField {
                name: String::from_str("Scenarios"),
                value: ratio,
                inline: Some(true),
            },
        );
        fields.push(
            DiscordField {
                name: String::from_str("Failed"),
                value: failed,
                inline: Some(true),
            },
        );
        let embed = DiscordEmbed {
            title: Some(title),
            description: Some(description),
            color: Some(color),
            fields: Some(fields),
            footer: Some(DiscordFooter { text: String::from_str("web-spec"), icon_url: None }),
            timestamp: Some(now_rfc3339()),
        };
        let mut embeds: Vec<DiscordEmbed> = Vec::new();
        embeds.push(embed);
        DiscordWebhookPayload {
            content: None,
            username: Some(String::from_str("web-spec")),
            avatar_url: None,
            embeds: Some(embeds),
        }
    }
}

/// A Teams-shaped notification card.
#[derive(Debug)]
pub struct TeamsWebhookPayload {
    pub type_field: String,
    pub context: String,
    pub theme_color: String,
    pub summary: String,
    pub sections: Vec<TeamsSection>,
}

#[derive(Debug)]
pub struct TeamsSection {
    pub activity_title: String,
    pub activity_subtitle: String,
    pub activity_image: Option<String>,
    pub facts: Vec<TeamsFact>,
    pub markdown: bool,
}

#[derive(Debug)]
pub struct TeamsFact {
    pub name: String,
    pub value: String,
}

/// The colour a status maps to in a Teams card.
pub open spec fn spec_teams_color(st: Status) -> Seq<char> {
    match st {
        Status::Passed => "0076D7"@,
        Status::Failed => "D13438"@,
        _ => "FFB900"@,
    }
}

impl TeamsWebhookPayload {
    /// Shape a run into a Teams message card.
    pub fn from_execution_result(result: &ExecutionResult) -> (p: TeamsWebhookPayload)
        ensures
            p.type_field@ == "MessageCard"@,
            p.theme_color@ == spec_teams_color(result.status),
            p.summary@ == "Test Execution: "@ + result.feature.name@ + " - "@ + (
            if result.status == Status::Passed {
                "All tests passed"@
            } else {
                "Some tests failed"@
            }),
            p.sections@.len() == 1,
            p.sections@[0].activity_title@ == "Test Execution: "@ + result.feature.name@,
            p.sections@[0].activity_subtitle@ == (if result.status == Status::Passed {
                "All tests passed"@
            } else {
                "Some tests failed"@
            }),
            p.sections@[0].facts@.len() == 4,
            p.sections@[0].facts@[0].name@ == "Duration"@,
            p.sections@[0].facts@[0].value@ == spec_ms_text(result.duration_ms),
            p.sections@[0].facts@[1].name@ == "Scenarios"@,
            p.sections@[0].facts@[1].value@ == spec_ratio_text(
                result.summary.passed_scenarios as int,
                result.summary.total_scenarios as int,
            ),
            p.sections@[0].facts@[2].name@ == "Passed"@,
            p.sections@[0].facts@[2].value@ == spec_digits(
                result.summary.passed_scenarios as int,
            ),
            p.sections@[0].facts@[3].name@ == "Failed"@,
            p.sections@[0].facts@[3].value@ == spec_digits(
                result.summary.failed_scenarios as int,
            ),
            p.sections@[0].markdown,
    {
        let color = match result.status {
            Status::Passed => "0076D7",
            Status::Failed => "D13438",
            _ => "FFB900",
        };
        let status_text = if result.status == Status::Passed {
            "All tests passed"
        } else {
            "Some tests failed"
        };
        let mut title = String::from_str("Test Execution: ");
        title.append(result.feature.name.as_str());
        let mut dur = u64_to_string(result.duration_ms);
        dur.append("ms");
        let mut ratio = usize_to_string(result.summary.passed_scenarios);
        ratio.append("/");
        let tot = usize_to_string(result.summary.total_scenarios);
        ratio.append(tot.as_str());
        proof {
            assert(title@ =~= "Test Execution: "@ + result.feature.name@);
            assert(dur@ =~= spec_ms_text(result.duration_ms));
            assert(ratio@ =~= spec_ratio_text(
                result.summary.passed_scenarios as int,
                result.summary.total_scenarios as int,
            ));
        }
        let mut facts: Vec<TeamsFact> = Vec::new();
        facts.push(TeamsFact { name: String::from_str("Duration"), value: dur });
        facts.push(TeamsFact { name: String::from_str("Scenarios"), value: ratio });
        facts.push(
            TeamsFact {
                name: String::from_str("Passed"),
                value: usize_to_string(result.summary.passed_scenarios),
            },
        );
        facts.push(
            TeamsFact {
                name: String::from_str("Failed"),
                value: usize_to_string(result.summary.failed_scenarios),
            },
        );
        let section = TeamsSection {
            activity_title: title,
            activity_subtitle: String::from_str(status_text),
            activity_image: None,
            facts,
            markdown: true,
        };
        let mut summary = String::from_str("Test Execution: ");
        summary.append(result.feature.name.as_str());
        summary.append(" - ");
        summary.append(status_text);
        proof {
            assert(summary@ =~= "Test Execution: "@ + result.feature.name@ + " - "@ + (
            if result.status == Status::Passed {
                "All tests passed"@
            } else {
                "Some tests failed"@
            }));
        }
        let mut sections: Vec<TeamsSection> = Vec::new();
        sections.push(section);
        TeamsWebhookPayload {
            type_field: String::from_str("MessageCard"),
            context: String::from_str("http://schema.org/extensions"),
            theme_color: String::from_str(color),
            summary,
            sections,
        }
    }
}

/// What a delivery loop does after one attempt.
#[derive(Clone, Copy, PartialEq, Eq, Debug, Structural)]
pub enum RetryDecision {
    /// Try again after waiting this many milliseconds.
    RetryAfterMs(u64),
    /// Delivered; stop.
    Delivered,
    /// Attempts exhausted; keep the last error.
    GiveUp,
}

/// The delivery retry rule: success stops; a failure before the last
/// allowed attempt waits 500 ms times the attempts already made plus
/// one; the final failure gives up.  The loop that performs the attempt
/// and the wait lives in the surrounding program.
pub fn next_delivery_action(config: &WebhookConfig, attempt: u32, succeeded: bool) -> (d:
    RetryDecision)
    ensures
        succeeded ==> d == RetryDecision::Delivered,
        (!succeeded && attempt as int + 1 < config.retry_count as int) ==> d
            == RetryDecision::RetryAfterMs((500 * (attempt as int + 1)) as u64),
        (!succeeded && attempt as int + 1 >= config.retry_count as int) ==> d
            == RetryDecision::GiveUp,
{
    if succeeded {
        RetryDecision::Delivered
    } else if (attempt as u64) + 1 < (config.retry_count as u64) {
        RetryDecision::RetryAfterMs(500 * ((attempt as u64) + 1))
    } else {
        RetryDecision::GiveUp
    }
}

} // verus!