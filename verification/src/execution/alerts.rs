//! The performance monitor and alert evaluator.
//!
//! A monitor accumulates, for one session, the scenario and step durations
//! and the pass/fail counters, plus an open-ended named custom-metric map.
//! Named threshold rules compare a metric's current value against a target
//! with an operator; a rule that holds emits a severity-tagged alert.
//! Evaluation is purely observational: it never changes what was recorded.
//!
//! Metric values are exact ratios (`crate::rational`): a mean duration is
//! the total over the count, a failure rate is `failed * 100 / total`, and
//! equality against a target is exact rational equality.

use vstd::prelude::*;
use vstd::string::StringExecFns;
use crate::execution::result::{ScenarioResult, Status, StepResult};
use crate::rational::Rational;
use crate::clock::{elapsed_ms, instant_now, now_rfc3339};

verus! {

/// The measurements a threshold rule can watch.
#[derive(Clone, Debug)]
pub enum AlertMetric {
    ScenarioDurationMs,
    StepDurationMs,
    FailureRatePercent,
    TotalDurationMs,
    ScenariosPerSecond,
    StepsPerSecond,
    MemoryUsageMb,
    Custom { key: String },
}

impl AlertMetric {
    /// The name under which this metric appears in an alert.
    pub open spec fn spec_label(self) -> Seq<char> {
        match self {
            AlertMetric::ScenarioDurationMs => "ScenarioDurationMs"@,
            AlertMetric::StepDurationMs => "StepDurationMs"@,
            AlertMetric::FailureRatePercent => "FailureRatePercent"@,
            AlertMetric::TotalDurationMs => "TotalDurationMs"@,
            AlertMetric::ScenariosPerSecond => "ScenariosPerSecond"@,
            AlertMetric::StepsPerSecond => "StepsPerSecond"@,
            AlertMetric::MemoryUsageMb => "MemoryUsageMb"@,
            AlertMetric::Custom { key } => "Custom { key: \""@ + key@ + "\" }"@,
        }
    }

    /// Render this metric's name.
    pub fn label(&self) -> (s: String)
        ensures
            s@ == self.spec_label(),
    {
        match self {
            AlertMetric::ScenarioDurationMs => String::from_str("ScenarioDurationMs"),
            AlertMetric::StepDurationMs => String::from_str("StepDurationMs"),
            AlertMetric::FailureRatePercent => String::from_str("FailureRatePercent"),
            AlertMetric::TotalDurationMs => String::from_str("TotalDurationMs"),
            AlertMetric::ScenariosPerSecond => String::from_str("ScenariosPerSecond"),
            AlertMetric::StepsPerSecond => String::from_str("StepsPerSecond"),
            AlertMetric::MemoryUsageMb => String::from_str("MemoryUsageMb"),
            AlertMetric::Custom { key } => {
                let mut s = String::from_str("Custom { key: \"");
                s.append(key.as_str());
                s.append("\" }");
                proof {
                    assert(s@ =~= "Custom { key: \""@ + key@ + "\" }"@);
                }
                s
            },
        }
    }
}

/// How a metric value is held against a rule's target value.
#[derive(Clone, Copy, PartialEq, Eq, Debug, Structural)]
pub enum AlertOperator {
    GreaterThan,
    LessThan,
    EqualTo,
    NotEqualTo,
}

/// Weight of an alert.
#[derive(Clone, Copy, PartialEq, Eq, Debug, Structural)]
pub enum AlertSeverity {
    Info,
    Warning,
    Critical,
}

impl AlertSeverity {
    pub open spec fn spec_label(self) -> Seq<char> {
        match self {
            AlertSeverity::Info => "Info"@,
            AlertSeverity::Warning => "Warning"@,
            AlertSeverity::Critical => "Critical"@,
        }
    }

    /// The word used for this severity in reports.
    pub fn label(&self) -> (s: &'static str)
        ensures
            s@ == self.spec_label(),
    {
        match self {
            AlertSeverity::Info => "Info",
            AlertSeverity::Warning => "Warning",
            AlertSeverity::Critical => "Critical",
        }
    }
}

/// One named rule: watch a metric, compare it with an operator against a
/// target value, and alert with the given severity when it holds.
#[derive(Clone, Debug)]
pub struct AlertThreshold {
    pub name: String,
    pub metric: AlertMetric,
    pub operator: AlertOperator,
    pub value: Rational,
    pub severity: AlertSeverity,
    pub message: String,
}

impl AlertThreshold {
    pub open spec fn wf(self) -> bool {
        self.value.wf()
    }
}

/// A notification channel toggle, carried with a configuration.
#[derive(Clone, Debug)]
pub struct AlertNotification {
    pub channel: String,
    pub enabled: bool,
}

/// A named, enable/disable-able group of threshold rules.
#[derive(Clone, Debug)]
pub struct AlertConfig {
    pub name: String,
    pub enabled: bool,
    pub thresholds: Vec<AlertThreshold>,
    pub notifications: Vec<AlertNotification>,
}

impl AlertConfig {
    pub open spec fn wf(self) -> bool {
        forall|i: int| 0 <= i < self.thresholds@.len() ==> (#[trigger] self.thresholds@[i]).wf()
    }
}

impl Default for AlertConfig {
    /// The default ruleset: a scenario mean beyond 30s warns and beyond
    /// 60s is critical, a step mean beyond 10s warns, and a failure rate
    /// beyond 10% warns.
    fn default() -> (c: AlertConfig)
        ensures
            c.name@ == "default"@,
            c.enabled,
            c.thresholds@.len() == 4,
            c.notifications@.len() == 0,
            c.thresholds@[0].name@ == "slow_scenario"@,
            c.thresholds@[0].metric is ScenarioDurationMs,
            c.thresholds@[0].operator == AlertOperator::GreaterThan,
            c.thresholds@[0].value == (Rational { neg: false, num: 30000, den: 1 }),
            c.thresholds@[0].severity == AlertSeverity::Warning,
            c.thresholds@[1].name@ == "very_slow_scenario"@,
            c.thresholds@[1].metric is ScenarioDurationMs,
            c.thresholds@[1].operator == AlertOperator::GreaterThan,
            c.thresholds@[1].value == (Rational { neg: false, num: 60000, den: 1 }),
            c.thresholds@[1].severity == AlertSeverity::Critical,
            c.thresholds@[2].name@ == "slow_step"@,
            c.thresholds@[2].metric is StepDurationMs,
            c.thresholds@[2].operator == AlertOperator::GreaterThan,
            c.thresholds@[2].value == (Rational { neg: false, num: 10000, den: 1 }),
            c.thresholds@[2].severity == AlertSeverity::Warning,
            c.thresholds@[3].name@ == "high_failure_rate"@,
            c.thresholds@[3].metric is FailureRatePercent,
            c.thresholds@[3].operator == AlertOperator::GreaterThan,
            c.thresholds@[3].value == (Rational { neg: false, num: 10, den: 1 }),
            c.thresholds@[3].severity == AlertSeverity::Warning,
            c.wf(),
    {
        let mut thresholds: Vec<AlertThreshold> = Vec::new();
        thresholds.push(
            AlertThreshold {
                name: String::from_str("slow_scenario"),
                metric: AlertMetric::ScenarioDurationMs,
                operator: AlertOperator::GreaterThan,
                value: Rational { neg: false, num: 30000, den: 1 },
                severity: AlertSeverity::Warning,
                message: String::from_str("Scenario exceeded {:.1}s duration"),
            },
        );
        thresholds.push(
            AlertThreshold {
                name: String::from_str("very_slow_scenario"),
                metric: AlertMetric::ScenarioDurationMs,
                operator: AlertOperator::GreaterThan,
                value: Rational { neg: false, num: 60000, den: 1 },
                severity: AlertSeverity::Critical,
                message: String::from_str("Scenario exceeded {:.1}s duration"),
            },
        );
        thresholds.push(
            AlertThreshold {
                name: String::from_str("slow_step"),
                metric: AlertMetric::StepDurationMs,
                operator: AlertOperator::GreaterThan,
                value: Rational { neg: false, num: 10000, den: 1 },
                severity: AlertSeverity::Warning,
                message: String::from_str("Step exceeded {:.1}s duration"),
            },
        );
        thresholds.push(
            AlertThreshold {
                name: String::from_str("high_failure_rate"),
                metric: AlertMetric::FailureRatePercent,
                operator: AlertOperator::GreaterThan,
                value: Rational { neg: false, num: 10, den: 1 },
                severity: AlertSeverity::Warning,
                message: String::from_str("Failure rate exceeded {:.1}%"),
            },
        );
        AlertConfig {
            name: String::from_str("default"),
            enabled: true,
            thresholds,
            notifications: Vec::new(),
        }
    }
}

/// One emitted alert.
#[derive(Clone, Debug)]
pub struct PerformanceAlert {
    pub timestamp: String,
    pub severity: AlertSeverity,
    pub threshold_name: String,
    pub message: String,
    pub metric: String,
    pub value: Rational,
    pub threshold_value: Rational,
    pub feature: Option<String>,
    pub scenario: Option<String>,
    pub step: Option<String>,
}

/// Ghost image of an alert.
#[verifier::ext_equal]
pub struct AlertModel {
    pub timestamp: Seq<char>,
    pub severity: AlertSeverity,
    pub name: Seq<char>,
    pub message: Seq<char>,
    pub metric: Seq<char>,
    pub value: Rational,
    pub threshold_value: Rational,
}

impl View for PerformanceAlert {
    type V = AlertModel;

    open spec fn view(&self) -> AlertModel {
        AlertModel {
            timestamp: self.timestamp@,
            severity: self.severity,
            name: self.threshold_name@,
            message: self.message@,
            metric: self.metric@,
            value: self.value,
            threshold_value: self.threshold_value,
        }
    }
}

/// The ghost images of a list of alerts.
pub open spec fn alert_views(s: Seq<PerformanceAlert>) -> Seq<AlertModel> {
    s.map_values(|a: PerformanceAlert| a@)
}

proof fn lemma_alert_views_push(s: Seq<PerformanceAlert>, a: PerformanceAlert)
    ensures
        alert_views(s.push(a)) == alert_views(s).push(a@),
{
    assert(alert_views(s.push(a)) =~= alert_views(s).push(a@));
}

/// Sum of a list of durations.
pub open spec fn seq_sum(s: Seq<u64>) -> int
    decreases s.len(),
{
    if s.len() == 0 {
        0
    } else {
        seq_sum(s.drop_last()) + s.last()
    }
}

pub proof fn lemma_seq_sum_bound(s: Seq<u64>)
    ensures
        0 <= seq_sum(s) <= s.len() * (u64::MAX as int),
    decreases s.len(),
{
    if s.len() > 0 {
        lemma_seq_sum_bound(s.drop_last());
        assert(s.len() * (u64::MAX as int) == (s.len() - 1) * (u64::MAX as int) + (
        u64::MAX as int)) by (nonlinear_arith);
    }
}

/// Value of the named custom metric, if set.
pub open spec fn metric_lookup(ms: Seq<(String, Rational)>, key: Seq<char>) -> Option<Rational>
    decreases ms.len(),
{
    if ms.len() == 0 {
        None
    } else if ms.last().0@ == key {
        Some(ms.last().1)
    } else {
        metric_lookup(ms.drop_last(), key)
    }
}

/// The only mutable, accumulating entity of this library: running
/// duration lists and counters for one monitoring session.
pub struct PerformanceMonitor {
    pub start_time: std::time::Instant,
    pub scenario_durations: Vec<u64>,
    pub step_durations: Vec<u64>,
    pub step_count: usize,
    pub scenario_count: usize,
    pub failed_scenarios: usize,
    pub skipped_scenarios: usize,
    pub custom_metrics: Vec<(String, Rational)>,
    pub alerts: Vec<PerformanceAlert>,
}

/// The exact value of a metric, given the milliseconds elapsed since the
/// monitor was started.
pub open spec fn spec_metric_value(
    m: PerformanceMonitor,
    metric: AlertMetric,
    elapsed: u64,
) -> Rational {
    match metric {
        AlertMetric::ScenarioDurationMs => if m.scenario_durations@.len() == 0 {
            Rational { neg: false, num: 0, den: 1 }
        } else {
            Rational {
                neg: false,
                num: seq_sum(m.scenario_durations@) as u128,
                den: m.scenario_durations@.len() as u128,
            }
        },
        AlertMetric::StepDurationMs => if m.step_durations@.len() == 0 {
            Rational { neg: false, num: 0, den: 1 }
        } else {
            Rational {
                neg: false,
                num: seq_sum(m.step_durations@) as u128,
                den: m.step_durations@.len() as u128,
            }
        },
        AlertMetric::FailureRatePercent => if m.scenario_count == 0 {
            Rational { neg: false, num: 0, den: 1 }
        } else {
            Rational {
                neg: false,
                num: (m.failed_scenarios * 100) as u128,
                den: m.scenario_count as u128,
            }
        },
        AlertMetric::TotalDurationMs => Rational { neg: false, num: elapsed as u128, den: 1 },
        AlertMetric::ScenariosPerSecond => if elapsed == 0 {
            Rational { neg: false, num: 0, den: 1 }
        } else {
            Rational {
                neg: false,
                num: (m.scenario_count * 1000) as u128,
                den: elapsed as u128,
            }
        },
        AlertMetric::StepsPerSecond => if elapsed == 0 {
            Rational { neg: false, num: 0, den: 1 }
        } else {
            Rational { neg: false, num: (m.step_count * 1000) as u128, den: elapsed as u128 }
        },
        AlertMetric::MemoryUsageMb => Rational { neg: false, num: 0, den: 1 },
        AlertMetric::Custom { key } => match metric_lookup(m.custom_metrics@, key@) {
            Some(v) => v,
            None => Rational { neg: false, num: 0, den: 1 },
        },
    }
}

/// The rule holds of the monitor's state at the given elapsed time.
pub open spec fn spec_threshold_met(
    m: PerformanceMonitor,
    t: AlertThreshold,
    elapsed: u64,
) -> bool {
    let v = spec_metric_value(m, t.metric, elapsed);
    match t.operator {
        AlertOperator::GreaterThan => t.value.spec_lt(v),
        AlertOperator::LessThan => v.spec_lt(t.value),
        AlertOperator::EqualTo => v.spec_eq(t.value),
        AlertOperator::NotEqualTo => !v.spec_eq(t.value),
    }
}

/// The alerts that the first `n` rules of a configuration emit, in rule
/// order, all stamped with the same timestamp.
pub open spec fn spec_alerts_up_to(
    m: PerformanceMonitor,
    ths: Seq<AlertThreshold>,
    n: int,
    elapsed: u64,
    ts: Seq<char>,
) -> Seq<AlertModel>
    decreases n,
{
    if n <= 0 {
        Seq::empty()
    } else {
        let pre = spec_alerts_up_to(m, ths, n - 1, elapsed, ts);
        let t = ths[n - 1];
        if spec_threshold_met(m, t, elapsed) {
            pre.push(
                AlertModel {
                    timestamp: ts,
                    severity: t.severity,
                    name: t.name@,
                    message: t.message@,
                    metric: t.metric.spec_label(),
                    value: spec_metric_value(m, t.metric, elapsed),
                    threshold_value: t.value,
                },
            )
        } else {
            pre
        }
    }
}

impl PerformanceMonitor {
    pub open spec fn wf(self) -> bool {
        &&& self.scenario_count == self.scenario_durations@.len()
        &&& self.step_count == self.step_durations@.len()
        &&& self.failed_scenarios + self.skipped_scenarios <= self.scenario_count
        &&& forall|i: int|
            0 <= i < self.custom_metrics@.len() ==> (#[trigger] self.custom_metrics@[i]).1.wf()
    }

    /// A fresh monitor: nothing recorded, started now.
    pub fn new() -> (m: PerformanceMonitor)
        ensures
            m.scenario_durations@.len() == 0,
            m.step_durations@.len() == 0,
            m.step_count == 0,
            m.scenario_count == 0,
            m.failed_scenarios == 0,
            m.skipped_scenarios == 0,
            m.custom_metrics@.len() == 0,
            m.alerts@.len() == 0,
            m.wf(),
    {
        PerformanceMonitor {
            start_time: instant_now(),
            scenario_durations: Vec::new(),
            step_durations: Vec::new(),
            step_count: 0,
            scenario_count: 0,
            failed_scenarios: 0,
            skipped_scenarios: 0,
            custom_metrics: Vec::new(),
            alerts: Vec::new(),
        }
    }

    /// Fold one finished scenario and its steps into the running state.
    pub fn record_scenario(&mut self, scenario: &ScenarioResult)
        requires
            old(self).wf(),
            old(self).scenario_count < usize::MAX,
            old(self).step_count + scenario.steps@.len() <= usize::MAX,
        ensures
            final(self).wf(),
            final(self).scenario_count == old(self).scenario_count + 1,
            final(self).scenario_durations@ == old(self).scenario_durations@.push(
                scenario.duration_ms,
            ),
            final(self).failed_scenarios == old(self).failed_scenarios + (
            if scenario.status == Status::Failed {
                1int
            } else {
                0
            }),
            final(self).skipped_scenarios == old(self).skipped_scenarios + (
            if scenario.status == Status::Skipped {
                1int
            } else {
                0
            }),
            final(self).step_count == old(self).step_count + scenario.steps@.len(),
            final(self).step_durations@ == old(self).step_durations@ + scenario.steps@.map_values(
                |st: StepResult| st.duration_ms,
            ),
            final(self).custom_metrics == old(self).custom_metrics,
            final(self).alerts == old(self).alerts,
            final(self).start_time == old(self).start_time,
    {
        self.scenario_count = self.scenario_count + 1;
        self.scenario_durations.push(scenario.duration_ms);
        if scenario.status == Status::Failed {
            self.failed_scenarios = self.failed_scenarios + 1;
        } else if scenario.status == Status::Skipped {
            self.skipped_scenarios = self.skipped_scenarios + 1;
        }
        let ghost steps = scenario.steps@;
        let n = scenario.steps.len();
        for j in 0..n
            invariant
                n == steps.len(),
                scenario.steps@ == steps,
                self.step_count == old(self).step_count + j,
                self.step_durations@ == old(self).step_durations@ + steps.take(
                    j as int,
                ).map_values(|st: StepResult| st.duration_ms),
                old(self).step_count + steps.len() <= usize::MAX,
                self.step_count == self.step_durations@.len(),
                self.scenario_count == old(self).scenario_count + 1,
                self.scenario_durations@ == old(self).scenario_durations@.push(
                    scenario.duration_ms,
                ),
                self.failed_scenarios == old(self).failed_scenarios + (
                if scenario.status == Status::Failed {
                    1int
                } else {
                    0
                }),
                self.skipped_scenarios == old(self).skipped_scenarios + (
                if scenario.status == Status::Skipped {
                    1int
                } else {
                    0
                }),
                self.custom_metrics == old(self).custom_metrics,
                self.alerts == old(self).alerts,
                self.start_time == old(self).start_time,
                old(self).wf(),
        {
            self.step_count = self.step_count + 1;
            self.step_durations.push(scenario.steps[j].duration_ms);
            proof {
                assert(self.step_durations@ =~= old(self).step_durations@ + steps.take(
                    j + 1,
                ).map_values(|st: StepResult| st.duration_ms));
            }
        }
        proof {
            assert(steps.take(n as int) =~= steps);
        }
    }

    /// Fold one finished step into the running state.
    pub fn record_step(&mut self, step: &StepResult)
        requires
            old(self).wf(),
            old(self).step_count < usize::MAX,
        ensures
            final(self).wf(),
            final(self).step_count == old(self).step_count + 1,
            final(self).step_durations@ == old(self).step_durations@.push(step.duration_ms),
            *final(self) == (PerformanceMonitor {
                step_count: final(self).step_count,
                step_durations: final(self).step_durations,
                ..*old(self)
            }),
    {
        self.step_count = self.step_count + 1;
        self.step_durations.push(step.duration_ms);
    }

    /// Set (or overwrite) a named custom metric.
    pub fn set_metric(&mut self, key: &str, value: Rational)
        requires
            old(self).wf(),
            value.wf(),
        ensures
            final(self).wf(),
            metric_lookup(final(self).custom_metrics@, key@) == Some(value),
            forall|k: Seq<char>|
                k != key@ ==> #[trigger] metric_lookup(final(self).custom_metrics@, k)
                    == metric_lookup(old(self).custom_metrics@, k),
            *final(self) == (PerformanceMonitor {
                custom_metrics: final(self).custom_metrics,
                ..*old(self)
            }),
    {
        let owned = String::from_str(key);
        self.custom_metrics.push((owned, value));
        proof {
            let ms = self.custom_metrics@;
            assert(ms.last().0@ == key@);
            assert(ms.drop_last() =~= old(self).custom_metrics@);
        }
    }

    /// The exact value of a metric; for the elapsed-time metrics the
    /// clock is read once, and the result is the exact value at that
    /// reading.
    pub fn get_metric_value(&self, metric: &AlertMetric) -> (v: Rational)
        requires
            self.wf(),
        ensures
            v.wf(),
            exists|e: u64| v == spec_metric_value(*self, *metric, e),
    {
        let e = elapsed_ms(&self.start_time);
        let v = self.metric_value_at(metric, e);
        proof {
            assert(v == spec_metric_value(*self, *metric, e));
        }
        v
    }

    /// The exact value of a metric at a given elapsed time.
    pub fn metric_value_at(&self, metric: &AlertMetric, elapsed: u64) -> (v: Rational)
        requires
            self.wf(),
        ensures
            v == spec_metric_value(*self, *metric, elapsed),
            v.wf(),
    {
        match metric {
            AlertMetric::ScenarioDurationMs => {
                if self.scenario_durations.len() == 0 {
                    Rational { neg: false, num: 0, den: 1 }
                } else {
                    let total = sum_durations(&self.scenario_durations);
                    proof {
                        lemma_seq_sum_bound(self.scenario_durations@);
                    }
                    Rational {
                        neg: false,
                        num: total,
                        den: self.scenario_durations.len() as u128,
                    }
                }
            },
            AlertMetric::StepDurationMs => {
                if self.step_durations.len() == 0 {
                    Rational { neg: false, num: 0, den: 1 }
                } else {
                    let total = sum_durations(&self.step_durations);
                    proof {
                        lemma_seq_sum_bound(self.step_durations@);
                    }
                    Rational { neg: false, num: total, den: self.step_durations.len() as u128 }
                }
            },
            AlertMetric::FailureRatePercent => {
                if self.scenario_count == 0 {
                    Rational { neg: false, num: 0, den: 1 }
                } else {
                    Rational {
                        neg: false,
                        num: (self.failed_scenarios as u128) * 100,
                        den: self.scenario_count as u128,
                    }
                }
            },
            AlertMetric::TotalDurationMs => Rational {
                neg: false,
                num: elapsed as u128,
                den: 1,
            },
            AlertMetric::ScenariosPerSecond => {
                if elapsed == 0 {
                    Rational { neg: false, num: 0, den: 1 }
                } else {
                    Rational {
                        neg: false,
                        num: (self.scenario_count as u128) * 1000,
                        den: elapsed as u128,
                    }
                }
            },
            AlertMetric::StepsPerSecond => {
                if elapsed == 0 {
                    Rational { neg: false, num: 0, den: 1 }
                } else {
                    Rational {
                        neg: false,
                        num: (self.step_count as u128) * 1000,
                        den: elapsed as u128,
                    }
                }
            },
            AlertMetric::MemoryUsageMb => Rational { neg: false, num: 0, den: 1 },
            AlertMetric::Custom { key } => {
                proof {
                    lemma_metric_lookup_wf(self.custom_metrics@, key@);
                }
                match lookup_metric(&self.custom_metrics, key) {
                    Some(v) => v,
                    None => Rational { neg: false, num: 0, den: 1 },
                }
            },
        }
    }

    /// Evaluate a configuration's rules at a given elapsed time with a
    /// given alert timestamp.  Emits one alert per rule that holds, in
    /// rule order, and records them; a disabled configuration emits
    /// nothing.
    pub fn evaluate_thresholds_at(
        &mut self,
        config: &AlertConfig,
        elapsed: u64,
        timestamp: &String,
    ) -> (alerts: Vec<PerformanceAlert>)
        requires
            old(self).wf(),
            config.wf(),
        ensures
            final(self).wf(),
            *final(self) == (PerformanceMonitor { alerts: final(self).alerts, ..*old(self) }),
            !config.enabled ==> alerts@.len() == 0 && final(self).alerts == old(self).alerts,
            config.enabled ==> alert_views(alerts@) == spec_alerts_up_to(
                *old(self),
                config.thresholds@,
                config.thresholds@.len() as int,
                elapsed,
                timestamp@,
            ) && alert_views(final(self).alerts@) == alert_views(old(self).alerts@)
                + alert_views(alerts@),
    {
        let mut alerts: Vec<PerformanceAlert> = Vec::new();
        if !config.enabled {
            return alerts;
        }
        let ghost m0 = *self;
        let ghost ths = config.thresholds@;
        let n = config.thresholds.len();
        proof {
            assert(alert_views(alerts@) =~= spec_alerts_up_to(m0, ths, 0, elapsed, timestamp@));
        }
        for i in 0..n
            invariant
                n == ths.len(),
                config.thresholds@ == ths,
                config.wf(),
                self.wf(),
                m0.wf(),
                *self == (PerformanceMonitor { alerts: self.alerts, ..m0 }),
                alert_views(alerts@) == spec_alerts_up_to(m0, ths, i as int, elapsed, timestamp@),
                alert_views(self.alerts@) == alert_views(m0.alerts@) + alert_views(alerts@),
        {
            let t = &config.thresholds[i];
            let v = self.metric_value_at(&t.metric, elapsed);
            proof {
                assert(spec_metric_value(*self, t.metric, elapsed) == spec_metric_value(
                    m0,
                    t.metric,
                    elapsed,
                ));
            }
            let met = match t.operator {
                AlertOperator::GreaterThan => t.value.lt(&v),
                AlertOperator::LessThan => v.lt(&t.value),
                AlertOperator::EqualTo => v.eq(&t.value),
                AlertOperator::NotEqualTo => !v.eq(&t.value),
            };
            if met {
                let ghost a0 = alerts@;
                let ghost r0 = self.alerts@;
                let alert = PerformanceAlert {
                    timestamp: timestamp.clone(),
                    severity: t.severity,
                    threshold_name: t.name.clone(),
                    message: t.message.clone(),
                    metric: t.metric.label(),
                    value: v,
                    threshold_value: t.value,
                    feature: None,
                    scenario: None,
                    step: None,
                };
                let recorded = PerformanceAlert {
                    timestamp: timestamp.clone(),
                    severity: t.severity,
                    threshold_name: t.name.clone(),
                    message: t.message.clone(),
                    metric: t.metric.label(),
                    value: v,
                    threshold_value: t.value,
                    feature: None,
                    scenario: None,
                    step: None,
                };
                proof {
                    lemma_alert_views_push(a0, alert);
                    lemma_alert_views_push(r0, recorded);
                    assert(recorded@ =~~= alert@);
                }
                self.alerts.push(recorded);
                alerts.push(alert);
            }
            proof {
                assert(alert_views(alerts@) =~~= spec_alerts_up_to(
                    m0,
                    ths,
                    i + 1,
                    elapsed,
                    timestamp@,
                ));
                assert(alert_views(self.alerts@) =~~= alert_views(m0.alerts@) + alert_views(
                    alerts@,
                ));
            }
        }
        alerts
    }

    /// Evaluate a configuration's rules against the current state: the
    /// clock is read once, and the alerts are exactly those of the rules
    /// that hold at that reading, stamped with the current time.
    pub fn evaluate_thresholds(&mut self, config: &AlertConfig) -> (alerts: Vec<
        PerformanceAlert,
    >)
        requires
            old(self).wf(),
            config.wf(),
        ensures
            final(self).wf(),
            *final(self) == (PerformanceMonitor { alerts: final(self).alerts, ..*old(self) }),
            !config.enabled ==> alerts@.len() == 0 && final(self).alerts == old(self).alerts,
            config.enabled ==> alert_views(final(self).alerts@) == alert_views(
                old(self).alerts@,
            ) + alert_views(alerts@) && exists|
                e: u64,
                ts: Seq<char>,
            |
                alert_views(alerts@) == spec_alerts_up_to(
                    *old(self),
                    config.thresholds@,
                    config.thresholds@.len() as int,
                    e,
                    ts,
                ),
    {
        let e = elapsed_ms(&self.start_time);
        let ts = now_rfc3339();
        let alerts = self.evaluate_thresholds_at(config, e, &ts);
        proof {
            if config.enabled {
                assert(alert_views(alerts@) == spec_alerts_up_to(
                    *old(self),
                    config.thresholds@,
                    config.thresholds@.len() as int,
                    e,
                    ts@,
                ));
            }
        }
        alerts
    }

    /// The session rollup: counts, exact mean durations, maxima, the
    /// exact failure rate, and how many alerts were emitted.
    pub fn get_summary(&self) -> (s: PerformanceSummary)
        requires
            self.wf(),
        ensures
            s.scenario_count == self.scenario_count,
            s.scenarios_passed == self.scenario_count - self.failed_scenarios
                - self.skipped_scenarios,
            s.scenarios_failed == self.failed_scenarios,
            s.scenarios_skipped == self.skipped_scenarios,
            s.step_count == self.step_count,
            s.avg_scenario_duration_ms == spec_metric_value(
                *self,
                AlertMetric::ScenarioDurationMs,
                0,
            ),
            s.avg_step_duration_ms == spec_metric_value(*self, AlertMetric::StepDurationMs, 0),
            s.max_scenario_duration_ms == spec_seq_max(self.scenario_durations@),
            s.max_step_duration_ms == spec_seq_max(self.step_durations@),
            s.failure_rate_percent == spec_metric_value(
                *self,
                AlertMetric::FailureRatePercent,
                0,
            ),
            s.alerts_generated == self.alerts@.len(),
    {
        let avg_scenario = self.metric_value_at(&AlertMetric::ScenarioDurationMs, 0);
        let avg_step = self.metric_value_at(&AlertMetric::StepDurationMs, 0);
        let failure_rate = self.metric_value_at(&AlertMetric::FailureRatePercent, 0);
        PerformanceSummary {
            total_duration_ms: elapsed_ms(&self.start_time),
            scenario_count: self.scenario_count,
            scenarios_passed: self.scenario_count - self.failed_scenarios
                - self.skipped_scenarios,
            scenarios_failed: self.failed_scenarios,
            scenarios_skipped: self.skipped_scenarios,
            step_count: self.step_count,
            avg_scenario_duration_ms: avg_scenario,
            avg_step_duration_ms: avg_step,
            max_scenario_duration_ms: seq_max(&self.scenario_durations),
            max_step_duration_ms: seq_max(&self.step_durations),
            failure_rate_percent: failure_rate,
            alerts_generated: self.alerts.len(),
        }
    }
}

/// Largest duration recorded, or zero when nothing was.
pub open spec fn spec_seq_max(s: Seq<u64>) -> u64
    decreases s.len(),
{
    if s.len() == 0 {
        0u64
    } else if s.last() >= spec_seq_max(s.drop_last()) {
        s.last()
    } else {
        spec_seq_max(s.drop_last())
    }
}

fn seq_max(v: &Vec<u64>) -> (m: u64)
    ensures
        m == spec_seq_max(v@),
{
    let mut m: u64 = 0;
    let n = v.len();
    for i in 0..n
        invariant
            n == v@.len(),
            m == spec_seq_max(v@.take(i as int)),
        decreases n - i,
    {
        proof {
            assert(v@.take(i + 1).drop_last() =~= v@.take(i as int));
        }
        if v[i] > m {
            m = v[i];
        }
    }
    proof {
        assert(v@.take(n as int) =~= v@);
    }
    m
}

fn sum_durations(v: &Vec<u64>) -> (total: u128)
    ensures
        total as int == seq_sum(v@),
{
    let mut total: u128 = 0;
    let n = v.len();
    for i in 0..n
        invariant
            n == v@.len(),
            total as int == seq_sum(v@.take(i as int)),
            total <= (i as int) * (u64::MAX as int),
        decreases n - i,
    {
        proof {
            assert(v@.take(i + 1).drop_last() =~= v@.take(i as int));
            assert((i as int) * (u64::MAX as int) + (u64::MAX as int) == (i as int + 1) * (
            u64::MAX as int)) by (nonlinear_arith);
            assert((i as int + 1) * (u64::MAX as int) <= (u64::MAX as int) * (u64::MAX as int))
                by (nonlinear_arith)
                requires
                    i as int + 1 <= u64::MAX as int,
            ;
        }
        total = total + (v[i] as u128);
    }
    proof {
        assert(v@.take(n as int) =~= v@);
    }
    total
}

proof fn lemma_metric_lookup_wf(ms: Seq<(String, Rational)>, key: Seq<char>)
    requires
        forall|i: int| 0 <= i < ms.len() ==> (#[trigger] ms[i]).1.wf(),
    ensures
        metric_lookup(ms, key) matches Some(v) ==> v.wf(),
    decreases ms.len(),
{
    if ms.len() > 0 {
        assert(ms.last() == ms[ms.len() - 1]);
        assert(forall|i: int| 0 <= i < ms.len() - 1 ==> ms.drop_last()[i] == ms[i]);
        lemma_metric_lookup_wf(ms.drop_last(), key);
    }
}

fn lookup_metric(ms: &Vec<(String, Rational)>, key: &String) -> (r: Option<Rational>)
    ensures
        r == metric_lookup(ms@, key@),
{
    let ghost m = ms@;
    let mut j = ms.len();
    proof {
        assert(m.take(m.len() as int) =~= m);
    }
    while j > 0
        invariant
            j <= m.len(),
            ms@ == m,
            metric_lookup(m, key@) == metric_lookup(m.take(j as int), key@),
        decreases j,
    {
        proof {
            assert(m.take(j as int).drop_last() =~= m.take(j - 1));
            assert(m.take(j as int).last() == m[j - 1]);
        }
        j = j - 1;
        if ms[j].0 == *key {
            return Some(ms[j].1);
        }
    }
    None
}

/// The session rollup of one monitor.
#[derive(Clone, Debug)]
pub struct PerformanceSummary {
    pub total_duration_ms: u64,
    pub scenario_count: usize,
    pub scenarios_passed: usize,
    pub scenarios_failed: usize,
    pub scenarios_skipped: usize,
    pub step_count: usize,
    pub avg_scenario_duration_ms: Rational,
    pub avg_step_duration_ms: Rational,
    pub max_scenario_duration_ms: u64,
    pub max_step_duration_ms: u64,
    pub failure_rate_percent: Rational,
    pub alerts_generated: usize,
}

/// Holds a set of alert configurations and evaluates them in turn.
pub struct AlertManager {
    pub configs: Vec<AlertConfig>,
}

/// The two monitors hold the same measurements (they may differ in the
/// alerts already recorded and in when they were started).
pub open spec fn same_measurements(m1: PerformanceMonitor, m2: PerformanceMonitor) -> bool {
    &&& m1.scenario_durations == m2.scenario_durations
    &&& m1.step_durations == m2.step_durations
    &&& m1.step_count == m2.step_count
    &&& m1.scenario_count == m2.scenario_count
    &&& m1.failed_scenarios == m2.failed_scenarios
    &&& m1.skipped_scenarios == m2.skipped_scenarios
    &&& m1.custom_metrics == m2.custom_metrics
}

proof fn lemma_metric_value_same_measurements(
    m1: PerformanceMonitor,
    m2: PerformanceMonitor,
    metric: AlertMetric,
    e: u64,
)
    requires
        same_measurements(m1, m2),
    ensures
        spec_metric_value(m1, metric, e) == spec_metric_value(m2, metric, e),
{
}

proof fn lemma_alerts_same_measurements(
    m1: PerformanceMonitor,
    m2: PerformanceMonitor,
    ths: Seq<AlertThreshold>,
    n: int,
    e: u64,
    ts: Seq<char>,
)
    requires
        same_measurements(m1, m2),
    ensures
        spec_alerts_up_to(m1, ths, n, e, ts) == spec_alerts_up_to(m2, ths, n, e, ts),
    decreases n,
{
    if n > 0 {
        lemma_alerts_same_measurements(m1, m2, ths, n - 1, e, ts);
        lemma_metric_value_same_measurements(m1, m2, ths[n - 1].metric, e);
    }
}

/// The concatenation, in configuration order, of the alert blocks of
/// the first `n` configurations: a disabled configuration contributes
/// nothing, an enabled one its exact rule evaluation at its own clock
/// reading and timestamp.
pub open spec fn spec_manager_blocks(
    m: PerformanceMonitor,
    configs: Seq<AlertConfig>,
    readings: Seq<(u64, Seq<char>)>,
    n: int,
) -> Seq<AlertModel>
    decreases n,
{
    if n <= 0 {
        Seq::empty()
    } else {
        spec_manager_blocks(m, configs, readings, n - 1) + (if configs[n - 1].enabled {
            spec_alerts_up_to(
                m,
                configs[n - 1].thresholds@,
                configs[n - 1].thresholds@.len() as int,
                readings[n - 1].0,
                readings[n - 1].1,
            )
        } else {
            Seq::empty()
        })
    }
}

proof fn lemma_manager_blocks_prefix(
    m: PerformanceMonitor,
    configs: Seq<AlertConfig>,
    readings: Seq<(u64, Seq<char>)>,
    x: (u64, Seq<char>),
    n: int,
)
    requires
        0 <= n <= readings.len(),
    ensures
        spec_manager_blocks(m, configs, readings.push(x), n) == spec_manager_blocks(
            m,
            configs,
            readings,
            n,
        ),
    decreases n,
{
    if n > 0 {
        lemma_manager_blocks_prefix(m, configs, readings, x, n - 1);
        assert(readings.push(x)[n - 1] == readings[n - 1]);
    }
}

proof fn lemma_alert_views_add(a: Seq<PerformanceAlert>, b: Seq<PerformanceAlert>)
    ensures
        alert_views(a + b) == alert_views(a) + alert_views(b),
{
    assert(alert_views(a + b) =~= alert_views(a) + alert_views(b));
}

impl AlertManager {
    pub open spec fn wf(self) -> bool {
        forall|i: int| 0 <= i < self.configs@.len() ==> (#[trigger] self.configs@[i]).wf()
    }

    pub fn new() -> (m: AlertManager)
        ensures
            m.configs@.len() == 0,
            m.wf(),
    {
        AlertManager { configs: Vec::new() }
    }

    pub fn add_config(&mut self, config: AlertConfig)
        requires
            old(self).wf(),
            config.wf(),
        ensures
            final(self).wf(),
            final(self).configs@ == old(self).configs@.push(config),
    {
        self.configs.push(config);
    }

    /// Evaluate every held configuration against the monitor, collecting
    /// all emitted alerts in configuration order: the result is the
    /// concatenation of one block per configuration, each block the
    /// exact rule evaluation of its configuration (empty for a disabled
    /// one) at some reading of the clock.
    pub fn evaluate(&self, monitor: &mut PerformanceMonitor) -> (all_alerts: Vec<
        PerformanceAlert,
    >)
        requires
            self.wf(),
            old(monitor).wf(),
        ensures
            final(monitor).wf(),
            *final(monitor) == (PerformanceMonitor {
                alerts: final(monitor).alerts,
                ..*old(monitor)
            }),
            exists|readings: Seq<(u64, Seq<char>)>|
                alert_views(all_alerts@) == #[trigger] spec_manager_blocks(
                    *old(monitor),
                    self.configs@,
                    readings,
                    self.configs@.len() as int,
                ),
    {
        let ghost m0 = *old(monitor);
        let ghost mut readings: Seq<(u64, Seq<char>)> = Seq::empty();
        let mut all_alerts: Vec<PerformanceAlert> = Vec::new();
        let n = self.configs.len();
        proof {
            assert(alert_views(all_alerts@) =~= spec_manager_blocks(m0, self.configs@, readings, 0));
        }
        for i in 0..n
            invariant
                n == self.configs@.len(),
                self.wf(),
                monitor.wf(),
                *monitor == (PerformanceMonitor { alerts: monitor.alerts, ..*old(monitor) }),
                m0 == *old(monitor),
                readings.len() == i,
                alert_views(all_alerts@) == spec_manager_blocks(
                    m0,
                    self.configs@,
                    readings,
                    i as int,
                ),
        {
            let ghost m_cur = *monitor;
            let ghost a0 = all_alerts@;
            let mut alerts = monitor.evaluate_thresholds(&self.configs[i]);
            let ghost block = alerts@;
            proof {
                let c = self.configs@[i as int];
                if c.enabled {
                    let (e, ts) = choose|e: u64, ts: Seq<char>|
                        alert_views(block) == spec_alerts_up_to(
                            m_cur,
                            c.thresholds@,
                            c.thresholds@.len() as int,
                            e,
                            ts,
                        );
                    let reading = (e, ts);
                    assert(alert_views(block) == spec_alerts_up_to(
                        m_cur,
                        c.thresholds@,
                        c.thresholds@.len() as int,
                        reading.0,
                        reading.1,
                    ));
                    lemma_alerts_same_measurements(
                        m_cur,
                        m0,
                        c.thresholds@,
                        c.thresholds@.len() as int,
                        reading.0,
                        reading.1,
                    );
                    lemma_manager_blocks_prefix(m0, self.configs@, readings, reading, i as int);
                    readings = readings.push(reading);
                } else {
                    let reading = (0u64, Seq::<char>::empty());
                    assert(block.len() == 0);
                    lemma_manager_blocks_prefix(m0, self.configs@, readings, reading, i as int);
                    readings = readings.push(reading);
                }
            }
            all_alerts.append(&mut alerts);
            proof {
                lemma_alert_views_add(a0, block);
                assert(readings[i as int] == readings.last());
                assert(alert_views(all_alerts@) =~= spec_manager_blocks(
                    m0,
                    self.configs@,
                    readings,
                    i + 1,
                ));
            }
        }
        all_alerts
    }
}

} // verus!
