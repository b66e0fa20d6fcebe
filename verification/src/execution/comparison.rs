//! The comparison engine: diffs two result trees (baseline against
//! current) at scenario and step granularity, classifies every change, and
//! extracts severity-tagged regressions and improvements.
//!
//! All duration ratios are compared exactly (see `crate::rational`); the
//! 10% reporting floor, the 5% step-change floor and the 50% severity
//! split are exact rational comparisons, never rounded.

use vstd::prelude::*;
use vstd::string::StringExecFns;
use crate::execution::result::{ExecutionResult, ScenarioResult, Status, StepResult};
use crate::rational::{lemma_quot_eq, lemma_quot_lt, ratio_cmp, Rational};
use vstd::arithmetic::div_mod::{lemma_fundamental_div_mod, lemma_fundamental_div_mod_converse};
use crate::text::{spec_digits, spec_tenths, tenths_to_string, u64_to_string};

verus! {

/// Overall outcome of a comparison.  A run with both regressions and
/// improvements is always reported as a regression.
#[derive(Clone, Copy, PartialEq, Eq, Debug, Structural)]
pub enum ComparisonStatus {
    Regression,
    Improvement,
    Unchanged,
}

impl ComparisonStatus {
    pub open spec fn spec_label(self) -> Seq<char> {
        match self {
            ComparisonStatus::Regression => "regression"@,
            ComparisonStatus::Improvement => "improvement"@,
            ComparisonStatus::Unchanged => "unchanged"@,
        }
    }

    /// The lower-case word used for this outcome in reports.
    pub fn label(&self) -> (s: &'static str)
        ensures
            s@ == self.spec_label(),
    {
        match self {
            ComparisonStatus::Regression => "regression",
            ComparisonStatus::Improvement => "improvement",
            ComparisonStatus::Unchanged => "unchanged",
        }
    }
}

/// Weight of a detected regression.
#[derive(Clone, Copy, PartialEq, Eq, Debug, Structural)]
pub enum Severity {
    Critical,
    High,
    Medium,
    Low,
}

impl Severity {
    pub open spec fn spec_label(self) -> Seq<char> {
        match self {
            Severity::Critical => "critical"@,
            Severity::High => "high"@,
            Severity::Medium => "medium"@,
            Severity::Low => "low"@,
        }
    }

    /// The lower-case word used for this severity in reports.
    pub fn label(&self) -> (s: &'static str)
        ensures
            s@ == self.spec_label(),
    {
        match self {
            Severity::Critical => "critical",
            Severity::High => "high",
            Severity::Medium => "medium",
            Severity::Low => "low",
        }
    }
}

/// How a scenario changed between the two runs.
#[derive(Clone, Copy, PartialEq, Eq, Debug, Structural)]
pub enum ChangeType {
    StatusChanged,
    DurationImproved,
    DurationRegressed,
    Unchanged,
    New,
    Removed,
}

impl ChangeType {
    pub open spec fn spec_label(self) -> Seq<char> {
        match self {
            ChangeType::StatusChanged => "status_changed"@,
            ChangeType::DurationImproved => "duration_improved"@,
            ChangeType::DurationRegressed => "duration_regressed"@,
            ChangeType::Unchanged => "unchanged"@,
            ChangeType::New => "new"@,
            ChangeType::Removed => "removed"@,
        }
    }

    /// The snake-case word used for this change kind in reports.
    pub fn label(&self) -> (s: &'static str)
        ensures
            s@ == self.spec_label(),
    {
        match self {
            ChangeType::StatusChanged => "status_changed",
            ChangeType::DurationImproved => "duration_improved",
            ChangeType::DurationRegressed => "duration_regressed",
            ChangeType::Unchanged => "unchanged",
            ChangeType::New => "new",
            ChangeType::Removed => "removed",
        }
    }
}

/// Signed deltas of the rollup counters.  Counts are machine sizes, so the
/// deltas always fit an `i128`.
#[derive(Clone, Copy, Debug)]
pub struct MetricsDifference {
    pub passed_scenarios_diff: i128,
    pub failed_scenarios_diff: i128,
    pub skipped_scenarios_diff: i128,
    pub passed_steps_diff: i128,
    pub failed_steps_diff: i128,
    pub skipped_steps_diff: i128,
    pub duration_diff_ms: i128,
    /// `(current - baseline) / baseline * 100`, exactly; zero when the
    /// baseline duration is zero.
    pub duration_change_percent: Rational,
}

/// Change record for one scenario.  `previous_status` is `None` for a
/// scenario only present in the current run; `current_status` is `None`
/// for one that was removed.
#[derive(Clone, Debug)]
pub struct ScenarioChange {
    pub scenario_name: String,
    pub previous_status: Option<Status>,
    pub current_status: Option<Status>,
    pub previous_duration_ms: u64,
    pub current_duration_ms: u64,
    pub change_type: ChangeType,
}

/// Ghost image of a `ScenarioChange`.
#[verifier::ext_equal]
pub struct ScenarioChangeModel {
    pub name: Seq<char>,
    pub prev: Option<Status>,
    pub cur: Option<Status>,
    pub prev_ms: u64,
    pub cur_ms: u64,
    pub kind: ChangeType,
}

impl View for ScenarioChange {
    type V = ScenarioChangeModel;

    open spec fn view(&self) -> ScenarioChangeModel {
        ScenarioChangeModel {
            name: self.scenario_name@,
            prev: self.previous_status,
            cur: self.current_status,
            prev_ms: self.previous_duration_ms,
            cur_ms: self.current_duration_ms,
            kind: self.change_type,
        }
    }
}

/// Aggregated performance record for one step text.  The mean durations
/// are exact ratios of total duration over occurrence count.
#[derive(Clone, Debug)]
pub struct StepPerformanceChange {
    pub step_text: String,
    pub baseline_avg_ms: Rational,
    pub current_avg_ms: Rational,
    pub is_regression: bool,
    pub occurrence_count: usize,
}

/// Ghost image of a `StepPerformanceChange`.
#[verifier::ext_equal]
pub struct StepChangeModel {
    pub text: Seq<char>,
    pub baseline_avg: Rational,
    pub current_avg: Rational,
    pub is_regression: bool,
    pub occurrences: nat,
}

impl View for StepPerformanceChange {
    type V = StepChangeModel;

    open spec fn view(&self) -> StepChangeModel {
        StepChangeModel {
            text: self.step_text@,
            baseline_avg: self.baseline_avg_ms,
            current_avg: self.current_avg_ms,
            is_regression: self.is_regression,
            occurrences: self.occurrence_count as nat,
        }
    }
}

/// A detected regression, with its weight and its impact in whole units.
#[derive(Clone, Debug)]
pub struct RegressionItem {
    pub description: String,
    pub severity: Severity,
    pub scenario_name: Option<String>,
    pub step_text: Option<String>,
    pub impact_value: u64,
    pub impact_unit: String,
}

/// Ghost image of a `RegressionItem`.
#[verifier::ext_equal]
pub struct RegressionModel {
    pub desc: Seq<char>,
    pub severity: Severity,
    pub scenario: Option<Seq<char>>,
    pub step: Option<Seq<char>>,
    pub impact: u64,
    pub unit: Seq<char>,
}

impl View for RegressionItem {
    type V = RegressionModel;

    open spec fn view(&self) -> RegressionModel {
        RegressionModel {
            desc: self.description@,
            severity: self.severity,
            scenario: match self.scenario_name {
                Some(ref n) => Some(n@),
                None => None,
            },
            step: match self.step_text {
                Some(ref t) => Some(t@),
                None => None,
            },
            impact: self.impact_value,
            unit: self.impact_unit@,
        }
    }
}

/// A detected improvement, with its gain in whole units.
#[derive(Clone, Debug)]
pub struct ImprovementItem {
    pub description: String,
    pub scenario_name: Option<String>,
    pub step_text: Option<String>,
    pub improvement_value: u64,
    pub improvement_unit: String,
}

/// Ghost image of an `ImprovementItem`.
#[verifier::ext_equal]
pub struct ImprovementModel {
    pub desc: Seq<char>,
    pub scenario: Option<Seq<char>>,
    pub step: Option<Seq<char>>,
    pub value: u64,
    pub unit: Seq<char>,
}

impl View for ImprovementItem {
    type V = ImprovementModel;

    open spec fn view(&self) -> ImprovementModel {
        ImprovementModel {
            desc: self.description@,
            scenario: match self.scenario_name {
                Some(ref n) => Some(n@),
                None => None,
            },
            step: match self.step_text {
                Some(ref t) => Some(t@),
                None => None,
            },
            value: self.improvement_value,
            unit: self.improvement_unit@,
        }
    }
}

/// Counts of a comparison's findings, with the two run timestamps.
#[derive(Clone, Debug)]
pub struct ComparisonSummary {
    pub baseline_timestamp: String,
    pub current_timestamp: String,
    pub scenario_changes_count: usize,
    pub step_changes_count: usize,
    pub regression_count: usize,
    pub improvement_count: usize,
}

/// Full outcome of comparing a baseline run against a current run.
#[derive(Clone, Debug)]
pub struct ComparisonResult {
    pub status: ComparisonStatus,
    pub summary: ComparisonSummary,
    pub metrics_diff: MetricsDifference,
    pub scenario_changes: Vec<ScenarioChange>,
    pub step_performance_changes: Vec<StepPerformanceChange>,
    pub regressions: Vec<RegressionItem>,
    pub improvements: Vec<ImprovementItem>,
}

// ---------------------------------------------------------------------
// Scenario matching: scenarios are matched by name; when a name repeats
// within one run, the last occurrence wins.

/// Index of the last scenario named `nm`, or -1 when there is none.
pub open spec fn last_index_of(s: Seq<ScenarioResult>, nm: Seq<char>) -> int
    decreases s.len(),
{
    if s.len() == 0 {
        -1
    } else if s.last().name@ == nm {
        s.len() - 1
    } else {
        last_index_of(s.drop_last(), nm)
    }
}

pub open spec fn contains_name(s: Seq<ScenarioResult>, nm: Seq<char>) -> bool {
    last_index_of(s, nm) >= 0
}

/// Index `i` holds the last occurrence of its own name.
pub open spec fn is_last_occurrence(s: Seq<ScenarioResult>, i: int) -> bool {
    forall|j: int| i < j < s.len() ==> s[j].name@ != s[i].name@
}

pub proof fn lemma_last_index_of(s: Seq<ScenarioResult>, nm: Seq<char>)
    ensures
        -1 <= last_index_of(s, nm) < s.len(),
        last_index_of(s, nm) >= 0 ==> s[last_index_of(s, nm)].name@ == nm,
        forall|j: int| last_index_of(s, nm) < j < s.len() ==> s[j].name@ != nm,
    decreases s.len(),
{
    if s.len() > 0 && s.last().name@ != nm {
        lemma_last_index_of(s.drop_last(), nm);
        assert(forall|j: int|
            0 <= j < s.len() - 1 ==> s[j] == s.drop_last()[j]);
    }
}

pub proof fn lemma_last_index_char(s: Seq<ScenarioResult>, i: int)
    requires
        0 <= i < s.len(),
        is_last_occurrence(s, i),
    ensures
        last_index_of(s, s[i].name@) == i,
    decreases s.len(),
{
    if i == s.len() - 1 {
    } else {
        assert(s.last().name@ != s[i].name@);
        assert(s.drop_last()[i] == s[i]);
        assert(is_last_occurrence(s.drop_last(), i)) by {
            assert(forall|j: int|
                i < j < s.len() - 1 ==> s.drop_last()[j] == s[j]);
        }
        lemma_last_index_char(s.drop_last(), i);
    }
}

/// Scan for the last scenario with the given name.
fn find_last_by_name(scenarios: &Vec<ScenarioResult>, name: &String) -> (r: Option<usize>)
    ensures
        match r {
            Some(i) => i < scenarios@.len() && last_index_of(scenarios@, name@) == i,
            None => last_index_of(scenarios@, name@) == -1,
        },
{
    let ghost s = scenarios@;
    let mut j = scenarios.len();
    while j > 0
        invariant
            j <= s.len(),
            scenarios@ == s,
            forall|k: int| j <= k < s.len() ==> s[k].name@ != name@,
        decreases j,
    {
        j = j - 1;
        if scenarios[j].name == *name {
            proof {
                assert(is_last_occurrence(s, j as int));
                lemma_last_index_char(s, j as int);
            }
            return Some(j);
        }
    }
    proof {
        lemma_last_index_of(s, name@);
    }
    None
}

// ---------------------------------------------------------------------
// Metrics diff.

/// Exact image of the metrics diff of two runs.
pub open spec fn spec_metrics_diff(b: ExecutionResult, c: ExecutionResult) -> MetricsDifference {
    MetricsDifference {
        passed_scenarios_diff: (c.summary.passed_scenarios - b.summary.passed_scenarios) as i128,
        failed_scenarios_diff: (c.summary.failed_scenarios - b.summary.failed_scenarios) as i128,
        skipped_scenarios_diff: (c.summary.skipped_scenarios
            - b.summary.skipped_scenarios) as i128,
        passed_steps_diff: (c.summary.passed_steps - b.summary.passed_steps) as i128,
        failed_steps_diff: (c.summary.failed_steps - b.summary.failed_steps) as i128,
        skipped_steps_diff: (c.summary.skipped_steps - b.summary.skipped_steps) as i128,
        duration_diff_ms: (c.duration_ms - b.duration_ms) as i128,
        duration_change_percent: spec_duration_percent(b.duration_ms, c.duration_ms),
    }
}

/// `(c - b) / b * 100` as an exact signed ratio; zero when `b` is zero.
pub open spec fn spec_duration_percent(b: u64, c: u64) -> Rational {
    if b == 0 {
        Rational { neg: false, num: 0, den: 1 }
    } else if c >= b {
        Rational { neg: false, num: ((c - b) * 100) as u128, den: b as u128 }
    } else {
        Rational { neg: true, num: ((b - c) * 100) as u128, den: b as u128 }
    }
}

/// Signed deltas for every rollup counter, and the exact percentage
/// change of the total duration.
pub fn calculate_metrics_diff(baseline: &ExecutionResult, current: &ExecutionResult) -> (r:
    MetricsDifference)
    ensures
        r == spec_metrics_diff(*baseline, *current),
{
    let duration_change_percent: Rational = if baseline.duration_ms == 0 {
        Rational { neg: false, num: 0, den: 1 }
    } else if current.duration_ms >= baseline.duration_ms {
        Rational {
            neg: false,
            num: ((current.duration_ms - baseline.duration_ms) as u128) * 100,
            den: baseline.duration_ms as u128,
        }
    } else {
        Rational {
            neg: true,
            num: ((baseline.duration_ms - current.duration_ms) as u128) * 100,
            den: baseline.duration_ms as u128,
        }
    };
    MetricsDifference {
        passed_scenarios_diff: current.summary.passed_scenarios as i128
            - baseline.summary.passed_scenarios as i128,
        failed_scenarios_diff: current.summary.failed_scenarios as i128
            - baseline.summary.failed_scenarios as i128,
        skipped_scenarios_diff: current.summary.skipped_scenarios as i128
            - baseline.summary.skipped_scenarios as i128,
        passed_steps_diff: current.summary.passed_steps as i128
            - baseline.summary.passed_steps as i128,
        failed_steps_diff: current.summary.failed_steps as i128
            - baseline.summary.failed_steps as i128,
        skipped_steps_diff: current.summary.skipped_steps as i128
            - baseline.summary.skipped_steps as i128,
        duration_diff_ms: current.duration_ms as i128 - baseline.duration_ms as i128,
        duration_change_percent,
    }
}

// ---------------------------------------------------------------------
// Scenario-level classification and extraction.

/// Rounded tenths of a percent: `diff / base * 1000`, rounded half up.
pub open spec fn spec_pct_tenths(diff: int, base: int) -> int {
    (diff * 2000 + base) / (2 * base)
}

pub open spec fn spec_desc_status_regression(name: Seq<char>) -> Seq<char> {
    "Scenario '"@ + name + "' changed from passed to failed"@
}

pub open spec fn spec_desc_scn_regressed(name: Seq<char>, b: u64, c: u64) -> Seq<char> {
    if b == 0 {
        "Scenario '"@ + name + "' duration regressed by "@ + spec_digits((c - b) as int) + "ms"@
    } else {
        "Scenario '"@ + name + "' duration regressed by "@ + spec_tenths(
            spec_pct_tenths((c - b) as int, b as int),
        ) + "%"@
    }
}

pub open spec fn spec_desc_scn_improved(name: Seq<char>, b: u64, c: u64) -> Seq<char> {
    "Scenario '"@ + name + "' duration improved by "@ + spec_tenths(
        spec_pct_tenths((b - c) as int, b as int),
    ) + "%"@
}

/// A duration increase is reported as a regression only when it exceeds
/// 10% of the baseline duration.
pub open spec fn scn_reg_reported(b: u64, c: u64) -> bool {
    c > b && (c - b) * 100 > 10 * b
}

/// An increase beyond 50% of the baseline is `High`, the rest `Medium`.
pub open spec fn scn_reg_high(b: u64, c: u64) -> bool {
    (c - b) * 100 > 50 * b
}

/// The change record for a scenario present in both runs.
pub open spec fn spec_pair_change(b: ScenarioResult, c: ScenarioResult) -> ScenarioChangeModel {
    ScenarioChangeModel {
        name: b.name@,
        prev: Some(b.status),
        cur: Some(c.status),
        prev_ms: b.duration_ms,
        cur_ms: c.duration_ms,
        kind: if b.status != c.status {
            ChangeType::StatusChanged
        } else if c.duration_ms < b.duration_ms {
            ChangeType::DurationImproved
        } else if c.duration_ms > b.duration_ms {
            ChangeType::DurationRegressed
        } else {
            ChangeType::Unchanged
        },
    }
}

pub open spec fn spec_removed_change(b: ScenarioResult) -> ScenarioChangeModel {
    ScenarioChangeModel {
        name: b.name@,
        prev: Some(b.status),
        cur: None,
        prev_ms: b.duration_ms,
        cur_ms: 0,
        kind: ChangeType::Removed,
    }
}

pub open spec fn spec_new_change(c: ScenarioResult) -> ScenarioChangeModel {
    ScenarioChangeModel {
        name: c.name@,
        prev: None,
        cur: Some(c.status),
        prev_ms: 0,
        cur_ms: c.duration_ms,
        kind: ChangeType::New,
    }
}

/// The regressions a matched pair contributes: a `Critical` entry when a
/// passing scenario now fails, and a severity-tagged entry when its
/// duration grew by more than 10%.
pub open spec fn spec_pair_regs(b: ScenarioResult, c: ScenarioResult) -> Seq<RegressionModel> {
    (if b.status == Status::Passed && c.status == Status::Failed {
        seq![
            RegressionModel {
                desc: spec_desc_status_regression(b.name@),
                severity: Severity::Critical,
                scenario: Some(b.name@),
                step: None,
                impact: 1,
                unit: "count"@,
            },
        ]
    } else {
        Seq::<RegressionModel>::empty()
    }) + (if scn_reg_reported(b.duration_ms, c.duration_ms) {
        seq![
            RegressionModel {
                desc: spec_desc_scn_regressed(b.name@, b.duration_ms, c.duration_ms),
                severity: if scn_reg_high(b.duration_ms, c.duration_ms) {
                    Severity::High
                } else {
                    Severity::Medium
                },
                scenario: Some(b.name@),
                step: None,
                impact: (c.duration_ms - b.duration_ms) as u64,
                unit: "ms"@,
            },
        ]
    } else {
        Seq::<RegressionModel>::empty()
    })
}

/// The improvements a matched pair contributes: any duration decrease,
/// with no minimum threshold.
pub open spec fn spec_pair_imps(b: ScenarioResult, c: ScenarioResult) -> Seq<ImprovementModel> {
    if c.duration_ms < b.duration_ms {
        seq![
            ImprovementModel {
                desc: spec_desc_scn_improved(b.name@, b.duration_ms, c.duration_ms),
                scenario: Some(b.name@),
                step: None,
                value: (b.duration_ms - c.duration_ms) as u64,
                unit: "ms"@,
            },
        ]
    } else {
        Seq::<ImprovementModel>::empty()
    }
}

/// Change records from the first `n` baseline scenarios, in order; only
/// the last occurrence of each name is considered.
pub open spec fn spec_scn_changes_up_to(
    b: Seq<ScenarioResult>,
    c: Seq<ScenarioResult>,
    n: int,
) -> Seq<ScenarioChangeModel>
    decreases n,
{
    if n <= 0 {
        Seq::empty()
    } else {
        let pre = spec_scn_changes_up_to(b, c, n - 1);
        let i = n - 1;
        if is_last_occurrence(b, i) {
            if contains_name(c, b[i].name@) {
                pre.push(spec_pair_change(b[i], c[last_index_of(c, b[i].name@)]))
            } else {
                pre.push(spec_removed_change(b[i]))
            }
        } else {
            pre
        }
    }
}

/// Change records for scenarios only present in the current run.
pub open spec fn spec_new_changes_up_to(
    b: Seq<ScenarioResult>,
    c: Seq<ScenarioResult>,
    n: int,
) -> Seq<ScenarioChangeModel>
    decreases n,
{
    if n <= 0 {
        Seq::empty()
    } else {
        let pre = spec_new_changes_up_to(b, c, n - 1);
        let i = n - 1;
        if is_last_occurrence(c, i) && !contains_name(b, c[i].name@) {
            pre.push(spec_new_change(c[i]))
        } else {
            pre
        }
    }
}

/// Scenario-level regressions from the first `n` baseline scenarios.
pub open spec fn spec_scn_regs_up_to(
    b: Seq<ScenarioResult>,
    c: Seq<ScenarioResult>,
    n: int,
) -> Seq<RegressionModel>
    decreases n,
{
    if n <= 0 {
        Seq::empty()
    } else {
        let pre = spec_scn_regs_up_to(b, c, n - 1);
        let i = n - 1;
        if is_last_occurrence(b, i) && contains_name(c, b[i].name@) {
            pre + spec_pair_regs(b[i], c[last_index_of(c, b[i].name@)])
        } else {
            pre
        }
    }
}

/// Scenario-level improvements from the first `n` baseline scenarios.
pub open spec fn spec_scn_imps_up_to(
    b: Seq<ScenarioResult>,
    c: Seq<ScenarioResult>,
    n: int,
) -> Seq<ImprovementModel>
    decreases n,
{
    if n <= 0 {
        Seq::empty()
    } else {
        let pre = spec_scn_imps_up_to(b, c, n - 1);
        let i = n - 1;
        if is_last_occurrence(b, i) && contains_name(c, b[i].name@) {
            pre + spec_pair_imps(b[i], c[last_index_of(c, b[i].name@)])
        } else {
            pre
        }
    }
}

/// The ghost images of a list of change records.
pub open spec fn change_views(s: Seq<ScenarioChange>) -> Seq<ScenarioChangeModel> {
    s.map_values(|x: ScenarioChange| x@)
}

/// The ghost images of a list of regressions.
pub open spec fn reg_views(s: Seq<RegressionItem>) -> Seq<RegressionModel> {
    s.map_values(|x: RegressionItem| x@)
}

/// The ghost images of a list of improvements.
pub open spec fn imp_views(s: Seq<ImprovementItem>) -> Seq<ImprovementModel> {
    s.map_values(|x: ImprovementItem| x@)
}

/// The ghost images of a list of step performance records.
pub open spec fn step_views(s: Seq<StepPerformanceChange>) -> Seq<StepChangeModel> {
    s.map_values(|x: StepPerformanceChange| x@)
}

proof fn lemma_change_views_push(s: Seq<ScenarioChange>, x: ScenarioChange)
    ensures
        change_views(s.push(x)) == change_views(s).push(x@),
{
    assert(change_views(s.push(x)) =~= change_views(s).push(x@));
}

proof fn lemma_reg_views_push(s: Seq<RegressionItem>, x: RegressionItem)
    ensures
        reg_views(s.push(x)) == reg_views(s).push(x@),
{
    assert(reg_views(s.push(x)) =~= reg_views(s).push(x@));
}

proof fn lemma_imp_views_push(s: Seq<ImprovementItem>, x: ImprovementItem)
    ensures
        imp_views(s.push(x)) == imp_views(s).push(x@),
{
    assert(imp_views(s.push(x)) =~= imp_views(s).push(x@));
}

proof fn lemma_step_views_push(s: Seq<StepPerformanceChange>, x: StepPerformanceChange)
    ensures
        step_views(s.push(x)) == step_views(s).push(x@),
{
    assert(step_views(s.push(x)) =~= step_views(s).push(x@));
}

proof fn lemma_add_push<A>(x: Seq<A>, y: Seq<A>, m: A)
    ensures
        x + y.push(m) == (x + y).push(m),
{
    assert(x + y.push(m) =~= (x + y).push(m));
}

fn desc_status_regression(name: &String) -> (s: String)
    ensures
        s@ == spec_desc_status_regression(name@),
{
    let mut s = String::from_str("Scenario '");
    s.append(name.as_str());
    s.append("' changed from passed to failed");
    proof {
        assert(s@ =~= spec_desc_status_regression(name@));
    }
    s
}

fn desc_scn_regressed(name: &String, b: u64, c: u64) -> (s: String)
    requires
        c > b,
    ensures
        s@ == spec_desc_scn_regressed(name@, b, c),
{
    let mut s = String::from_str("Scenario '");
    s.append(name.as_str());
    s.append("' duration regressed by ");
    if b == 0 {
        let amount = u64_to_string(c - b);
        s.append(amount.as_str());
        s.append("ms");
    } else {
        let t: u128 = ((c - b) as u128 * 2000 + b as u128) / (2 * b as u128);
        let amount = tenths_to_string(t);
        s.append(amount.as_str());
        s.append("%");
    }
    proof {
        assert(s@ =~= spec_desc_scn_regressed(name@, b, c));
    }
    s
}

fn desc_scn_improved(name: &String, b: u64, c: u64) -> (s: String)
    requires
        c < b,
    ensures
        s@ == spec_desc_scn_improved(name@, b, c),
{
    let mut s = String::from_str("Scenario '");
    s.append(name.as_str());
    s.append("' duration improved by ");
    let t: u128 = ((b - c) as u128 * 2000 + b as u128) / (2 * b as u128);
    let amount = tenths_to_string(t);
    s.append(amount.as_str());
    s.append("%");
    proof {
        assert(s@ =~= spec_desc_scn_improved(name@, b, c));
    }
    s
}

/// Is index `i` the last scenario with its name?
fn is_last_occ(scenarios: &Vec<ScenarioResult>, i: usize) -> (r: bool)
    requires
        i < scenarios@.len(),
    ensures
        r == is_last_occurrence(scenarios@, i as int),
{
    let ghost s = scenarios@;
    let n = scenarios.len();
    let mut j = i + 1;
    while j < n
        invariant
            i < j <= n,
            n == s.len(),
            scenarios@ == s,
            forall|k: int| i < k < j ==> s[k].name@ != s[i as int].name@,
        decreases n - j,
    {
        if scenarios[j].name == scenarios[i].name {
            return false;
        }
        j = j + 1;
    }
    true
}

/// Walk the two scenario lists and produce, in deterministic order, the
/// change records, the regressions and the improvements that the
/// scenarios contribute.
fn scenario_analysis(baseline: &ExecutionResult, current: &ExecutionResult) -> (r: (
    Vec<ScenarioChange>,
    Vec<RegressionItem>,
    Vec<ImprovementItem>,
))
    ensures
        change_views(r.0@) == spec_scn_changes_up_to(
            baseline.scenarios@,
            current.scenarios@,
            baseline.scenarios@.len() as int,
        ) + spec_new_changes_up_to(
            baseline.scenarios@,
            current.scenarios@,
            current.scenarios@.len() as int,
        ),
        reg_views(r.1@) == spec_scn_regs_up_to(
            baseline.scenarios@,
            current.scenarios@,
            baseline.scenarios@.len() as int,
        ),
        imp_views(r.2@) == spec_scn_imps_up_to(
            baseline.scenarios@,
            current.scenarios@,
            baseline.scenarios@.len() as int,
        ),
{
    let ghost b = baseline.scenarios@;
    let ghost c = current.scenarios@;
    let mut changes: Vec<ScenarioChange> = Vec::new();
    let mut regressions: Vec<RegressionItem> = Vec::new();
    let mut improvements: Vec<ImprovementItem> = Vec::new();
    proof {
        assert(change_views(changes@) =~= spec_scn_changes_up_to(b, c, 0));
        assert(reg_views(regressions@) =~= spec_scn_regs_up_to(b, c, 0));
        assert(imp_views(improvements@) =~= spec_scn_imps_up_to(b, c, 0));
    }
    let nb = baseline.scenarios.len();
    for i in 0..nb
        invariant
            nb == b.len(),
            baseline.scenarios@ == b,
            current.scenarios@ == c,
            change_views(changes@) == spec_scn_changes_up_to(b, c, i as int),
            reg_views(regressions@) == spec_scn_regs_up_to(b, c, i as int),
            imp_views(improvements@) == spec_scn_imps_up_to(b, c, i as int),
    {
        if is_last_occ(&baseline.scenarios, i) {
            let bs = &baseline.scenarios[i];
            match find_last_by_name(&current.scenarios, &bs.name) {
                Some(ci) => {
                    let cs = &current.scenarios[ci];
                    let ghost pair_regs = spec_pair_regs(b[i as int], c[ci as int]);
                    // A scenario that was passing and now fails is always
                    // a critical regression.
                    if bs.status == Status::Passed && cs.status == Status::Failed {
                        let ghost rg0 = regressions@;
                        let item = RegressionItem {
                            description: desc_status_regression(&bs.name),
                            severity: Severity::Critical,
                            scenario_name: Some(bs.name.clone()),
                            step_text: None,
                            impact_value: 1,
                            impact_unit: String::from_str("count"),
                        };
                        proof {
                            lemma_reg_views_push(rg0, item);
                            assert(item@ =~~= pair_regs[0]);
                        }
                        regressions.push(item);
                    }
                    if cs.duration_ms < bs.duration_ms {
                        let ghost im0 = improvements@;
                        let item = ImprovementItem {
                            description: desc_scn_improved(
                                &bs.name,
                                bs.duration_ms,
                                cs.duration_ms,
                            ),
                            scenario_name: Some(bs.name.clone()),
                            step_text: None,
                            improvement_value: bs.duration_ms - cs.duration_ms,
                            improvement_unit: String::from_str("ms"),
                        };
                        proof {
                            lemma_imp_views_push(im0, item);
                            assert(item@ =~~= spec_pair_imps(b[i as int], c[ci as int])[0]);
                        }
                        improvements.push(item);
                    } else if cs.duration_ms > bs.duration_ms {
                        let diff = cs.duration_ms - bs.duration_ms;
                        if (diff as u128) * 100 > 10 * (bs.duration_ms as u128) {
                            let high = (diff as u128) * 100 > 50 * (bs.duration_ms as u128);
                            let ghost rg0 = regressions@;
                            let item = RegressionItem {
                                description: desc_scn_regressed(
                                    &bs.name,
                                    bs.duration_ms,
                                    cs.duration_ms,
                                ),
                                severity: if high {
                                    Severity::High
                                } else {
                                    Severity::Medium
                                },
                                scenario_name: Some(bs.name.clone()),
                                step_text: None,
                                impact_value: diff,
                                impact_unit: String::from_str("ms"),
                            };
                            proof {
                                lemma_reg_views_push(rg0, item);
                                assert(item@ =~~= pair_regs[pair_regs.len() - 1]);
                            }
                            regressions.push(item);
                        }
                    }
                    let ghost ch0 = changes@;
                    let change = ScenarioChange {
                        scenario_name: bs.name.clone(),
                        previous_status: Some(bs.status),
                        current_status: Some(cs.status),
                        previous_duration_ms: bs.duration_ms,
                        current_duration_ms: cs.duration_ms,
                        change_type: if bs.status != cs.status {
                            ChangeType::StatusChanged
                        } else if cs.duration_ms < bs.duration_ms {
                            ChangeType::DurationImproved
                        } else if cs.duration_ms > bs.duration_ms {
                            ChangeType::DurationRegressed
                        } else {
                            ChangeType::Unchanged
                        },
                    };
                    proof {
                        lemma_change_views_push(ch0, change);
                        assert(change@ =~~= spec_pair_change(b[i as int], c[ci as int]));
                    }
                    changes.push(change);
                },
                None => {
                    let ghost ch0 = changes@;
                    let change = ScenarioChange {
                        scenario_name: bs.name.clone(),
                        previous_status: Some(bs.status),
                        current_status: None,
                        previous_duration_ms: bs.duration_ms,
                        current_duration_ms: 0,
                        change_type: ChangeType::Removed,
                    };
                    proof {
                        lemma_change_views_push(ch0, change);
                        assert(change@ =~~= spec_removed_change(b[i as int]));
                    }
                    changes.push(change);
                },
            }
        }
        proof {
            assert(change_views(changes@) =~~= spec_scn_changes_up_to(b, c, i + 1));
            assert(reg_views(regressions@) =~~= spec_scn_regs_up_to(b, c, i + 1));
            assert(imp_views(improvements@) =~~= spec_scn_imps_up_to(b, c, i + 1));
        }
    }
    let ghost changes_matched = spec_scn_changes_up_to(b, c, b.len() as int);
    proof {
        assert(change_views(changes@) =~= changes_matched + spec_new_changes_up_to(b, c, 0));
    }
    let nc = current.scenarios.len();
    for i in 0..nc
        invariant
            nc == c.len(),
            baseline.scenarios@ == b,
            current.scenarios@ == c,
            changes_matched == spec_scn_changes_up_to(b, c, b.len() as int),
            change_views(changes@) == changes_matched + spec_new_changes_up_to(b, c, i as int),
            reg_views(regressions@) == spec_scn_regs_up_to(b, c, b.len() as int),
            imp_views(improvements@) == spec_scn_imps_up_to(b, c, b.len() as int),
    {
        if is_last_occ(&current.scenarios, i) {
            let cs = &current.scenarios[i];
            match find_last_by_name(&baseline.scenarios, &cs.name) {
                Some(_) => {},
                None => {
                    let ghost ch0 = changes@;
                    let change = ScenarioChange {
                        scenario_name: cs.name.clone(),
                        previous_status: None,
                        current_status: Some(cs.status),
                        previous_duration_ms: 0,
                        current_duration_ms: cs.duration_ms,
                        change_type: ChangeType::New,
                    };
                    proof {
                        lemma_change_views_push(ch0, change);
                        assert(change@ =~~= spec_new_change(c[i as int]));
                        lemma_add_push(
                            changes_matched,
                            spec_new_changes_up_to(b, c, i as int),
                            spec_new_change(c[i as int]),
                        );
                    }
                    changes.push(change);
                },
            }
        }
        proof {
            assert(change_views(changes@) =~~= changes_matched + spec_new_changes_up_to(
                b,
                c,
                i + 1,
            ));
        }
    }
    (changes, regressions, improvements)
}

// ---------------------------------------------------------------------
// Step-level aggregation: group all steps by exact text, compare mean
// durations between the two runs.

/// One step occurrence: its text and its duration.
pub(crate) struct StepPair {
    pub(crate) text: String,
    pub(crate) dur: u64,
}

pub(crate) open spec fn pair_views(s: Seq<StepPair>) -> Seq<(Seq<char>, u64)> {
    s.map_values(|p: StepPair| (p.text@, p.dur))
}

proof fn lemma_pair_views_push(s: Seq<StepPair>, x: StepPair)
    ensures
        pair_views(s.push(x)) == pair_views(s).push((x.text@, x.dur)),
{
    assert(pair_views(s.push(x)) =~= pair_views(s).push((x.text@, x.dur)));
}

/// The (text, duration) pairs of one scenario's steps, in order.
pub open spec fn scenario_pairs(steps: Seq<StepResult>) -> Seq<(Seq<char>, u64)> {
    steps.map_values(|st: StepResult| (st.text@, st.duration_ms))
}

/// Every step of a run as a (text, duration) pair, scenarios in order.
pub open spec fn all_step_pairs(scenarios: Seq<ScenarioResult>) -> Seq<(Seq<char>, u64)>
    decreases scenarios.len(),
{
    if scenarios.len() == 0 {
        Seq::empty()
    } else {
        all_step_pairs(scenarios.drop_last()) + scenario_pairs(scenarios.last().steps@)
    }
}

pub open spec fn texts_of(pairs: Seq<(Seq<char>, u64)>) -> Seq<Seq<char>> {
    pairs.map_values(|p: (Seq<char>, u64)| p.0)
}

/// The distinct texts among the first `n`, keeping first occurrences.
pub open spec fn dedup_up_to(ts: Seq<Seq<char>>, n: int) -> Seq<Seq<char>>
    decreases n,
{
    if n <= 0 {
        Seq::empty()
    } else {
        let pre = dedup_up_to(ts, n - 1);
        if ts.take(n - 1).contains(ts[n - 1]) {
            pre
        } else {
            pre.push(ts[n - 1])
        }
    }
}

/// Total duration of the pairs with text `t`.
pub open spec fn sum_for(pairs: Seq<(Seq<char>, u64)>, t: Seq<char>) -> int
    decreases pairs.len(),
{
    if pairs.len() == 0 {
        0
    } else {
        sum_for(pairs.drop_last(), t) + if pairs.last().0 == t {
            pairs.last().1 as int
        } else {
            0
        }
    }
}

/// Number of pairs with text `t`.
pub open spec fn count_for(pairs: Seq<(Seq<char>, u64)>, t: Seq<char>) -> int
    decreases pairs.len(),
{
    if pairs.len() == 0 {
        0
    } else {
        count_for(pairs.drop_last(), t) + if pairs.last().0 == t {
            1int
        } else {
            0
        }
    }
}

/// One aggregated step text: total duration and occurrence count.
#[verifier::ext_equal]
pub struct StepGroupModel {
    pub text: Seq<char>,
    pub total: int,
    pub count: int,
}

/// The groups of a pair list: one entry per distinct text, in first-
/// occurrence order, carrying that text's total duration and count.
pub open spec fn groups_of(pairs: Seq<(Seq<char>, u64)>) -> Seq<StepGroupModel> {
    let dt = dedup_up_to(texts_of(pairs), pairs.len() as int);
    Seq::new(
        dt.len(),
        |k: int|
            StepGroupModel {
                text: dt[k],
                total: sum_for(pairs, dt[k]),
                count: count_for(pairs, dt[k]),
            },
    )
}

pub(crate) struct StepGroup {
    pub(crate) text: String,
    pub(crate) total: u128,
    pub(crate) count: usize,
}

pub(crate) open spec fn group_views(s: Seq<StepGroup>) -> Seq<StepGroupModel> {
    s.map_values(
        |g: StepGroup|
            StepGroupModel { text: g.text@, total: g.total as int, count: g.count as int },
    )
}

proof fn lemma_dedup_prefix(ts: Seq<Seq<char>>, t0: Seq<char>, n: int)
    requires
        0 <= n <= ts.len(),
    ensures
        dedup_up_to(ts.push(t0), n) == dedup_up_to(ts, n),
    decreases n,
{
    if n > 0 {
        lemma_dedup_prefix(ts, t0, n - 1);
        assert(ts.push(t0).take(n - 1) =~= ts.take(n - 1));
        assert(ts.push(t0)[n - 1] == ts[n - 1]);
    }
}

pub proof fn lemma_dedup_contains(ts: Seq<Seq<char>>, n: int, t: Seq<char>)
    requires
        0 <= n <= ts.len(),
    ensures
        dedup_up_to(ts, n).contains(t) <==> ts.take(n).contains(t),
    decreases n,
{
    if n > 0 {
        lemma_dedup_contains(ts, n - 1, t);
        let pre = dedup_up_to(ts, n - 1);
        let dn = dedup_up_to(ts, n);
        if ts.take(n).contains(t) {
            let k = choose|k: int| 0 <= k < n && #[trigger] ts.take(n)[k] == t;
            if k < n - 1 {
                assert(ts.take(n - 1)[k] == t);
                assert(ts.take(n - 1).contains(t));
            } else {
                assert(t == ts[n - 1]);
            }
        }
        if ts.take(n - 1).contains(t) {
            let k = choose|k: int| 0 <= k < n - 1 && #[trigger] ts.take(n - 1)[k] == t;
            assert(ts.take(n)[k] == t);
            assert(ts.take(n).contains(t));
        }
        if ts.take(n - 1).contains(ts[n - 1]) {
            assert(dn == pre);
            assert(ts.take(n)[n - 1] == ts[n - 1]);
            assert(ts.take(n).contains(ts[n - 1]));
        } else {
            assert(dn == pre.push(ts[n - 1]));
            if dn.contains(t) {
                let k = choose|k: int| 0 <= k < dn.len() && #[trigger] dn[k] == t;
                if k < pre.len() {
                    assert(pre[k] == t);
                    assert(pre.contains(t));
                } else {
                    assert(t == ts[n - 1]);
                }
            }
            if pre.contains(t) {
                let k = choose|k: int| 0 <= k < pre.len() && #[trigger] pre[k] == t;
                assert(dn[k] == t);
                assert(dn.contains(t));
            }
            assert(dn[pre.len() as int] == ts[n - 1]);
            assert(dn.contains(ts[n - 1]));
            assert(ts.take(n)[n - 1] == ts[n - 1]);
            assert(ts.take(n).contains(ts[n - 1]));
        }
    }
}

proof fn lemma_dedup_distinct(ts: Seq<Seq<char>>, n: int)
    requires
        0 <= n <= ts.len(),
    ensures
        forall|i: int, j: int|
            0 <= i < j < dedup_up_to(ts, n).len() ==> dedup_up_to(ts, n)[i] != dedup_up_to(
                ts,
                n,
            )[j],
    decreases n,
{
    if n > 0 {
        lemma_dedup_distinct(ts, n - 1);
        let pre = dedup_up_to(ts, n - 1);
        if !ts.take(n - 1).contains(ts[n - 1]) {
            lemma_dedup_contains(ts, n - 1, ts[n - 1]);
            assert(!pre.contains(ts[n - 1]));
            assert forall|i: int, j: int|
                0 <= i < j < dedup_up_to(ts, n).len() implies dedup_up_to(ts, n)[i]
                != dedup_up_to(ts, n)[j] by {
                if j < pre.len() {
                } else {
                    assert(dedup_up_to(ts, n)[j] == ts[n - 1]);
                    assert(dedup_up_to(ts, n)[i] == pre[i]);
                    assert(pre.contains(pre[i]));
                }
            }
        }
    }
}

pub proof fn lemma_sum_count_bounds(pairs: Seq<(Seq<char>, u64)>, t: Seq<char>)
    ensures
        0 <= count_for(pairs, t) <= pairs.len(),
        0 <= sum_for(pairs, t) <= count_for(pairs, t) * (u64::MAX as int),
    decreases pairs.len(),
{
    if pairs.len() > 0 {
        lemma_sum_count_bounds(pairs.drop_last(), t);
        assert((count_for(pairs.drop_last(), t) + 1) * (u64::MAX as int) == count_for(
            pairs.drop_last(),
            t,
        ) * (u64::MAX as int) + (u64::MAX as int)) by (nonlinear_arith);
    }
}

pub proof fn lemma_contains_count(pairs: Seq<(Seq<char>, u64)>, t: Seq<char>)
    ensures
        texts_of(pairs).contains(t) <==> count_for(pairs, t) > 0,
    decreases pairs.len(),
{
    lemma_sum_count_bounds(pairs, t);
    if pairs.len() > 0 {
        lemma_contains_count(pairs.drop_last(), t);
        lemma_sum_count_bounds(pairs.drop_last(), t);
        assert(texts_of(pairs.drop_last()) =~= texts_of(pairs).drop_last());
        if pairs.last().0 == t {
            assert(texts_of(pairs)[pairs.len() - 1] == t);
        } else {
            if texts_of(pairs).contains(t) {
                let k = choose|k: int| 0 <= k < pairs.len() && #[trigger] texts_of(pairs)[k] == t;
                assert(k < pairs.len() - 1);
                assert(texts_of(pairs.drop_last())[k] == t);
            }
            if texts_of(pairs.drop_last()).contains(t) {
                let k = choose|k: int|
                    0 <= k < pairs.len() - 1 && #[trigger] texts_of(pairs.drop_last())[k] == t;
                assert(texts_of(pairs)[k] == t);
            }
        }
    }
}

/// How appending one pair changes the texts, sums, counts and groups.
proof fn lemma_group_step(ps: Seq<(Seq<char>, u64)>, p: (Seq<char>, u64))
    ensures
        texts_of(ps.push(p)) == texts_of(ps).push(p.0),
        forall|t: Seq<char>| #[trigger]
            sum_for(ps.push(p), t) == sum_for(ps, t) + (if p.0 == t {
                p.1 as int
            } else {
                0
            }),
        forall|t: Seq<char>| #[trigger]
            count_for(ps.push(p), t) == count_for(ps, t) + (if p.0 == t {
                1int
            } else {
                0
            }),
        dedup_up_to(texts_of(ps.push(p)), ps.len() as int + 1) == (if texts_of(ps).contains(p.0) {
            dedup_up_to(texts_of(ps), ps.len() as int)
        } else {
            dedup_up_to(texts_of(ps), ps.len() as int).push(p.0)
        }),
{
    assert(texts_of(ps.push(p)) =~= texts_of(ps).push(p.0));
    assert forall|t: Seq<char>| #[trigger]
        sum_for(ps.push(p), t) == sum_for(ps, t) + (if p.0 == t {
            p.1 as int
        } else {
            0
        }) by {
        assert(ps.push(p).drop_last() =~= ps);
    }
    assert forall|t: Seq<char>| #[trigger]
        count_for(ps.push(p), t) == count_for(ps, t) + (if p.0 == t {
            1int
        } else {
            0
        }) by {
        assert(ps.push(p).drop_last() =~= ps);
    }
    lemma_dedup_prefix(texts_of(ps), p.0, ps.len() as int);
    assert(texts_of(ps).push(p.0).take(ps.len() as int) =~= texts_of(ps));
    assert(texts_of(ps).push(p.0)[ps.len() as int] == p.0);
}

/// Collect every step of a run as one flat pair list.
pub(crate) fn flatten_steps(scenarios: &Vec<ScenarioResult>) -> (pairs: Vec<StepPair>)
    ensures
        pair_views(pairs@) == all_step_pairs(scenarios@),
{
    let ghost sc = scenarios@;
    let mut pairs: Vec<StepPair> = Vec::new();
    proof {
        assert(pair_views(pairs@) =~= all_step_pairs(sc.take(0)));
    }
    let n = scenarios.len();
    for i in 0..n
        invariant
            n == sc.len(),
            scenarios@ == sc,
            pair_views(pairs@) == all_step_pairs(sc.take(i as int)),
    {
        let m = scenarios[i].steps.len();
        proof {
            assert(pair_views(pairs@) =~= all_step_pairs(sc.take(i as int)) + scenario_pairs(
                sc[i as int].steps@.take(0),
            ));
        }
        for j in 0..m
            invariant
                n == sc.len(),
                i < n,
                scenarios@ == sc,
                m == sc[i as int].steps@.len(),
                pair_views(pairs@) == all_step_pairs(sc.take(i as int)) + scenario_pairs(
                    sc[i as int].steps@.take(j as int),
                ),
        {
            let st = &scenarios[i].steps[j];
            let ghost pp = pairs@;
            let item = StepPair { text: st.text.clone(), dur: st.duration_ms };
            proof {
                lemma_pair_views_push(pp, item);
                assert(scenario_pairs(sc[i as int].steps@.take(j + 1)) =~= scenario_pairs(
                    sc[i as int].steps@.take(j as int),
                ).push((st.text@, st.duration_ms)));
                lemma_add_push(
                    all_step_pairs(sc.take(i as int)),
                    scenario_pairs(sc[i as int].steps@.take(j as int)),
                    (st.text@, st.duration_ms),
                );
            }
            pairs.push(item);
            proof {
                assert(pair_views(pairs@) == all_step_pairs(sc.take(i as int))
                    + scenario_pairs(sc[i as int].steps@.take(j + 1)));
            }
        }
        proof {
            assert(sc[i as int].steps@.take(m as int) =~= sc[i as int].steps@);
            assert(sc.take(i + 1).drop_last() =~= sc.take(i as int));
            assert(sc.take(i + 1).last() == sc[i as int]);
            assert(pair_views(pairs@) =~~= all_step_pairs(sc.take(i + 1)));
        }
    }
    proof {
        assert(sc.take(n as int) =~= sc);
    }
    pairs
}

/// Scan for the group holding `text`.
fn find_group(groups: &Vec<StepGroup>, text: &String) -> (r: Option<usize>)
    ensures
        match r {
            Some(i) => i < groups@.len() && groups@[i as int].text@ == text@,
            None => forall|k: int| 0 <= k < groups@.len() ==> groups@[k].text@ != text@,
        },
{
    let ghost g = groups@;
    let n = groups.len();
    let mut i: usize = 0;
    while i < n
        invariant
            i <= n,
            n == g.len(),
            groups@ == g,
            forall|k: int| 0 <= k < i ==> g[k].text@ != text@,
        decreases n - i,
    {
        if groups[i].text == *text {
            return Some(i);
        }
        i = i + 1;
    }
    None
}

/// Group a pair list by exact step text, in first-occurrence order.
pub(crate) fn group_pairs(pairs: &Vec<StepPair>) -> (groups: Vec<StepGroup>)
    ensures
        group_views(groups@) == groups_of(pair_views(pairs@)),
{
    let ghost pv = pair_views(pairs@);
    let mut groups: Vec<StepGroup> = Vec::new();
    proof {
        assert(group_views(groups@) =~~= groups_of(pv.take(0)));
    }
    let n = pairs.len();
    for k in 0..n
        invariant
            n == pv.len(),
            pair_views(pairs@) == pv,
            n == pairs@.len(),
            group_views(groups@) == groups_of(pv.take(k as int)),
    {
        let ghost psk = pv.take(k as int);
        let ghost p = pv[k as int];
        proof {
            assert(pv.take(k + 1) =~= psk.push(p));
            lemma_group_step(psk, p);
            assert(texts_of(psk) =~= texts_of(pv.take(k as int)));
            lemma_dedup_distinct(texts_of(psk), psk.len() as int);
            lemma_sum_count_bounds(psk, p.0);
            assert(psk.len() <= pairs@.len());
        }
        let pr = &pairs[k];
        match find_group(&groups, &pr.text) {
            Some(gi) => {
                proof {
                    lemma_dedup_contains(texts_of(psk), psk.len() as int, p.0);
                    assert(texts_of(psk).take(psk.len() as int) =~= texts_of(psk));
                    assert(pv[k as int] == (pairs@[k as int].text@, pairs@[k as int].dur));
                    assert(p.0 == pairs@[k as int].text@);
                    assert(group_views(groups@)[gi as int] == groups_of(psk)[gi as int]);
                    assert(group_views(groups@)[gi as int].text == groups@[gi as int].text@);
                    // The found entry's text is in the dedup list, so the
                    // whole text list holds it.
                    let ghost dt = dedup_up_to(texts_of(psk), psk.len() as int);
                    assert(group_views(groups@).len() == groups@.len());
                    assert(groups_of(psk).len() == dt.len());
                    assert(gi < dt.len());
                    assert(groups_of(psk)[gi as int].text == dt[gi as int]);
                    assert(dt[gi as int] == p.0);
                    assert(dt.contains(p.0));
                    assert(texts_of(psk).contains(p.0));
                    lemma_sum_count_bounds(psk, dt[gi as int]);
                }
                let new_total = groups[gi].total + (pr.dur as u128);
                let new_count = groups[gi].count + 1;
                groups[gi].total = new_total;
                groups[gi].count = new_count;
                proof {
                    let dt = dedup_up_to(texts_of(psk), psk.len() as int);
                    assert(dedup_up_to(texts_of(psk.push(p)), psk.len() as int + 1) == dt);
                    assert(group_views(groups@).len() == dt.len());
                    assert(groups_of(psk.push(p)).len() == dt.len());
                    assert forall|ii: int| 0 <= ii < dt.len() implies group_views(groups@)[ii]
                        == groups_of(psk.push(p))[ii] by {
                        assert(groups_of(psk.push(p))[ii] == StepGroupModel {
                            text: dt[ii],
                            total: sum_for(psk.push(p), dt[ii]),
                            count: count_for(psk.push(p), dt[ii]),
                        });
                        assert(sum_for(psk.push(p), dt[ii]) == sum_for(psk, dt[ii]) + (
                        if p.0 == dt[ii] {
                            p.1 as int
                        } else {
                            0
                        }));
                        assert(count_for(psk.push(p), dt[ii]) == count_for(psk, dt[ii]) + (
                        if p.0 == dt[ii] {
                            1int
                        } else {
                            0
                        }));
                        if ii != gi {
                            if ii < gi {
                                assert(dt[ii] != dt[gi as int]);
                            } else {
                                assert(dt[gi as int] != dt[ii]);
                            }
                            assert(group_views(groups@)[ii] == groups_of(psk)[ii]);
                        } else {
                            assert(group_views(groups@)[ii].text == groups@[ii].text@);
                            assert(group_views(groups@)[ii].total == new_total as int);
                            assert(group_views(groups@)[ii].count == new_count as int);
                        }
                    }
                    assert(group_views(groups@) =~~= groups_of(psk.push(p)));
                    assert(group_views(groups@) == groups_of(pv.take(k + 1)));
                }
            },
            None => {
                proof {
                    lemma_dedup_contains(texts_of(psk), psk.len() as int, p.0);
                    assert(texts_of(psk).take(psk.len() as int) =~= texts_of(psk));
                    assert(pv[k as int] == (pairs@[k as int].text@, pairs@[k as int].dur));
                    assert(p.0 == pairs@[k as int].text@);
                    // No group holds this text, so the dedup list does not
                    // either, hence neither does the text list.
                    let ghost dt = dedup_up_to(texts_of(psk), psk.len() as int);
                    assert(!dt.contains(p.0)) by {
                        if dt.contains(p.0) {
                            let gk = choose|gk: int|
                                0 <= gk < dt.len() && #[trigger] dt[gk] == p.0;
                            assert(group_views(groups@).len() == groups@.len());
                            assert(groups_of(psk).len() == dt.len());
                            assert(group_views(groups@)[gk] == groups_of(psk)[gk]);
                            assert(groups_of(psk)[gk].text == dt[gk]);
                            assert(group_views(groups@)[gk].text == groups@[gk].text@);
                            assert(groups@[gk].text@ == p.0);
                        }
                    }
                    lemma_contains_count(psk, p.0);
                }
                let item = StepGroup { text: pr.text.clone(), total: pr.dur as u128, count: 1 };
                let ghost g0 = groups@;
                groups.push(item);
                proof {
                    let dt = dedup_up_to(texts_of(psk), psk.len() as int);
                    assert(dedup_up_to(texts_of(psk.push(p)), psk.len() as int + 1) == dt.push(
                        p.0,
                    ));
                    assert(groups@ == g0.push(item));
                    assert(group_views(g0) == groups_of(psk));
                    assert(group_views(g0).len() == g0.len());
                    assert(groups_of(psk).len() == dt.len());
                    assert(group_views(groups@).len() == groups@.len());
                    assert(group_views(groups@).len() == dt.len() + 1);
                    assert(groups_of(psk.push(p)).len() == dt.len() + 1);
                    assert forall|ii: int| 0 <= ii < dt.len() + 1 implies group_views(groups@)[ii]
                        == groups_of(psk.push(p))[ii] by {
                        assert(groups_of(psk.push(p))[ii] == StepGroupModel {
                            text: dt.push(p.0)[ii],
                            total: sum_for(psk.push(p), dt.push(p.0)[ii]),
                            count: count_for(psk.push(p), dt.push(p.0)[ii]),
                        });
                        assert(sum_for(psk.push(p), dt.push(p.0)[ii]) == sum_for(
                            psk,
                            dt.push(p.0)[ii],
                        ) + (if p.0 == dt.push(p.0)[ii] {
                            p.1 as int
                        } else {
                            0
                        }));
                        assert(count_for(psk.push(p), dt.push(p.0)[ii]) == count_for(
                            psk,
                            dt.push(p.0)[ii],
                        ) + (if p.0 == dt.push(p.0)[ii] {
                            1int
                        } else {
                            0
                        }));
                        if ii < dt.len() {
                            assert(dt.push(p.0)[ii] == dt[ii]);
                            assert(dt.contains(dt[ii]));
                            assert(dt[ii] != p.0);
                            assert(group_views(groups@)[ii] == group_views(g0)[ii]);
                            assert(group_views(g0)[ii] == groups_of(psk)[ii]);
                        } else {
                            assert(dt.push(p.0)[ii] == p.0);
                            assert(count_for(psk, p.0) == 0);
                            assert(sum_for(psk, p.0) == 0);
                            assert(group_views(groups@)[ii] == StepGroupModel {
                                text: item.text@,
                                total: item.total as int,
                                count: item.count as int,
                            });
                        }
                    }
                    assert(group_views(groups@) =~~= groups_of(psk.push(p)));
                    assert(group_views(groups@) == groups_of(pv.take(k + 1)));
                }
            },
        }
    }
    proof {
        assert(pv.take(n as int) =~= pv);
    }
    groups
}

// ---------------------------------------------------------------------
// Step-level thresholds.  All conditions are exact comparisons of the
// mean durations `bs/bc` (baseline) and `cs/cc` (current).

/// The current mean strictly exceeds the baseline mean.
pub open spec fn step_is_reg(bs: int, bc: int, cs: int, cc: int) -> bool {
    cs * bc > bs * cc
}

/// The relative change of the mean exceeds 5% in either direction.
pub open spec fn step_significant(bs: int, bc: int, cs: int, cc: int) -> bool {
    cs * (100 * bc) > bs * (105 * cc) || cs * (100 * bc) < bs * (95 * cc)
}

/// The mean grew by more than 10%: reported as a formal regression.
pub open spec fn step_promoted_reg(bs: int, bc: int, cs: int, cc: int) -> bool {
    cs * (100 * bc) > bs * (110 * cc)
}

/// The mean grew by more than 50%: `High` severity, else `Medium`.
pub open spec fn step_reg_high(bs: int, bc: int, cs: int, cc: int) -> bool {
    cs * (100 * bc) > bs * (150 * cc)
}

/// The mean shrank by more than 10%: reported as a formal improvement.
pub open spec fn step_promoted_imp(bs: int, bc: int, cs: int, cc: int) -> bool {
    cs * (100 * bc) < bs * (90 * cc)
}

/// Floor of `hs/hc - ls/lc`, the first average at least the second.
pub open spec fn spec_avg_diff_floor(hs: int, hc: int, ls: int, lc: int) -> int {
    (hs * lc - ls * hc) / (hc * lc)
}

/// Whole-millisecond difference of two mean durations, rounded down.
fn avg_diff_floor(hs: u128, hc: usize, ls: u128, lc: usize) -> (d: u64)
    requires
        1 <= hc,
        1 <= lc,
        hs <= hc * (u64::MAX as int),
        (ls as int) * (hc as int) <= (hs as int) * (lc as int),
    ensures
        d == spec_avg_diff_floor(hs as int, hc as int, ls as int, lc as int),
{
    let hcw = hc as u128;
    let lcw = lc as u128;
    let q1 = hs / hcw;
    let r1 = hs % hcw;
    let q2 = ls / lcw;
    let r2 = ls % lcw;
    proof {
        lemma_fundamental_div_mod(hs as int, hcw as int);
        lemma_fundamental_div_mod(ls as int, lcw as int);
        assert(hs as int == (hc as int) * (q1 as int) + (r1 as int));
        assert(ls as int == (lc as int) * (q2 as int) + (r2 as int));
        if q1 < q2 {
            lemma_quot_lt(
                hs as int,
                hc as int,
                ls as int,
                lc as int,
                q1 as int,
                r1 as int,
                q2 as int,
                r2 as int,
            );
            assert(false);
        }
        assert(q1 <= u64::MAX) by {
            if q1 > u64::MAX {
                assert((hc as int) * (q1 as int) > (hc as int) * (u64::MAX as int))
                    by (nonlinear_arith)
                    requires
                        q1 as int > u64::MAX as int,
                        1 <= hc as int,
                ;
            }
        }
        assert((r1 as int) * (lcw as int) <= (u64::MAX as int) * (u64::MAX as int))
            by (nonlinear_arith)
            requires
                0 <= (r1 as int) <= u64::MAX as int,
                0 <= (lcw as int) <= u64::MAX as int,
        ;
        assert((r2 as int) * (hcw as int) <= (u64::MAX as int) * (u64::MAX as int))
            by (nonlinear_arith)
            requires
                0 <= (r2 as int) <= u64::MAX as int,
                0 <= (hcw as int) <= u64::MAX as int,
        ;
    }
    let c1 = r1 * lcw;
    let c2 = r2 * hcw;
    proof {
        assert(0 < (hc as int) * (lc as int)) by (nonlinear_arith)
            requires
                1 <= hc as int,
                1 <= lc as int,
        ;
        assert((c1 as int) < (hc as int) * (lc as int)) by (nonlinear_arith)
            requires
                c1 as int == (r1 as int) * (lc as int),
                0 <= (r1 as int),
                (r1 as int) < (hc as int),
                1 <= lc as int,
        ;
        assert((c2 as int) < (hc as int) * (lc as int)) by (nonlinear_arith)
            requires
                c2 as int == (r2 as int) * (hc as int),
                0 <= (r2 as int),
                (r2 as int) < (lc as int),
                1 <= hc as int,
        ;
        assert((hs as int) * (lc as int) - (ls as int) * (hc as int) == ((q1 as int) - (
        q2 as int)) * ((hc as int) * (lc as int)) + ((c1 as int) - (c2 as int)))
            by (nonlinear_arith)
            requires
                hs as int == (hc as int) * (q1 as int) + (r1 as int),
                ls as int == (lc as int) * (q2 as int) + (r2 as int),
                c1 as int == (r1 as int) * (lc as int),
                c2 as int == (r2 as int) * (hc as int),
        ;
    }
    if c1 >= c2 {
        proof {
            lemma_fundamental_div_mod_converse(
                (hs as int) * (lc as int) - (ls as int) * (hc as int),
                (hc as int) * (lc as int),
                (q1 as int) - (q2 as int),
                (c1 as int) - (c2 as int),
            );
        }
        (q1 - q2) as u64
    } else {
        proof {
            if q1 == q2 {
                lemma_quot_eq(
                    hs as int,
                    hc as int,
                    ls as int,
                    lc as int,
                    q1 as int,
                    r1 as int,
                    r2 as int,
                );
                assert(false);
            }
            assert(((q1 as int) - (q2 as int) - 1) * ((hc as int) * (lc as int)) == ((
            q1 as int) - (q2 as int)) * ((hc as int) * (lc as int)) - ((hc as int) * (
            lc as int))) by (nonlinear_arith);
            lemma_fundamental_div_mod_converse(
                (hs as int) * (lc as int) - (ls as int) * (hc as int),
                (hc as int) * (lc as int),
                (q1 as int) - (q2 as int) - 1,
                (hc as int) * (lc as int) + (c1 as int) - (c2 as int),
            );
        }
        (q1 - q2 - 1) as u64
    }
}

pub open spec fn spec_desc_step_regressed(t: Seq<char>, d: int) -> Seq<char> {
    "Step '"@ + t + "' mean duration regressed by "@ + spec_digits(d) + "ms"@
}

pub open spec fn spec_desc_step_improved(t: Seq<char>, d: int) -> Seq<char> {
    "Step '"@ + t + "' mean duration improved by "@ + spec_digits(d) + "ms"@
}

fn desc_step_regressed(text: &String, d: u64) -> (s: String)
    ensures
        s@ == spec_desc_step_regressed(text@, d as int),
{
    let mut s = String::from_str("Step '");
    s.append(text.as_str());
    s.append("' mean duration regressed by ");
    let amount = u64_to_string(d);
    s.append(amount.as_str());
    s.append("ms");
    proof {
        assert(s@ =~= spec_desc_step_regressed(text@, d as int));
    }
    s
}

fn desc_step_improved(text: &String, d: u64) -> (s: String)
    ensures
        s@ == spec_desc_step_improved(text@, d as int),
{
    let mut s = String::from_str("Step '");
    s.append(text.as_str());
    s.append("' mean duration improved by ");
    let amount = u64_to_string(d);
    s.append(amount.as_str());
    s.append("ms");
    proof {
        assert(s@ =~= spec_desc_step_improved(text@, d as int));
    }
    s
}

/// The aggregated change record for the `n`-th distinct baseline text.
pub open spec fn spec_step_model(t: Seq<char>, bs: int, bc: int, cs: int, cc: int)
    -> StepChangeModel {
    StepChangeModel {
        text: t,
        baseline_avg: Rational { neg: false, num: bs as u128, den: bc as u128 },
        current_avg: Rational { neg: false, num: cs as u128, den: cc as u128 },
        is_regression: step_is_reg(bs, bc, cs, cc),
        occurrences: cc as nat,
    }
}

/// Step change records for the first `n` distinct baseline texts.
pub open spec fn spec_step_changes_up_to(
    bp: Seq<(Seq<char>, u64)>,
    cp: Seq<(Seq<char>, u64)>,
    n: int,
) -> Seq<StepChangeModel>
    decreases n,
{
    if n <= 0 {
        Seq::empty()
    } else {
        let pre = spec_step_changes_up_to(bp, cp, n - 1);
        let t = dedup_up_to(texts_of(bp), bp.len() as int)[n - 1];
        let bs = sum_for(bp, t);
        let bc = count_for(bp, t);
        let cs = sum_for(cp, t);
        let cc = count_for(cp, t);
        if cc > 0 && step_significant(bs, bc, cs, cc) {
            pre.push(spec_step_model(t, bs, bc, cs, cc))
        } else {
            pre
        }
    }
}

/// Step regressions for the first `n` distinct baseline texts.
pub open spec fn spec_step_regs_up_to(
    bp: Seq<(Seq<char>, u64)>,
    cp: Seq<(Seq<char>, u64)>,
    n: int,
) -> Seq<RegressionModel>
    decreases n,
{
    if n <= 0 {
        Seq::empty()
    } else {
        let pre = spec_step_regs_up_to(bp, cp, n - 1);
        let t = dedup_up_to(texts_of(bp), bp.len() as int)[n - 1];
        let bs = sum_for(bp, t);
        let bc = count_for(bp, t);
        let cs = sum_for(cp, t);
        let cc = count_for(cp, t);
        if cc > 0 && step_significant(bs, bc, cs, cc) && step_is_reg(bs, bc, cs, cc)
            && step_promoted_reg(bs, bc, cs, cc) {
            pre.push(
                RegressionModel {
                    desc: spec_desc_step_regressed(t, spec_avg_diff_floor(cs, cc, bs, bc)),
                    severity: if step_reg_high(bs, bc, cs, cc) {
                        Severity::High
                    } else {
                        Severity::Medium
                    },
                    scenario: None,
                    step: Some(t),
                    impact: spec_avg_diff_floor(cs, cc, bs, bc) as u64,
                    unit: "ms"@,
                },
            )
        } else {
            pre
        }
    }
}

/// Step improvements for the first `n` distinct baseline texts.
pub open spec fn spec_step_imps_up_to(
    bp: Seq<(Seq<char>, u64)>,
    cp: Seq<(Seq<char>, u64)>,
    n: int,
) -> Seq<ImprovementModel>
    decreases n,
{
    if n <= 0 {
        Seq::empty()
    } else {
        let pre = spec_step_imps_up_to(bp, cp, n - 1);
        let t = dedup_up_to(texts_of(bp), bp.len() as int)[n - 1];
        let bs = sum_for(bp, t);
        let bc = count_for(bp, t);
        let cs = sum_for(cp, t);
        let cc = count_for(cp, t);
        if cc > 0 && step_significant(bs, bc, cs, cc) && !step_is_reg(bs, bc, cs, cc)
            && step_promoted_imp(bs, bc, cs, cc) {
            pre.push(
                ImprovementModel {
                    desc: spec_desc_step_improved(t, spec_avg_diff_floor(bs, bc, cs, cc)),
                    scenario: None,
                    step: Some(t),
                    value: spec_avg_diff_floor(bs, bc, cs, cc) as u64,
                    unit: "ms"@,
                },
            )
        } else {
            pre
        }
    }
}

pub open spec fn spec_dedup_len(bp: Seq<(Seq<char>, u64)>) -> int {
    dedup_up_to(texts_of(bp), bp.len() as int).len() as int
}

/// Compare mean step durations between the two runs, appending promoted
/// regressions and improvements to the given lists.
fn step_performance_analysis(
    baseline: &ExecutionResult,
    current: &ExecutionResult,
    regressions: &mut Vec<RegressionItem>,
    improvements: &mut Vec<ImprovementItem>,
) -> (changes: Vec<StepPerformanceChange>)
    ensures
        step_views(changes@) == spec_step_changes_up_to(
            all_step_pairs(baseline.scenarios@),
            all_step_pairs(current.scenarios@),
            spec_dedup_len(all_step_pairs(baseline.scenarios@)),
        ),
        reg_views(final(regressions)@) == reg_views(old(regressions)@) + spec_step_regs_up_to(
            all_step_pairs(baseline.scenarios@),
            all_step_pairs(current.scenarios@),
            spec_dedup_len(all_step_pairs(baseline.scenarios@)),
        ),
        imp_views(final(improvements)@) == imp_views(old(improvements)@) + spec_step_imps_up_to(
            all_step_pairs(baseline.scenarios@),
            all_step_pairs(current.scenarios@),
            spec_dedup_len(all_step_pairs(baseline.scenarios@)),
        ),
{
    let bpairs = flatten_steps(&baseline.scenarios);
    let cpairs = flatten_steps(&current.scenarios);
    let ghost bp = all_step_pairs(baseline.scenarios@);
    let ghost cp = all_step_pairs(current.scenarios@);
    let bgroups = group_pairs(&bpairs);
    let cgroups = group_pairs(&cpairs);
    let ghost dt = dedup_up_to(texts_of(bp), bp.len() as int);
    let ghost reg0 = regressions@;
    let ghost imp0 = improvements@;
    let mut changes: Vec<StepPerformanceChange> = Vec::new();
    proof {
        assert(step_views(changes@) =~= spec_step_changes_up_to(bp, cp, 0));
        assert(reg_views(regressions@) =~= reg_views(reg0) + spec_step_regs_up_to(bp, cp, 0));
        assert(imp_views(improvements@) =~= imp_views(imp0) + spec_step_imps_up_to(bp, cp, 0));
        assert(group_views(bgroups@).len() == bgroups@.len());
        assert(group_views(cgroups@).len() == cgroups@.len());
    }
    let n = bgroups.len();
    for k in 0..n
        invariant
            n == bgroups@.len(),
            group_views(bgroups@) == groups_of(bp),
            group_views(cgroups@) == groups_of(cp),
            n == dt.len(),
            dt == dedup_up_to(texts_of(bp), bp.len() as int),
            bp == all_step_pairs(baseline.scenarios@),
            cp == all_step_pairs(current.scenarios@),
            step_views(changes@) == spec_step_changes_up_to(bp, cp, k as int),
            reg_views(regressions@) == reg_views(reg0) + spec_step_regs_up_to(bp, cp, k as int),
            imp_views(improvements@) == imp_views(imp0) + spec_step_imps_up_to(
                bp,
                cp,
                k as int,
            ),
    {
        let g = &bgroups[k];
        let ghost t = dt[k as int];
        proof {
            assert(group_views(bgroups@)[k as int] == groups_of(bp)[k as int]);
            assert(groups_of(bp)[k as int] == StepGroupModel {
                text: dt[k as int],
                total: sum_for(bp, dt[k as int]),
                count: count_for(bp, dt[k as int]),
            });
            assert(g.text@ == t);
            assert(g.total as int == sum_for(bp, t));
            assert(g.count as int == count_for(bp, t));
            lemma_sum_count_bounds(bp, t);
            lemma_dedup_contains(texts_of(bp), bp.len() as int, t);
            assert(dt.contains(t));
            assert(texts_of(bp).take(bp.len() as int) =~= texts_of(bp));
            lemma_contains_count(bp, t);
            assert(count_for(bp, t) > 0);
        }
        match find_group(&cgroups, &g.text) {
            Some(gi) => {
                proof {
                    assert(group_views(cgroups@)[gi as int] == groups_of(cp)[gi as int]);
                    let dtc = dedup_up_to(texts_of(cp), cp.len() as int);
                    assert(group_views(cgroups@).len() == cgroups@.len());
                    assert(groups_of(cp).len() == dtc.len());
                    assert(gi < dtc.len());
                    assert(group_views(cgroups@)[gi as int].text == cgroups@[gi as int].text@);
                    assert(groups_of(cp)[gi as int] == StepGroupModel {
                        text: dtc[gi as int],
                        total: sum_for(cp, dtc[gi as int]),
                        count: count_for(cp, dtc[gi as int]),
                    });
                    assert(cgroups@[gi as int].text@ == t);
                    assert(dtc[gi as int] == t);
                    assert(cgroups@[gi as int].total as int == sum_for(cp, t));
                    assert(cgroups@[gi as int].count as int == count_for(cp, t));
                    lemma_sum_count_bounds(cp, t);
                    lemma_dedup_contains(texts_of(cp), cp.len() as int, t);
                    assert(dtc.contains(t));
                    assert(texts_of(cp).take(cp.len() as int) =~= texts_of(cp));
                    lemma_contains_count(cp, t);
                    assert(count_for(cp, t) > 0);
                }
                let cg = &cgroups[gi];
                let bs = g.total;
                let bc = g.count;
                let cs = cg.total;
                let cc = cg.count;
                let up = ratio_cmp(cs, 105 * (cc as u128), bs, 100 * (bc as u128));
                let down = ratio_cmp(cs, 95 * (cc as u128), bs, 100 * (bc as u128));
                let significant = up == 1 || down == -1;
                let is_reg = ratio_cmp(cs, cc as u128, bs, bc as u128) == 1;
                if significant {
                    let ghost ch0 = changes@;
                    let item = StepPerformanceChange {
                        step_text: g.text.clone(),
                        baseline_avg_ms: Rational {
                            neg: false,
                            num: bs,
                            den: bc as u128,
                        },
                        current_avg_ms: Rational {
                            neg: false,
                            num: cs,
                            den: cc as u128,
                        },
                        is_regression: is_reg,
                        occurrence_count: cc,
                    };
                    proof {
                        lemma_step_views_push(ch0, item);
                        assert(item@ =~~= spec_step_model(
                            t,
                            sum_for(bp, t),
                            count_for(bp, t),
                            sum_for(cp, t),
                            count_for(cp, t),
                        ));
                    }
                    changes.push(item);
                    if is_reg {
                        let promoted = ratio_cmp(cs, 110 * (cc as u128), bs, 100 * (bc as u128))
                            == 1;
                        if promoted {
                            proof {
                                assert((bs as int) * (cc as int) <= (cs as int) * (bc as int))
                                    by (nonlinear_arith)
                                    requires
                                        (cs as int) * (100 * (bc as int)) > (bs as int) * (110 * (
                                        cc as int)),
                                        0 <= bs as int,
                                        0 <= cc as int,
                                        0 <= cs as int,
                                        0 <= bc as int,
                                ;
                            }
                            let high = ratio_cmp(cs, 150 * (cc as u128), bs, 100 * (bc as u128))
                                == 1;
                            let d = avg_diff_floor(cs, cc, bs, bc);
                            let ghost rg0 = regressions@;
                            let item = RegressionItem {
                                description: desc_step_regressed(&g.text, d),
                                severity: if high {
                                    Severity::High
                                } else {
                                    Severity::Medium
                                },
                                scenario_name: None,
                                step_text: Some(g.text.clone()),
                                impact_value: d,
                                impact_unit: String::from_str("ms"),
                            };
                            proof {
                                lemma_reg_views_push(rg0, item);
                                assert(item@ =~~= spec_step_regs_up_to(bp, cp, k + 1).last());
                                lemma_add_push(
                                    reg_views(reg0),
                                    spec_step_regs_up_to(bp, cp, k as int),
                                    item@,
                                );
                            }
                            regressions.push(item);
                        }
                    } else {
                        let promoted = ratio_cmp(cs, 90 * (cc as u128), bs, 100 * (bc as u128))
                            == -1;
                        if promoted {
                            let d = avg_diff_floor(bs, bc, cs, cc);
                            let ghost im0 = improvements@;
                            let item = ImprovementItem {
                                description: desc_step_improved(&g.text, d),
                                scenario_name: None,
                                step_text: Some(g.text.clone()),
                                improvement_value: d,
                                improvement_unit: String::from_str("ms"),
                            };
                            proof {
                                lemma_imp_views_push(im0, item);
                                assert(item@ =~~= spec_step_imps_up_to(bp, cp, k + 1).last());
                                lemma_add_push(
                                    imp_views(imp0),
                                    spec_step_imps_up_to(bp, cp, k as int),
                                    item@,
                                );
                            }
                            improvements.push(item);
                        }
                    }
                }
            },
            None => {
                proof {
                    let dtc = dedup_up_to(texts_of(cp), cp.len() as int);
                    assert(!dtc.contains(t)) by {
                        if dtc.contains(t) {
                            let gk = choose|gk: int|
                                0 <= gk < dtc.len() && #[trigger] dtc[gk] == t;
                            assert(group_views(cgroups@).len() == cgroups@.len());
                            assert(groups_of(cp).len() == dtc.len());
                            assert(group_views(cgroups@)[gk] == groups_of(cp)[gk]);
                            assert(groups_of(cp)[gk].text == dtc[gk]);
                            assert(group_views(cgroups@)[gk].text == cgroups@[gk].text@);
                            assert(cgroups@[gk].text@ == t);
                        }
                    }
                    lemma_dedup_contains(texts_of(cp), cp.len() as int, t);
                    assert(texts_of(cp).take(cp.len() as int) =~= texts_of(cp));
                    lemma_contains_count(cp, t);
                    lemma_sum_count_bounds(cp, t);
                    assert(count_for(cp, t) == 0);
                }
            },
        }
        proof {
            assert(step_views(changes@) =~~= spec_step_changes_up_to(bp, cp, k + 1));
            assert(reg_views(regressions@) =~~= reg_views(reg0) + spec_step_regs_up_to(
                bp,
                cp,
                k + 1,
            ));
            assert(imp_views(improvements@) =~~= imp_views(imp0) + spec_step_imps_up_to(
                bp,
                cp,
                k + 1,
            ));
        }
    }
    changes
}

// ---------------------------------------------------------------------
// Assembly.

/// Ghost image of a whole comparison.
#[verifier::ext_equal]
pub struct ComparisonModel {
    pub status: ComparisonStatus,
    pub baseline_timestamp: Seq<char>,
    pub current_timestamp: Seq<char>,
    pub metrics: MetricsDifference,
    pub scenario_changes: Seq<ScenarioChangeModel>,
    pub step_changes: Seq<StepChangeModel>,
    pub regressions: Seq<RegressionModel>,
    pub improvements: Seq<ImprovementModel>,
}

/// Every regression of a comparison: scenario-level ones first, in
/// baseline order, followed by step-level ones in first-occurrence order.
pub open spec fn spec_regressions(b: ExecutionResult, c: ExecutionResult) -> Seq<
    RegressionModel,
> {
    spec_scn_regs_up_to(b.scenarios@, c.scenarios@, b.scenarios@.len() as int)
        + spec_step_regs_up_to(
        all_step_pairs(b.scenarios@),
        all_step_pairs(c.scenarios@),
        spec_dedup_len(all_step_pairs(b.scenarios@)),
    )
}

/// Every improvement of a comparison, in the same order.
pub open spec fn spec_improvements(b: ExecutionResult, c: ExecutionResult) -> Seq<
    ImprovementModel,
> {
    spec_scn_imps_up_to(b.scenarios@, c.scenarios@, b.scenarios@.len() as int)
        + spec_step_imps_up_to(
        all_step_pairs(b.scenarios@),
        all_step_pairs(c.scenarios@),
        spec_dedup_len(all_step_pairs(b.scenarios@)),
    )
}

/// Regression beats improvement beats unchanged: a run with any
/// regression is reported as a regression, whatever else it contains.
pub open spec fn spec_overall_status(b: ExecutionResult, c: ExecutionResult) -> ComparisonStatus {
    if spec_regressions(b, c).len() > 0 {
        ComparisonStatus::Regression
    } else if spec_improvements(b, c).len() > 0 {
        ComparisonStatus::Improvement
    } else {
        ComparisonStatus::Unchanged
    }
}

/// The full comparison of a baseline run against a current run.
pub open spec fn spec_compare(b: ExecutionResult, c: ExecutionResult) -> ComparisonModel {
    ComparisonModel {
        status: spec_overall_status(b, c),
        baseline_timestamp: b.timestamp@,
        current_timestamp: c.timestamp@,
        metrics: spec_metrics_diff(b, c),
        scenario_changes: spec_scn_changes_up_to(
            b.scenarios@,
            c.scenarios@,
            b.scenarios@.len() as int,
        ) + spec_new_changes_up_to(b.scenarios@, c.scenarios@, c.scenarios@.len() as int),
        step_changes: spec_step_changes_up_to(
            all_step_pairs(b.scenarios@),
            all_step_pairs(c.scenarios@),
            spec_dedup_len(all_step_pairs(b.scenarios@)),
        ),
        regressions: spec_regressions(b, c),
        improvements: spec_improvements(b, c),
    }
}

impl View for ComparisonResult {
    type V = ComparisonModel;

    open spec fn view(&self) -> ComparisonModel {
        ComparisonModel {
            status: self.status,
            baseline_timestamp: self.summary.baseline_timestamp@,
            current_timestamp: self.summary.current_timestamp@,
            metrics: self.metrics_diff,
            scenario_changes: change_views(self.scenario_changes@),
            step_changes: step_views(self.step_performance_changes@),
            regressions: reg_views(self.regressions@),
            improvements: imp_views(self.improvements@),
        }
    }
}

/// Compare two execution results.  The outcome is a pure function of the
/// two result trees: every change record, every regression and every
/// improvement is pinned by `spec_compare`, and the summary counters
/// count the produced lists.
pub fn compare_results(baseline: &ExecutionResult, current: &ExecutionResult) -> (r:
    ComparisonResult)
    ensures
        r@ == spec_compare(*baseline, *current),
        r.summary.scenario_changes_count == r.scenario_changes@.len(),
        r.summary.step_changes_count == r.step_performance_changes@.len(),
        r.summary.regression_count == r.regressions@.len(),
        r.summary.improvement_count == r.improvements@.len(),
{
    let metrics_diff = calculate_metrics_diff(baseline, current);
    let (scenario_changes, mut regressions, mut improvements) = scenario_analysis(
        baseline,
        current,
    );
    let step_performance_changes = step_performance_analysis(
        baseline,
        current,
        &mut regressions,
        &mut improvements,
    );
    let status = if regressions.len() > 0 {
        ComparisonStatus::Regression
    } else if improvements.len() > 0 {
        ComparisonStatus::Improvement
    } else {
        ComparisonStatus::Unchanged
    };
    proof {
        assert(reg_views(regressions@).len() == regressions@.len());
        assert(imp_views(improvements@).len() == improvements@.len());
        assert(reg_views(regressions@) == spec_regressions(*baseline, *current));
        assert(imp_views(improvements@) == spec_improvements(*baseline, *current));
    }
    let summary = ComparisonSummary {
        baseline_timestamp: baseline.timestamp.clone(),
        current_timestamp: current.timestamp.clone(),
        scenario_changes_count: scenario_changes.len(),
        step_changes_count: step_performance_changes.len(),
        regression_count: regressions.len(),
        improvement_count: improvements.len(),
    };
    let r = ComparisonResult {
        status,
        summary,
        metrics_diff,
        scenario_changes,
        step_performance_changes,
        regressions,
        improvements,
    };
    proof {
        assert(r@ =~~= spec_compare(*baseline, *current));
    }
    r
}

// ---------------------------------------------------------------------
// Laws of the comparison engine.

proof fn lemma_scn_self_empty(sc: Seq<ScenarioResult>, n: int)
    requires
        0 <= n <= sc.len(),
    ensures
        spec_scn_regs_up_to(sc, sc, n).len() == 0,
        spec_scn_imps_up_to(sc, sc, n).len() == 0,
        forall|j: int|
            0 <= j < spec_scn_changes_up_to(sc, sc, n).len() ==> (#[trigger] spec_scn_changes_up_to(
                sc,
                sc,
                n,
            )[j]).kind == ChangeType::Unchanged,
    decreases n,
{
    if n > 0 {
        lemma_scn_self_empty(sc, n - 1);
        if is_last_occurrence(sc, n - 1) {
            lemma_last_index_char(sc, n - 1);
            assert(last_index_of(sc, sc[n - 1].name@) == n - 1);
            assert(contains_name(sc, sc[n - 1].name@));
            assert(spec_pair_regs(sc[n - 1], sc[n - 1]) =~= Seq::<RegressionModel>::empty());
            assert(spec_pair_imps(sc[n - 1], sc[n - 1]) =~= Seq::<ImprovementModel>::empty());
            assert(spec_pair_change(sc[n - 1], sc[n - 1]).kind == ChangeType::Unchanged);
        }
    }
}

proof fn lemma_step_self_empty(bp: Seq<(Seq<char>, u64)>, n: int)
    requires
        0 <= n <= spec_dedup_len(bp),
    ensures
        spec_step_regs_up_to(bp, bp, n).len() == 0,
        spec_step_imps_up_to(bp, bp, n).len() == 0,
        spec_step_changes_up_to(bp, bp, n).len() == 0,
    decreases n,
{
    if n > 0 {
        lemma_step_self_empty(bp, n - 1);
        let t = dedup_up_to(texts_of(bp), bp.len() as int)[n - 1];
        let su = sum_for(bp, t);
        let ct = count_for(bp, t);
        lemma_sum_count_bounds(bp, t);
        assert(!step_significant(su, ct, su, ct)) by (nonlinear_arith)
            requires
                0 <= su,
                0 <= ct,
        ;
    }
}

/// Determinism: comparing a run with itself reports no change at all.
/// The status is `Unchanged`, and there is not one regression, not one
/// improvement and not one step performance change; every scenario
/// change record is of kind `Unchanged`.
pub proof fn lemma_compare_self(x: ExecutionResult)
    ensures
        spec_compare(x, x).status == ComparisonStatus::Unchanged,
        spec_compare(x, x).regressions.len() == 0,
        spec_compare(x, x).improvements.len() == 0,
        spec_compare(x, x).step_changes.len() == 0,
        forall|j: int|
            0 <= j < spec_compare(x, x).scenario_changes.len() ==> (#[trigger] spec_compare(
                x,
                x,
            ).scenario_changes[j]).kind == ChangeType::Unchanged,
{
    lemma_scn_self_empty(x.scenarios@, x.scenarios@.len() as int);
    lemma_step_self_empty(all_step_pairs(x.scenarios@), spec_dedup_len(all_step_pairs(
        x.scenarios@,
    )));
    lemma_new_self_empty(x.scenarios@, x.scenarios@.len() as int);
}

proof fn lemma_new_self_empty(sc: Seq<ScenarioResult>, n: int)
    requires
        0 <= n <= sc.len(),
    ensures
        spec_new_changes_up_to(sc, sc, n).len() == 0,
    decreases n,
{
    if n > 0 {
        lemma_new_self_empty(sc, n - 1);
        if is_last_occurrence(sc, n - 1) {
            lemma_last_index_char(sc, n - 1);
        }
    }
}

/// Regression precedence: whenever a comparison finds any regression,
/// its overall status is `Regression`, whatever improvements it also
/// found.
pub proof fn lemma_regression_precedence(b: ExecutionResult, c: ExecutionResult)
    ensures
        spec_compare(b, c).regressions.len() > 0 ==> spec_compare(b, c).status
            == ComparisonStatus::Regression,
{
}

} // verus!
