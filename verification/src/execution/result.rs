//! The result model: Feature -> Scenario -> Step, with rollup summary
//! counters.  Results are produced once per feature run and read-only for
//! every downstream consumer.
//!
//! Step statuses are set by the executing caller; a scenario's status is
//! derived from its steps; the run's status is derived from the summary.
//! A `Pending` item counts toward the `skipped` column of the summary, so
//! that every counted item falls in exactly one column and the rollup
//! identity `total == passed + failed + skipped` holds at both levels.

use vstd::prelude::*;

verus! {

/// Outcome of a step, scenario or whole run.
#[derive(Clone, Copy, PartialEq, Eq, Debug, Structural)]
pub enum Status {
    Pending,
    Passed,
    Failed,
    Skipped,
}

impl Status {
    pub open spec fn spec_label(self) -> Seq<char> {
        match self {
            Status::Pending => "pending"@,
            Status::Passed => "passed"@,
            Status::Failed => "failed"@,
            Status::Skipped => "skipped"@,
        }
    }

    /// The lower-case word used for this status in reports.
    pub fn label(&self) -> (s: &'static str)
        ensures
            s@ == self.spec_label(),
    {
        match self {
            Status::Pending => "pending",
            Status::Passed => "passed",
            Status::Failed => "failed",
            Status::Skipped => "skipped",
        }
    }
}

/// True when an item of status `s` is counted in the summary column `c`.
/// `Pending` items are reported under `Skipped`.
pub open spec fn counted_as(s: Status, c: Status) -> bool {
    s == c || (c == Status::Skipped && s == Status::Pending)
}

#[derive(Clone, Debug)]
pub struct ErrorInfo {
    pub code: String,
    pub message: String,
    pub suggestions: Vec<String>,
}

impl ErrorInfo {
    pub fn new(code: String, message: String) -> (r: ErrorInfo)
        ensures
            r.code == code,
            r.message == message,
            r.suggestions@ =~= Seq::<String>::empty(),
    {
        ErrorInfo { code, message, suggestions: Vec::new() }
    }

    pub fn with_suggestion(self, suggestion: String) -> (r: ErrorInfo)
        ensures
            r.code == self.code,
            r.message == self.message,
            r.suggestions@ =~= self.suggestions@.push(suggestion),
    {
        let mut e = self;
        e.suggestions.push(suggestion);
        e
    }
}

/// Leaf unit of the result tree; immutable once recorded.
#[derive(Clone, Debug)]
pub struct StepResult {
    pub text: String,
    pub keyword: String,
    pub status: Status,
    pub duration_ms: u64,
    pub output: Option<String>,
    pub error: Option<ErrorInfo>,
}

impl StepResult {
    pub fn new(text: String, keyword: String) -> (r: StepResult)
        ensures
            r.text == text,
            r.keyword == keyword,
            r.status == Status::Pending,
            r.duration_ms == 0,
            r.output is None,
            r.error is None,
    {
        StepResult {
            text,
            keyword,
            status: Status::Pending,
            duration_ms: 0,
            output: None,
            error: None,
        }
    }

    pub fn with_status(self, status: Status) -> (r: StepResult)
        ensures
            r == (StepResult { status, ..self }),
    {
        StepResult { status, ..self }
    }

    pub fn with_output(self, output: String) -> (r: StepResult)
        ensures
            r == (StepResult { output: Some(output), ..self }),
    {
        StepResult { output: Some(output), ..self }
    }

    pub fn with_error(self, error: ErrorInfo) -> (r: StepResult)
        ensures
            r == (StepResult { error: Some(error), ..self }),
    {
        StepResult { error: Some(error), ..self }
    }
}

/// An ordered sequence of steps exercising one behaviour.
#[derive(Clone, Debug)]
pub struct ScenarioResult {
    pub name: String,
    pub status: Status,
    pub duration_ms: u64,
    pub steps: Vec<StepResult>,
}

/// The status a scenario derives from its steps: `Failed` if any step
/// failed; else `Skipped` if every step was skipped (so also when there is
/// no step at all); else `Passed` if any step passed; otherwise the status
/// it already had.
pub open spec fn derived_scenario_status(steps: Seq<StepResult>, current: Status) -> Status {
    if exists|i: int| 0 <= i < steps.len() && steps[i].status == Status::Failed {
        Status::Failed
    } else if forall|i: int| 0 <= i < steps.len() ==> steps[i].status == Status::Skipped {
        Status::Skipped
    } else if exists|i: int| 0 <= i < steps.len() && steps[i].status == Status::Passed {
        Status::Passed
    } else {
        current
    }
}

impl ScenarioResult {
    pub fn new(name: String) -> (r: ScenarioResult)
        ensures
            r.name == name,
            r.status == Status::Pending,
            r.duration_ms == 0,
            r.steps@ =~= Seq::<StepResult>::empty(),
    {
        ScenarioResult { name, status: Status::Pending, duration_ms: 0, steps: Vec::new() }
    }

    pub fn add_step(&mut self, step: StepResult)
        ensures
            *final(self) == (ScenarioResult { steps: final(self).steps, ..*old(self) }),
            final(self).steps@ =~= old(self).steps@.push(step),
    {
        self.steps.push(step);
    }

    /// Re-derive this scenario's status from its steps.
    pub fn update_status(&mut self)
        ensures
            *final(self) == (ScenarioResult {
                status: derived_scenario_status(old(self).steps@, old(self).status),
                ..*old(self)
            }),
    {
        let ghost steps = self.steps@;
        let mut any_failed: bool = false;
        let mut all_skipped: bool = true;
        let mut any_passed: bool = false;
        let n = self.steps.len();
        for i in 0..n
            invariant
                n == steps.len(),
                self.steps@ == steps,
                any_failed == exists|k: int|
                    0 <= k < i && steps[k].status == Status::Failed,
                all_skipped == forall|k: int|
                    0 <= k < i ==> steps[k].status == Status::Skipped,
                any_passed == exists|k: int|
                    0 <= k < i && steps[k].status == Status::Passed,
        {
            let st = self.steps[i].status;
            if st == Status::Failed {
                any_failed = true;
            }
            if st != Status::Skipped {
                all_skipped = false;
            }
            if st == Status::Passed {
                any_passed = true;
            }
        }
        if any_failed {
            self.status = Status::Failed;
        } else if all_skipped {
            self.status = Status::Skipped;
        } else if any_passed {
            self.status = Status::Passed;
        }
    }
}

/// Count of the steps that the summary reports under column `c`.
pub open spec fn count_steps(steps: Seq<StepResult>, c: Status) -> nat
    decreases steps.len(),
{
    if steps.len() == 0 {
        0
    } else {
        count_steps(steps.drop_last(), c) + if counted_as(steps.last().status, c) {
            1nat
        } else {
            0nat
        }
    }
}

/// Count of the scenarios that the summary reports under column `c`.
pub open spec fn count_scenarios(scenarios: Seq<ScenarioResult>, c: Status) -> nat
    decreases scenarios.len(),
{
    if scenarios.len() == 0 {
        0
    } else {
        count_scenarios(scenarios.drop_last(), c) + if counted_as(
            scenarios.last().status,
            c,
        ) {
            1nat
        } else {
            0nat
        }
    }
}

pub proof fn lemma_count_steps_partition(steps: Seq<StepResult>)
    ensures
        count_steps(steps, Status::Passed) + count_steps(steps, Status::Failed) + count_steps(
            steps,
            Status::Skipped,
        ) == steps.len(),
    decreases steps.len(),
{
    if steps.len() > 0 {
        lemma_count_steps_partition(steps.drop_last());
    }
}

pub proof fn lemma_count_scenarios_partition(scenarios: Seq<ScenarioResult>)
    ensures
        count_scenarios(scenarios, Status::Passed) + count_scenarios(scenarios, Status::Failed)
            + count_scenarios(scenarios, Status::Skipped) == scenarios.len(),
    decreases scenarios.len(),
{
    if scenarios.len() > 0 {
        lemma_count_scenarios_partition(scenarios.drop_last());
    }
}

/// The all-zero rollup of a run with no scenarios.
pub open spec fn empty_summary() -> ExecutionSummary {
    ExecutionSummary {
        total_scenarios: 0,
        passed_scenarios: 0,
        failed_scenarios: 0,
        skipped_scenarios: 0,
        total_steps: 0,
        passed_steps: 0,
        failed_steps: 0,
        skipped_steps: 0,
    }
}

/// Derived rollup of a run's scenarios and steps.
#[derive(Clone, Debug)]
pub struct ExecutionSummary {
    pub total_scenarios: usize,
    pub passed_scenarios: usize,
    pub failed_scenarios: usize,
    pub skipped_scenarios: usize,
    pub total_steps: usize,
    pub passed_steps: usize,
    pub failed_steps: usize,
    pub skipped_steps: usize,
}

impl ExecutionSummary {
    /// The rollup identity: every counted item falls in exactly one column.
    pub open spec fn consistent(self) -> bool {
        &&& self.total_scenarios == self.passed_scenarios + self.failed_scenarios
            + self.skipped_scenarios
        &&& self.total_steps == self.passed_steps + self.failed_steps + self.skipped_steps
    }

    pub fn new() -> (r: ExecutionSummary)
        ensures
            r.total_scenarios == 0,
            r.passed_scenarios == 0,
            r.failed_scenarios == 0,
            r.skipped_scenarios == 0,
            r.total_steps == 0,
            r.passed_steps == 0,
            r.failed_steps == 0,
            r.skipped_steps == 0,
            r == empty_summary(),
            r.consistent(),
    {
        ExecutionSummary {
            total_scenarios: 0,
            passed_scenarios: 0,
            failed_scenarios: 0,
            skipped_scenarios: 0,
            total_steps: 0,
            passed_steps: 0,
            failed_steps: 0,
            skipped_steps: 0,
        }
    }

    /// Fold one scenario and its steps into the rollup.
    pub fn add_scenario_result(&mut self, scenario: &ScenarioResult)
        requires
            old(self).consistent(),
            old(self).total_scenarios < usize::MAX,
            old(self).total_steps + scenario.steps@.len() <= usize::MAX,
        ensures
            final(self).total_scenarios == old(self).total_scenarios + 1,
            final(self).passed_scenarios == old(self).passed_scenarios + if counted_as(
                scenario.status,
                Status::Passed,
            ) {
                1int
            } else {
                0int
            },
            final(self).failed_scenarios == old(self).failed_scenarios + if counted_as(
                scenario.status,
                Status::Failed,
            ) {
                1int
            } else {
                0int
            },
            final(self).skipped_scenarios == old(self).skipped_scenarios + if counted_as(
                scenario.status,
                Status::Skipped,
            ) {
                1int
            } else {
                0int
            },
            final(self).total_steps == old(self).total_steps + scenario.steps@.len(),
            final(self).passed_steps == old(self).passed_steps + count_steps(
                scenario.steps@,
                Status::Passed,
            ),
            final(self).failed_steps == old(self).failed_steps + count_steps(
                scenario.steps@,
                Status::Failed,
            ),
            final(self).skipped_steps == old(self).skipped_steps + count_steps(
                scenario.steps@,
                Status::Skipped,
            ),
            final(self).consistent(),
    {
        proof {
            lemma_count_steps_partition(scenario.steps@);
        }
        self.total_scenarios = self.total_scenarios + 1;
        match scenario.status {
            Status::Passed => {
                self.passed_scenarios = self.passed_scenarios + 1;
            },
            Status::Failed => {
                self.failed_scenarios = self.failed_scenarios + 1;
            },
            Status::Skipped => {
                self.skipped_scenarios = self.skipped_scenarios + 1;
            },
            Status::Pending => {
                self.skipped_scenarios = self.skipped_scenarios + 1;
            },
        }
        let ghost steps = scenario.steps@;
        let n = scenario.steps.len();
        for i in 0..n
            invariant
                n == steps.len(),
                scenario.steps@ == steps,
                self.total_scenarios == old(self).total_scenarios + 1,
                self.passed_scenarios == old(self).passed_scenarios + if counted_as(
                    scenario.status,
                    Status::Passed,
                ) {
                    1int
                } else {
                    0int
                },
                self.failed_scenarios == old(self).failed_scenarios + if counted_as(
                    scenario.status,
                    Status::Failed,
                ) {
                    1int
                } else {
                    0int
                },
                self.skipped_scenarios == old(self).skipped_scenarios + if counted_as(
                    scenario.status,
                    Status::Skipped,
                ) {
                    1int
                } else {
                    0int
                },
                self.total_steps == old(self).total_steps + i,
                self.passed_steps == old(self).passed_steps + count_steps(
                    steps.take(i as int),
                    Status::Passed,
                ),
                self.failed_steps == old(self).failed_steps + count_steps(
                    steps.take(i as int),
                    Status::Failed,
                ),
                self.skipped_steps == old(self).skipped_steps + count_steps(
                    steps.take(i as int),
                    Status::Skipped,
                ),
                old(self).consistent(),
                old(self).total_steps + steps.len() <= usize::MAX,
        {
            proof {
                lemma_count_steps_partition(steps.take(i as int));
                assert(steps.take(i as int + 1).drop_last() =~= steps.take(i as int));
                assert(steps.take(i as int + 1).last() == steps[i as int]);
            }
            self.total_steps = self.total_steps + 1;
            match scenario.steps[i].status {
                Status::Passed => {
                    self.passed_steps = self.passed_steps + 1;
                },
                Status::Failed => {
                    self.failed_steps = self.failed_steps + 1;
                },
                Status::Skipped => {
                    self.skipped_steps = self.skipped_steps + 1;
                },
                Status::Pending => {
                    self.skipped_steps = self.skipped_steps + 1;
                },
            }
        }
        proof {
            assert(steps.take(n as int) =~= steps);
            lemma_count_steps_partition(steps);
        }
    }
}

impl Default for ExecutionSummary {
    fn default() -> (r: ExecutionSummary)
        ensures
            r == empty_summary(),
    {
        ExecutionSummary::new()
    }
}

/// Identifying data of the feature under test.
#[derive(Clone, Debug)]
pub struct FeatureInfo {
    pub name: String,
    pub file: Option<String>,
    pub description: Option<String>,
}

/// The status a whole run derives from its summary: `Failed` as soon as
/// one step failed, else `Passed` as soon as one step passed, else
/// `Skipped`.
pub open spec fn derived_run_status(summary: ExecutionSummary) -> Status {
    if summary.failed_steps > 0 {
        Status::Failed
    } else if summary.passed_steps > 0 {
        Status::Passed
    } else {
        Status::Skipped
    }
}

/// One feature run: its scenarios and the derived rollup.
#[derive(Clone, Debug)]
pub struct ExecutionResult {
    pub status: Status,
    pub timestamp: String,
    pub duration_ms: u64,
    pub feature: FeatureInfo,
    pub scenarios: Vec<ScenarioResult>,
    pub summary: ExecutionSummary,
}

impl ExecutionResult {
    /// A fresh, empty run stamped with the current wall-clock time.
    pub fn new(feature: FeatureInfo) -> (r: ExecutionResult)
        ensures
            r.status == Status::Pending,
            r.duration_ms == 0,
            r.feature == feature,
            r.scenarios@ =~= Seq::<ScenarioResult>::empty(),
            r.summary == empty_summary(),
    {
        ExecutionResult {
            status: Status::Pending,
            timestamp: crate::clock::now_iso_millis(),
            duration_ms: 0,
            feature,
            scenarios: Vec::new(),
            summary: ExecutionSummary::new(),
        }
    }

    pub fn add_scenario(&mut self, scenario: ScenarioResult)
        ensures
            *final(self) == (ExecutionResult { scenarios: final(self).scenarios, ..*old(self) }),
            final(self).scenarios@ =~= old(self).scenarios@.push(scenario),
    {
        self.scenarios.push(scenario);
    }

    /// Re-derive the run's status from its summary counters.
    pub fn update_status(&mut self)
        ensures
            *final(self) == (ExecutionResult {
                status: derived_run_status(old(self).summary),
                ..*old(self)
            }),
    {
        if self.summary.failed_steps > 0 {
            self.status = Status::Failed;
        } else if self.summary.passed_steps > 0 {
            self.status = Status::Passed;
        } else {
            self.status = Status::Skipped;
        }
    }
}

} // verus!
