//! The batch executor: run a caller-supplied per-feature runner over a
//! list of feature files and aggregate the outcomes.
//!
//! A runner failure for one path never aborts the batch: the failed
//! feature is recorded with zero counts and one `BatchError`, and the
//! batch goes on (continue-on-failure is the only policy).  The aggregate
//! counters are computed by summing the completed feature records, never
//! tracked incrementally.
//!
//! This module runs the batch sequentially and is the single source of
//! the aggregation rules; a parallel front end can fan the same runner
//! out over workers and hand the collected records to `aggregate`.

use vstd::prelude::*;
use vstd::string::StringExecFns;
use vstd::seq_lib::group_to_multiset_ensures;
use vstd::multiset::Multiset;
use crate::execution::result::{ExecutionResult, Status};
use crate::rational::Rational;
use crate::clock::{elapsed_ms, instant_now, now_rfc3339};
use crate::text::{str_le, str_le_exec, spec_file_stem, file_stem, has_feature_extension,
    spec_has_feature_extension};

verus! {

broadcast use group_to_multiset_ensures;

/// The feature files among a list of paths, in order.
pub open spec fn feature_files(s: Seq<Seq<char>>) -> Seq<Seq<char>> {
    s.filter(|t: Seq<char>| spec_has_feature_extension(t))
}

/// Relies on num_cpus::get: the number of available logical CPUs.  The
/// crate documents that it always returns at least 1.
#[verifier::external_body]
fn cpu_count() -> (n: usize)
    ensures
        1 <= n,
{
    num_cpus::get()
}

/// How a batch is to be run.
#[derive(Clone, Debug)]
pub struct BatchConfig {
    pub parallel: bool,
    pub max_workers: usize,
    pub timeout_seconds: u64,
    pub continue_on_failure: bool,
    pub output_format: String,
}

impl Default for BatchConfig {
    /// Parallel over as many workers as the machine offers, a five-minute
    /// timeout, continue on failure, plain text output.
    fn default() -> (c: BatchConfig)
        ensures
            c.parallel,
            1 <= c.max_workers,
            c.timeout_seconds == 300,
            c.continue_on_failure,
            c.output_format@ == "text"@,
    {
        BatchConfig {
            parallel: true,
            max_workers: cpu_count(),
            timeout_seconds: 300,
            continue_on_failure: true,
            output_format: String::from_str("text"),
        }
    }
}

/// Outcome of one feature file.
#[derive(Clone, Debug)]
pub struct FeatureResult {
    pub name: String,
    pub path: String,
    pub status: Status,
    pub scenarios_passed: usize,
    pub scenarios_failed: usize,
    pub duration_ms: u64,
    pub result: Option<ExecutionResult>,
}

/// A feature whose runner failed.
#[derive(Clone, Debug)]
pub struct BatchError {
    pub path: String,
    pub error: String,
    pub timestamp: String,
}

/// The aggregated outcome of a batch.  Scenario totals are wide, since a
/// batch sums counters of many features.
#[derive(Clone, Debug)]
pub struct BatchResult {
    pub total_features: usize,
    pub passed_features: usize,
    pub failed_features: usize,
    pub total_scenarios: u128,
    pub passed_scenarios: u128,
    pub failed_scenarios: u128,
    pub total_duration_ms: u64,
    pub results: Vec<FeatureResult>,
    pub errors: Vec<BatchError>,
}

/// Number of feature records with the given status.
pub open spec fn count_feature_status(rs: Seq<FeatureResult>, st: Status) -> int
    decreases rs.len(),
{
    if rs.len() == 0 {
        0
    } else {
        count_feature_status(rs.drop_last(), st) + if rs.last().status == st {
            1int
        } else {
            0
        }
    }
}

/// Sum of the passed-scenario counters of the records.
pub open spec fn sum_scenarios_passed(rs: Seq<FeatureResult>) -> int
    decreases rs.len(),
{
    if rs.len() == 0 {
        0
    } else {
        sum_scenarios_passed(rs.drop_last()) + rs.last().scenarios_passed
    }
}

/// Sum of the failed-scenario counters of the records.
pub open spec fn sum_scenarios_failed(rs: Seq<FeatureResult>) -> int
    decreases rs.len(),
{
    if rs.len() == 0 {
        0
    } else {
        sum_scenarios_failed(rs.drop_last()) + rs.last().scenarios_failed
    }
}

/// Number of records whose runner failed (no result held).
pub open spec fn count_failed_runs(rs: Seq<FeatureResult>) -> int
    decreases rs.len(),
{
    if rs.len() == 0 {
        0
    } else {
        count_failed_runs(rs.drop_last()) + if rs.last().result is None {
            1int
        } else {
            0
        }
    }
}

/// The paths of the records whose runner failed, in record order.
pub open spec fn failed_run_paths(rs: Seq<FeatureResult>) -> Seq<Seq<char>>
    decreases rs.len(),
{
    if rs.len() == 0 {
        Seq::empty()
    } else if rs.last().result is None {
        failed_run_paths(rs.drop_last()).push(rs.last().path@)
    } else {
        failed_run_paths(rs.drop_last())
    }
}

proof fn lemma_counts_bounds(rs: Seq<FeatureResult>)
    ensures
        0 <= count_feature_status(rs, Status::Passed) <= rs.len(),
        0 <= count_feature_status(rs, Status::Failed) <= rs.len(),
        0 <= count_failed_runs(rs) <= rs.len(),
        0 <= sum_scenarios_passed(rs) <= rs.len() * (usize::MAX as int),
        0 <= sum_scenarios_failed(rs) <= rs.len() * (usize::MAX as int),
    decreases rs.len(),
{
    if rs.len() > 0 {
        lemma_counts_bounds(rs.drop_last());
        assert(rs.len() * (usize::MAX as int) == (rs.len() - 1) * (usize::MAX as int) + (
        usize::MAX as int)) by (nonlinear_arith);
    }
}

/// A feature record is the faithful image of what its runner returned:
/// zero counts and `Failed` when the runner failed, the run's own status
/// and counters when it succeeded.
pub open spec fn feature_record_wf(r: FeatureResult) -> bool {
    match r.result {
        Some(er) => {
            &&& r.status == er.status
            &&& r.scenarios_passed == er.summary.passed_scenarios
            &&& r.scenarios_failed == er.summary.failed_scenarios
        },
        None => {
            &&& r.status == Status::Failed
            &&& r.scenarios_passed == 0
            &&& r.scenarios_failed == 0
        },
    }
}

/// Thread-safe-aggregation state for a batch front end: counters plus the
/// collected records and errors.  This core keeps it as a plain value; a
/// parallel front end wraps it in its own lock.
pub struct BatchProgress {
    pub completed: usize,
    pub total: usize,
    pub start_time: std::time::Instant,
    pub results: Vec<FeatureResult>,
    pub errors: Vec<BatchError>,
}

impl BatchProgress {
    pub fn new(total: usize) -> (p: BatchProgress)
        ensures
            p.completed == 0,
            p.total == total,
            p.results@.len() == 0,
            p.errors@.len() == 0,
    {
        BatchProgress {
            completed: 0,
            total,
            start_time: instant_now(),
            results: Vec::new(),
            errors: Vec::new(),
        }
    }

    pub fn increment_completed(&mut self)
        requires
            old(self).completed < usize::MAX,
        ensures
            *final(self) == (BatchProgress { completed: final(self).completed, ..*old(self) }),
            final(self).completed == old(self).completed + 1,
    {
        self.completed = self.completed + 1;
    }

    /// Fraction of the batch finished, as an exact ratio; zero while the
    /// batch is empty.
    pub fn get_progress(&self) -> (r: Rational)
        ensures
            self.total == 0 ==> r == (Rational { neg: false, num: 0, den: 1 }),
            self.total != 0 ==> r == (Rational {
                neg: false,
                num: self.completed as u128,
                den: self.total as u128,
            }),
            r.wf(),
    {
        if self.total == 0 {
            Rational { neg: false, num: 0, den: 1 }
        } else {
            Rational { neg: false, num: self.completed as u128, den: self.total as u128 }
        }
    }

    /// Milliseconds since the batch started, read from the clock.
    pub fn get_elapsed_ms(&self) -> u64 {
        elapsed_ms(&self.start_time)
    }

    pub fn add_result(&mut self, result: FeatureResult)
        ensures
            *final(self) == (BatchProgress { results: final(self).results, ..*old(self) }),
            final(self).results@ == old(self).results@.push(result),
    {
        self.results.push(result);
    }

    pub fn add_error(&mut self, error: BatchError)
        ensures
            *final(self) == (BatchProgress { errors: final(self).errors, ..*old(self) }),
            final(self).errors@ == old(self).errors@.push(error),
    {
        self.errors.push(error);
    }
}

/// Runs feature files through a caller-supplied runner and aggregates.
pub struct BatchExecutor {
    pub config: BatchConfig,
    pub progress: Option<BatchProgress>,
}

/// The record is one the runner could have produced for this path:
/// some outcome the runner's own contract admits is folded into it,
/// a run held on success, nothing held on failure.
pub open spec fn record_reflects_runner<F: Fn(&String) -> Result<ExecutionResult, String>>(
    executor: F,
    path: String,
    rec: FeatureResult,
) -> bool {
    exists|o: Result<ExecutionResult, String>|
        {
            &&& #[trigger] call_ensures(executor, (&path,), o)
            &&& (o matches Ok(er) ==> rec.result == Some(er))
            &&& (o is Err ==> rec.result is None)
        }
}

/// Fold one runner outcome into a feature record: the run's own status
/// and counters on success; `Failed` with zero counts on failure.
pub fn feature_record_of(path: &String, outcome: Result<ExecutionResult, String>, duration_ms: u64)
    -> (r: FeatureResult)
    ensures
        feature_record_wf(r),
        r.path@ == path@,
        r.name@ == spec_file_stem(path@),
        r.duration_ms == duration_ms,
        match outcome {
            Ok(er) => r.result == Some(er),
            Err(_) => r.result is None,
        },
{
    let name = file_stem(path);
    match outcome {
        Ok(exec_result) => {
            let scenarios_passed = exec_result.summary.passed_scenarios;
            let scenarios_failed = exec_result.summary.failed_scenarios;
            let status = exec_result.status;
            FeatureResult {
                name,
                path: path.clone(),
                status,
                scenarios_passed,
                scenarios_failed,
                duration_ms,
                result: Some(exec_result),
            }
        },
        Err(_e) => FeatureResult {
            name,
            path: path.clone(),
            status: Status::Failed,
            scenarios_passed: 0,
            scenarios_failed: 0,
            duration_ms,
            result: None,
        },
    }
}

/// Run one path through the runner and fold the outcome into a record.
fn execute_feature<F: Fn(&String) -> Result<ExecutionResult, String>>(
    path: &String,
    executor: &F,
) -> (r: FeatureResult)
    requires
        forall|p: &String| #[trigger] call_requires(*executor, (p,)),
    ensures
        feature_record_wf(r),
        r.path@ == path@,
        r.name@ == spec_file_stem(path@),
        record_reflects_runner(*executor, *path, r),
{
    let started = instant_now();
    let outcome = (executor)(path);
    let duration_ms = elapsed_ms(&started);
    let ghost o = outcome;
    let r = feature_record_of(path, outcome, duration_ms);
    proof {
        assert(call_ensures(*executor, (path,), o));
        assert(record_reflects_runner(*executor, *path, r));
    }
    r
}

/// Sum the completed records into a batch report.  One `BatchError` is
/// recorded per failed run, in record order.
pub fn aggregate(results: Vec<FeatureResult>, total_duration_ms: u64) -> (r: BatchResult)
    ensures
        r.results@ == results@,
        r.total_features == results@.len(),
        r.passed_features == count_feature_status(results@, Status::Passed),
        r.failed_features == count_feature_status(results@, Status::Failed),
        r.passed_scenarios == sum_scenarios_passed(results@),
        r.failed_scenarios == sum_scenarios_failed(results@),
        r.total_scenarios == (if sum_scenarios_passed(results@) + sum_scenarios_failed(results@)
            <= u128::MAX {
            sum_scenarios_passed(results@) + sum_scenarios_failed(results@)
        } else {
            u128::MAX as int
        }),
        r.total_duration_ms == total_duration_ms,
        r.errors@.len() == count_failed_runs(results@),
        r.errors@.map_values(|e: BatchError| e.path@) == failed_run_paths(results@),
        forall|j: int|
            0 <= j < r.errors@.len() ==> (#[trigger] r.errors@[j]).error@
                == "Feature execution failed"@,
{
    let ghost rs = results@;
    let mut passed_features: usize = 0;
    let mut failed_features: usize = 0;
    let mut passed_scenarios: u128 = 0;
    let mut failed_scenarios: u128 = 0;
    let mut errors: Vec<BatchError> = Vec::new();
    proof {
        assert(errors@.map_values(|e: BatchError| e.path@) =~= failed_run_paths(rs.take(0)));
    }
    let n = results.len();
    for i in 0..n
        invariant
            n == rs.len(),
            results@ == rs,
            passed_features == count_feature_status(rs.take(i as int), Status::Passed),
            failed_features == count_feature_status(rs.take(i as int), Status::Failed),
            passed_scenarios == sum_scenarios_passed(rs.take(i as int)),
            failed_scenarios == sum_scenarios_failed(rs.take(i as int)),
            errors@.len() == count_failed_runs(rs.take(i as int)),
            errors@.map_values(|e: BatchError| e.path@) == failed_run_paths(rs.take(i as int)),
            forall|j: int|
                0 <= j < errors@.len() ==> (#[trigger] errors@[j]).error@
                    == "Feature execution failed"@,
    {
        proof {
            assert(rs.take(i + 1).drop_last() =~= rs.take(i as int));
            assert(rs.take(i + 1).last() == rs[i as int]);
            lemma_counts_bounds(rs.take(i as int));
            assert((i as int) * (usize::MAX as int) + (usize::MAX as int) <= (usize::MAX as int)
                * (usize::MAX as int)) by (nonlinear_arith)
                requires
                    0 <= i as int,
                    i as int + 1 <= usize::MAX as int,
            ;
            assert((usize::MAX as int) * (usize::MAX as int) < u128::MAX as int)
                by (nonlinear_arith)
                requires
                    usize::MAX as int <= u64::MAX as int,
            ;
        }
        let fr = &results[i];
        if fr.status == Status::Passed {
            passed_features = passed_features + 1;
        }
        if fr.status == Status::Failed {
            failed_features = failed_features + 1;
        }
        passed_scenarios = passed_scenarios + (fr.scenarios_passed as u128);
        failed_scenarios = failed_scenarios + (fr.scenarios_failed as u128);
        if fr.result.is_none() {
            let ghost e0 = errors@;
            let err = BatchError {
                path: fr.path.clone(),
                error: String::from_str("Feature execution failed"),
                timestamp: now_rfc3339(),
            };
            errors.push(err);
            proof {
                assert(errors@.map_values(|e: BatchError| e.path@) =~= e0.map_values(
                    |e: BatchError| e.path@,
                ).push(rs[i as int].path@));
            }
        }
    }
    proof {
        assert(rs.take(n as int) =~= rs);
        lemma_counts_bounds(rs);
    }
    let total_scenarios = if failed_scenarios <= u128::MAX - passed_scenarios {
        passed_scenarios + failed_scenarios
    } else {
        u128::MAX
    };
    BatchResult {
        total_features: results.len(),
        passed_features,
        failed_features,
        total_scenarios,
        passed_scenarios,
        failed_scenarios,
        total_duration_ms,
        results,
        errors,
    }
}

impl BatchExecutor {
    pub fn new() -> (e: BatchExecutor)
        ensures
            e.config.parallel,
            e.progress is None,
    {
        BatchExecutor { config: BatchConfig::default(), progress: None }
    }

    pub fn with_config(config: BatchConfig) -> (e: BatchExecutor)
        ensures
            e.config == config,
            e.progress is None,
    {
        BatchExecutor { config, progress: None }
    }

    /// Run every path through the runner, in list order, and aggregate.
    /// Exactly one record per path is produced, each the faithful image
    /// of its runner outcome; a failing runner never aborts the batch.
    pub fn execute<F: Fn(&String) -> Result<ExecutionResult, String>>(
        &mut self,
        paths: &Vec<String>,
        executor: F,
    ) -> (r: BatchResult)
        requires
            forall|p: &String| #[trigger] call_requires(executor, (p,)),
        ensures
            r.total_features == paths@.len(),
            r.results@.len() == paths@.len(),
            forall|i: int|
                0 <= i < paths@.len() ==> (#[trigger] r.results@[i]).path@ == paths@[i]@
                    && r.results@[i].name@ == spec_file_stem(paths@[i]@),
            forall|i: int|
                0 <= i < paths@.len() ==> feature_record_wf(#[trigger] r.results@[i]),
            forall|i: int|
                0 <= i < paths@.len() ==> record_reflects_runner(
                    executor,
                    paths@[i],
                    #[trigger] r.results@[i],
                ),
            r.passed_features == count_feature_status(r.results@, Status::Passed),
            r.failed_features == count_feature_status(r.results@, Status::Failed),
            r.passed_scenarios == sum_scenarios_passed(r.results@),
            r.failed_scenarios == sum_scenarios_failed(r.results@),
            r.total_scenarios == (if sum_scenarios_passed(r.results@) + sum_scenarios_failed(
                r.results@,
            ) <= u128::MAX {
                sum_scenarios_passed(r.results@) + sum_scenarios_failed(r.results@)
            } else {
                u128::MAX as int
            }),
            r.errors@.len() == count_failed_runs(r.results@),
            final(self).progress matches Some(p) && p.total == paths@.len(),
    {
        let total = paths.len();
        self.progress = Some(BatchProgress::new(total));
        let started = instant_now();
        let mut results: Vec<FeatureResult> = Vec::new();
        let n = paths.len();
        for i in 0..n
            invariant
                n == paths@.len(),
                forall|p: &String| #[trigger] call_requires(executor, (p,)),
                results@.len() == i,
                forall|k: int|
                    0 <= k < i ==> (#[trigger] results@[k]).path@ == paths@[k]@
                        && results@[k].name@ == spec_file_stem(paths@[k]@),
                forall|k: int| 0 <= k < i ==> feature_record_wf(#[trigger] results@[k]),
                forall|k: int|
                    0 <= k < i ==> record_reflects_runner(
                        executor,
                        paths@[k],
                        #[trigger] results@[k],
                    ),
                self.progress matches Some(p) && p.total == paths@.len(),
        {
            let fr = execute_feature(&paths[i], &executor);
            results.push(fr);
            match &mut self.progress {
                Some(p) => {
                    if p.completed < usize::MAX {
                        p.increment_completed();
                    }
                },
                None => {},
            }
        }
        let duration_ms = elapsed_ms(&started);
        aggregate(results, duration_ms)
    }

    /// Keep the feature files among the given paths, lexicographically
    /// sorted for deterministic reporting.  The result holds the same
    /// paths, as a multiset, as the feature files among the input.
    pub fn select_feature_files(paths: Vec<String>) -> (r: Vec<String>)
        ensures
            forall|i: int, j: int|
                0 <= i < j < r@.len() ==> str_le(#[trigger] r@[i]@, #[trigger] r@[j]@),
            r@.map_values(|p: String| p@).to_multiset() == feature_files(
                paths@.map_values(|p: String| p@),
            ).to_multiset(),
    {
        let mut work: Vec<String> = Vec::new();
        let ghost ps = paths@;
        let n = paths.len();
        for i in 0..n
            invariant
                n == ps.len(),
                paths@ == ps,
                work@.map_values(|p: String| p@) == feature_files(
                    ps.take(i as int).map_values(|p: String| p@),
                ),
        {
            let keep = has_feature_extension(&paths[i]);
            if keep {
                work.push(paths[i].clone());
            }
            proof {
                assert(ps.take(i + 1).map_values(|p: String| p@) =~= ps.take(i as int).map_values(
                    |p: String| p@,
                ).push(ps[i as int]@));
                reveal(Seq::filter);
                assert(ps.take(i + 1).map_values(|p: String| p@).drop_last() =~= ps.take(
                    i as int,
                ).map_values(|p: String| p@));
                assert(ps.take(i + 1).map_values(|p: String| p@).last() == ps[i as int]@);
                assert(work@.map_values(|p: String| p@) =~= feature_files(ps.take(
                    i + 1,
                ).map_values(|p: String| p@)));
            }
        }
        proof {
            assert(ps.take(n as int) =~= ps);
        }
        let ghost selected = work@.map_values(|p: String| p@);
        let mut sorted: Vec<String> = Vec::new();
        while work.len() > 0
            invariant
                sorted@.map_values(|p: String| p@).to_multiset().add(
                    work@.map_values(|p: String| p@).to_multiset(),
                ) =~= selected.to_multiset(),
                forall|i: int, j: int|
                    0 <= i < j < sorted@.len() ==> str_le(
                        #[trigger] sorted@[i]@,
                        #[trigger] sorted@[j]@,
                    ),
                forall|i: int, k: int|
                    0 <= i < sorted@.len() && 0 <= k < work@.len() ==> str_le(
                        #[trigger] sorted@[i]@,
                        #[trigger] work@[k]@,
                    ),
            decreases work@.len(),
    {
            let mut midx: usize = 0;
            let m = work.len();
            proof {
                crate::text::lemma_str_le_refl(work@[0]@);
            }
            let mut k: usize = 1;
            while k < m
                invariant
                    m == work@.len(),
                    midx < k <= m,
                    forall|t: int| 0 <= t < k ==> str_le(work@[midx as int]@, #[trigger] work@[t]@),
                decreases m - k,
            {
                if !str_le_exec(&work[midx], &work[k]) {
                    proof {
                        crate::text::lemma_str_le_total(work@[midx as int]@, work@[k as int]@);
                        assert forall|t: int| 0 <= t < k + 1 implies str_le(
                            work@[k as int]@,
                            #[trigger] work@[t]@,
                        ) by {
                            if t < k as int {
                                crate::text::lemma_str_le_trans(
                                    work@[k as int]@,
                                    work@[midx as int]@,
                                    work@[t]@,
                                );
                            } else {
                                crate::text::lemma_str_le_refl(work@[k as int]@);
                            }
                        }
                    }
                    midx = k;
                }
                k = k + 1;
            }
            let ghost w0 = work@;
            let ghost s0 = sorted@;
            let chosen = work.remove(midx);
            sorted.push(chosen);
            proof {
                assert(w0[midx as int] == chosen);
                assert(work@ =~= w0.remove(midx as int));
                assert(w0.map_values(|p: String| p@).remove(midx as int) =~= work@.map_values(
                    |p: String| p@,
                ));
                assert(sorted@.map_values(|p: String| p@) =~= s0.map_values(
                    |p: String| p@,
                ).push(chosen@));
                assert(w0.map_values(|p: String| p@)[midx as int] == chosen@);
                assert(w0.map_values(|p: String| p@).remove(midx as int).to_multiset()
                    =~= w0.map_values(|p: String| p@).to_multiset().remove(chosen@));
                assert(sorted@.map_values(|p: String| p@).to_multiset() =~= s0.map_values(
                    |p: String| p@,
                ).to_multiset().insert(chosen@));
                assert(sorted@.map_values(|p: String| p@).to_multiset().add(
                    work@.map_values(|p: String| p@).to_multiset(),
                ) =~= selected.to_multiset());
                assert forall|i: int, kk: int|
                    0 <= i < sorted@.len() && 0 <= kk < work@.len() implies str_le(
                    #[trigger] sorted@[i]@,
                    #[trigger] work@[kk]@,
                ) by {
                    if i < s0.len() {
                        if kk < midx {
                            assert(work@[kk] == w0[kk]);
                        } else {
                            assert(work@[kk] == w0[kk + 1]);
                        }
                    } else {
                        assert(sorted@[i] == chosen);
                        if kk < midx {
                            assert(work@[kk] == w0[kk]);
                        } else {
                            assert(work@[kk] == w0[kk + 1]);
                        }
                    }
                }
            }
        }
        proof {
            assert(work@.map_values(|p: String| p@).to_multiset() =~= Multiset::empty());
            assert(sorted@.map_values(|p: String| p@).to_multiset() =~= selected.to_multiset());
        }
        sorted
    }
}

} // verus!
