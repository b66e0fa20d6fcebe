//! Profiling of one run: per-scenario and per-step timings, the slowest
//! steps aggregated across the run, and a bottleneck reading with
//! suggestions.
//!
//! Step shares of a scenario and all aggregation are exact; the slowest
//! steps are the ten largest totals, largest first.

use vstd::prelude::*;
use vstd::string::StringExecFns;
use crate::execution::comparison::{
    all_step_pairs, count_for, flatten_steps, group_pairs, group_views, groups_of, sum_for,
};
use crate::execution::result::{ExecutionResult, ScenarioResult, Status};
use crate::rational::Rational;
use crate::text::{contains_fold, u128_to_string, u64_to_string};
use vstd::arithmetic::div_mod::lemma_fundamental_div_mod;

verus! {

/// Profiling of one whole run.
#[derive(Debug)]
pub struct ProfilingMetrics {
    pub total_duration_ms: u64,
    pub scenarios: Vec<ScenarioMetrics>,
    pub slowest_steps: Vec<SlowestStepInfo>,
    pub bottleneck_analysis: BottleneckAnalysis,
}

/// Timing of one scenario.
#[derive(Debug)]
pub struct ScenarioMetrics {
    pub name: String,
    pub duration_ms: u64,
    pub step_count: usize,
    pub passed: bool,
    pub steps: Vec<StepMetrics>,
    pub slowest_step: Option<SlowestStepInfo>,
}

/// Timing of one step, with its exact share of the scenario.
#[derive(Debug)]
pub struct StepMetrics {
    pub text: String,
    pub duration_ms: u64,
    pub percentage: Rational,
    pub status: Status,
}

/// One step text aggregated across the run.
#[derive(Debug)]
pub struct SlowestStepInfo {
    pub text: String,
    pub total_ms: u128,
    pub calls: usize,
    pub average_ms: u64,
}

/// The run's bottleneck reading.
#[derive(Debug)]
pub struct BottleneckAnalysis {
    pub top_bottleneck: Option<String>,
    pub suggestions: Vec<String>,
    pub slow_scenario: Option<String>,
}

/// The share of a step in its scenario: `dur / total * 100`, exactly;
/// zero when the scenario reports no duration.
pub open spec fn spec_step_share(dur: u64, total: u64) -> Rational {
    if total == 0 {
        Rational { neg: false, num: 0, den: 1 }
    } else {
        Rational { neg: false, num: (dur * 100) as u128, den: total as u128 }
    }
}

/// Index of the slowest step, earliest of the maxima; -1 when there is
/// no step.
pub open spec fn slowest_index(steps: Seq<crate::execution::result::StepResult>) -> int
    decreases steps.len(),
{
    if steps.len() == 0 {
        -1
    } else if steps.len() == 1 {
        0
    } else {
        let pre = slowest_index(steps.drop_last());
        if steps.last().duration_ms > steps[pre].duration_ms {
            steps.len() - 1
        } else {
            pre
        }
    }
}

pub proof fn lemma_slowest_index_range(steps: Seq<crate::execution::result::StepResult>)
    requires
        steps.len() > 0,
    ensures
        0 <= slowest_index(steps) < steps.len(),
    decreases steps.len(),
{
    if steps.len() > 1 {
        lemma_slowest_index_range(steps.drop_last());
    }
}

/// Measure one scenario: every step with its exact share, and the
/// slowest step when there is one.
pub fn analyze_scenario(scenario: &ScenarioResult) -> (m: ScenarioMetrics)
    ensures
        m.name@ == scenario.name@,
        m.duration_ms == scenario.duration_ms,
        m.step_count == scenario.steps@.len(),
        m.passed == (scenario.status == Status::Passed),
        m.steps@.len() == scenario.steps@.len(),
        forall|i: int|
            0 <= i < m.steps@.len() ==> {
                &&& (#[trigger] m.steps@[i]).text@ == scenario.steps@[i].text@
                &&& m.steps@[i].duration_ms == scenario.steps@[i].duration_ms
                &&& m.steps@[i].status == scenario.steps@[i].status
                &&& m.steps@[i].percentage == spec_step_share(
                    scenario.steps@[i].duration_ms,
                    scenario.duration_ms,
                )
            },
        scenario.steps@.len() == 0 <==> m.slowest_step is None,
        m.slowest_step matches Some(s) ==> {
            &&& s.text@ == scenario.steps@[slowest_index(scenario.steps@)].text@
            &&& s.total_ms == scenario.steps@[slowest_index(scenario.steps@)].duration_ms
            &&& s.calls == 1
            &&& s.average_ms == scenario.steps@[slowest_index(scenario.steps@)].duration_ms
        },
{
    let duration = scenario.duration_ms;
    let mut steps: Vec<StepMetrics> = Vec::new();
    let mut slowest: usize = 0;
    let n = scenario.steps.len();
    for i in 0..n
        invariant
            n == scenario.steps@.len(),
            steps@.len() == i,
            duration == scenario.duration_ms,
            forall|k: int|
                0 <= k < i ==> {
                    &&& (#[trigger] steps@[k]).text@ == scenario.steps@[k].text@
                    &&& steps@[k].duration_ms == scenario.steps@[k].duration_ms
                    &&& steps@[k].status == scenario.steps@[k].status
                    &&& steps@[k].percentage == spec_step_share(
                        scenario.steps@[k].duration_ms,
                        scenario.duration_ms,
                    )
                },
            i > 0 ==> slowest == slowest_index(scenario.steps@.take(i as int)),
            i == 0 ==> slowest == 0,
            n == 0 || slowest < n,
            slowest <= i,
    {
        let step = &scenario.steps[i];
        let percentage = if duration == 0 {
            Rational { neg: false, num: 0, den: 1 }
        } else {
            Rational {
                neg: false,
                num: (step.duration_ms as u128) * 100,
                den: duration as u128,
            }
        };
        steps.push(
            StepMetrics {
                text: step.text.clone(),
                duration_ms: step.duration_ms,
                percentage,
                status: step.status,
            },
        );
        proof {
            assert(scenario.steps@.take(i + 1).drop_last() =~= scenario.steps@.take(i as int));
            assert(scenario.steps@.take(i + 1).last() == scenario.steps@[i as int]);
            assert(forall|k: int|
                0 <= k < i ==> scenario.steps@.take(i as int)[k] == scenario.steps@[k]);
            assert(forall|k: int|
                0 <= k <= i ==> scenario.steps@.take(i + 1)[k] == scenario.steps@[k]);
            if i > 0 {
                lemma_slowest_index_range(scenario.steps@.take(i as int));
            }
        }
        if i > 0 && scenario.steps[i].duration_ms > scenario.steps[slowest].duration_ms {
            slowest = i;
        }
    }
    proof {
        assert(scenario.steps@.take(n as int) =~= scenario.steps@);
    }
    proof {
        if n > 0 {
            lemma_slowest_index_range(scenario.steps@);
        }
    }
    let slowest_step = if n == 0 {
        None
    } else {
        let s = &scenario.steps[slowest];
        Some(
            SlowestStepInfo {
                text: s.text.clone(),
                total_ms: s.duration_ms as u128,
                calls: 1,
                average_ms: s.duration_ms,
            },
        )
    };
    ScenarioMetrics {
        name: scenario.name.clone(),
        duration_ms: duration,
        step_count: n,
        passed: scenario.status == Status::Passed,
        steps,
        slowest_step,
    }
}

/// The aggregated entries are in weakly decreasing order of total
/// duration.
pub open spec fn slowest_sorted(s: Seq<SlowestStepInfo>) -> bool {
    forall|i: int, j: int|
        0 <= i < j < s.len() ==> (#[trigger] s[i]).total_ms >= (#[trigger] s[j]).total_ms
}

/// Every entry is one step-text group of the run, with that text's
/// exact total and count.
pub open spec fn entries_are_groups(s: Seq<SlowestStepInfo>, r: ExecutionResult) -> bool {
    forall|i: int|
        0 <= i < s.len() ==> {
            &&& count_for(all_step_pairs(r.scenarios@), (#[trigger] s[i]).text@) == s[i].calls
            &&& sum_for(all_step_pairs(r.scenarios@), s[i].text@) == s[i].total_ms
            &&& s[i].calls >= 1
        }
}

/// Aggregate the whole run's steps by text and keep the ten largest
/// totals, largest first.  Each kept entry carries the exact total,
/// call count and floored mean of its text; nothing dropped was larger
/// than what was kept.
pub fn aggregate_slowest_steps(result: &ExecutionResult) -> (top: Vec<SlowestStepInfo>)
    ensures
        top@.len() <= 10,
        slowest_sorted(top@),
        entries_are_groups(top@, *result),
        forall|i: int|
            0 <= i < top@.len() ==> (#[trigger] top@[i]).average_ms == sum_for(
                all_step_pairs(result.scenarios@),
                top@[i].text@,
            ) / count_for(all_step_pairs(result.scenarios@), top@[i].text@),
{
    let pairs = flatten_steps(&result.scenarios);
    let groups = group_pairs(&pairs);
    let ghost ps = all_step_pairs(result.scenarios@);
    let mut work: Vec<SlowestStepInfo> = Vec::new();
    let n = groups.len();
    for i in 0..n
        invariant
            n == groups@.len(),
            group_views(groups@) == groups_of(ps),
            ps == all_step_pairs(result.scenarios@),
            work@.len() == i,
            forall|k: int|
                0 <= k < i ==> {
                    &&& count_for(ps, (#[trigger] work@[k]).text@) == work@[k].calls
                    &&& sum_for(ps, work@[k].text@) == work@[k].total_ms
                    &&& work@[k].calls >= 1
                    &&& work@[k].average_ms == sum_for(ps, work@[k].text@) / count_for(
                        ps,
                        work@[k].text@,
                    )
                },
    {
        let g = &groups[i];
        proof {
            assert(group_views(groups@)[i as int] == groups_of(ps)[i as int]);
            let dt = crate::execution::comparison::dedup_up_to(
                crate::execution::comparison::texts_of(ps),
                ps.len() as int,
            );
            assert(groups_of(ps).len() == dt.len());
            assert(groups_of(ps)[i as int] == crate::execution::comparison::StepGroupModel {
                text: dt[i as int],
                total: sum_for(ps, dt[i as int]),
                count: count_for(ps, dt[i as int]),
            });
            assert(g.text@ == dt[i as int]);
            crate::execution::comparison::lemma_dedup_contains(
                crate::execution::comparison::texts_of(ps),
                ps.len() as int,
                g.text@,
            );
            assert(dt.contains(dt[i as int]));
            assert(crate::execution::comparison::texts_of(ps).take(ps.len() as int)
                =~= crate::execution::comparison::texts_of(ps));
            crate::execution::comparison::lemma_contains_count(ps, g.text@);
            crate::execution::comparison::lemma_sum_count_bounds(ps, g.text@);
        }
        let avg_wide = g.total / (g.count as u128);
        proof {
            lemma_fundamental_div_mod(g.total as int, g.count as int);
            assert((g.count as int) * (avg_wide as int) <= g.total as int);
            assert(avg_wide as int <= u64::MAX as int) by (nonlinear_arith)
                requires
                    (g.count as int) * (avg_wide as int) <= g.total as int,
                    g.total as int <= (g.count as int) * (u64::MAX as int),
                    1 <= g.count as int,
            ;
        }
        let avg = avg_wide as u64;
        work.push(
            SlowestStepInfo {
                text: g.text.clone(),
                total_ms: g.total,
                calls: g.count,
                average_ms: avg,
            },
        );
    }
    // keep the ten largest totals, largest first
    let mut top: Vec<SlowestStepInfo> = Vec::new();
    while top.len() < 10 && work.len() > 0
        invariant
            top@.len() <= 10,
            slowest_sorted(top@),
            forall|k: int|
                0 <= k < top@.len() ==> {
                    &&& count_for(ps, (#[trigger] top@[k]).text@) == top@[k].calls
                    &&& sum_for(ps, top@[k].text@) == top@[k].total_ms
                    &&& top@[k].calls >= 1
                    &&& top@[k].average_ms == sum_for(ps, top@[k].text@) / count_for(
                        ps,
                        top@[k].text@,
                    )
                },
            forall|k: int|
                0 <= k < work@.len() ==> {
                    &&& count_for(ps, (#[trigger] work@[k]).text@) == work@[k].calls
                    &&& sum_for(ps, work@[k].text@) == work@[k].total_ms
                    &&& work@[k].calls >= 1
                    &&& work@[k].average_ms == sum_for(ps, work@[k].text@) / count_for(
                        ps,
                        work@[k].text@,
                    )
                },
            forall|a: int, b: int|
                0 <= a < top@.len() && 0 <= b < work@.len() ==> (#[trigger] top@[a]).total_ms
                    >= (#[trigger] work@[b]).total_ms,
            ps == all_step_pairs(result.scenarios@),
        decreases work@.len(),
    {
        let m = work.len();
        let mut bi: usize = 0;
        let mut k: usize = 1;
        while k < m
            invariant
                bi < k <= m,
                m == work@.len(),
                forall|t: int| 0 <= t < k ==> (#[trigger] work@[t]).total_ms
                    <= work@[bi as int].total_ms,
            decreases m - k,
        {
            if work[k].total_ms > work[bi].total_ms {
                bi = k;
            }
            k = k + 1;
        }
        let ghost w0 = work@;
        let ghost t0 = top@;
        let picked = work.remove(bi);
        top.push(picked);
        proof {
            assert(work@ =~= w0.remove(bi as int));
            assert forall|a: int, b: int|
                0 <= a < top@.len() && 0 <= b < work@.len() implies (
            #[trigger] top@[a]).total_ms >= (#[trigger] work@[b]).total_ms by {
                let orig = if b < bi { w0[b] } else { w0[b + 1] };
                assert(work@[b] == orig);
                if a < t0.len() {
                    assert(top@[a] == t0[a]);
                } else {
                    assert(top@[a] == w0[bi as int]);
                }
            }
        }
    }
    top
}

/// The index of the slowest scenario, the latest of the maxima; -1 when
/// there is none.
pub open spec fn slowest_scenario_index(ms: Seq<ScenarioMetrics>) -> int
    decreases ms.len(),
{
    if ms.len() == 0 {
        -1
    } else if ms.len() == 1 {
        0
    } else {
        let pre = slowest_scenario_index(ms.drop_last());
        if ms.last().duration_ms >= ms[pre].duration_ms {
            ms.len() - 1
        } else {
            pre
        }
    }
}

/// Read the bottlenecks: the slowest aggregated step, the slowest
/// scenario, and suggestion lines derived from them.
pub fn analyze_bottlenecks(slowest_steps: &Vec<SlowestStepInfo>, scenarios: &Vec<
    ScenarioMetrics,
>) -> (b: BottleneckAnalysis)
    requires
        slowest_sorted(slowest_steps@),
    ensures
        b.top_bottleneck is Some <==> slowest_steps@.len() > 0,
        b.top_bottleneck matches Some(t) ==> t@ == slowest_steps@[0].text@,
        b.slow_scenario is Some <==> scenarios@.len() > 0,
        b.slow_scenario matches Some(s) ==> s@ == scenarios@[slowest_scenario_index(
            scenarios@,
        )].name@,
{
    let mut suggestions: Vec<String> = Vec::new();
    let mut top_bottleneck: Option<String> = None;
    let mut slow_scenario: Option<String> = None;
    if slowest_steps.len() > 0 {
        let first = &slowest_steps[0];
        top_bottleneck = Some(first.text.clone());
        if contains_fold(first.text.as_str(), "navigate", false) || contains_fold(
            first.text.as_str(),
            "wait",
            false,
        ) {
            let mut s = String::from_str("The '");
            s.append(first.text.as_str());
            s.append("' step takes ");
            let t = u128_to_string(first.total_ms);
            s.append(t.as_str());
            s.append("ms - consider reducing wait times or optimizing navigation");
            suggestions.push(s);
        }
        if contains_fold(first.text.as_str(), "click", false) {
            suggestions.push(
                String::from_str(
                    "Click operations are slow - verify element selectors and page responsiveness",
                ),
            );
        }
    }
    if scenarios.len() > 0 {
        let mut si: usize = 0;
        let n = scenarios.len();
        let mut k: usize = 1;
        while k < n
            invariant
                si < k <= n,
                n == scenarios@.len(),
                si == slowest_scenario_index(scenarios@.take(k as int)),
            decreases n - k,
        {
            proof {
                assert(scenarios@.take(k + 1).drop_last() =~= scenarios@.take(k as int));
                assert(scenarios@.take(k + 1).last() == scenarios@[k as int]);
            }
            if scenarios[k].duration_ms >= scenarios[si].duration_ms {
                si = k;
            }
            k = k + 1;
        }
        proof {
            assert(scenarios@.take(n as int) =~= scenarios@);
        }
        let slow = &scenarios[si];
        slow_scenario = Some(slow.name.clone());
        let mut s = String::from_str("Scenario '");
        s.append(slow.name.as_str());
        s.append("' is the slowest at ");
        let d = u64_to_string(slow.duration_ms);
        s.append(d.as_str());
        s.append("ms");
        suggestions.push(s);
    }
    if slowest_steps.len() > 1 {
        let diff_big = slowest_steps[0].total_ms - slowest_steps[1].total_ms > 1000;
        if diff_big {
            let mut s = String::from_str("Step '");
            s.append(slowest_steps[0].text.as_str());
            s.append("' is ");
            let d = u128_to_string(slowest_steps[0].total_ms - slowest_steps[1].total_ms);
            s.append(d.as_str());
            s.append("ms slower than the next slowest step - investigate this outlier");
            suggestions.push(s);
        }
    }
    BottleneckAnalysis { top_bottleneck, suggestions, slow_scenario }
}

/// Profile a whole run.
pub fn analyze_execution(result: &ExecutionResult) -> (m: ProfilingMetrics)
    ensures
        m.total_duration_ms == result.duration_ms,
        m.scenarios@.len() == result.scenarios@.len(),
        forall|i: int|
            0 <= i < m.scenarios@.len() ==> (#[trigger] m.scenarios@[i]).name@
                == result.scenarios@[i].name@ && m.scenarios@[i].duration_ms
                == result.scenarios@[i].duration_ms && m.scenarios@[i].step_count
                == result.scenarios@[i].steps@.len(),
        m.slowest_steps@.len() <= 10,
        slowest_sorted(m.slowest_steps@),
        entries_are_groups(m.slowest_steps@, *result),
{
    let mut scenarios: Vec<ScenarioMetrics> = Vec::new();
    let n = result.scenarios.len();
    for i in 0..n
        invariant
            n == result.scenarios@.len(),
            scenarios@.len() == i,
            forall|k: int|
                0 <= k < i ==> (#[trigger] scenarios@[k]).name@ == result.scenarios@[k].name@
                    && scenarios@[k].duration_ms == result.scenarios@[k].duration_ms
                    && scenarios@[k].step_count == result.scenarios@[k].steps@.len(),
    {
        scenarios.push(analyze_scenario(&result.scenarios[i]));
    }
    let slowest_steps = aggregate_slowest_steps(result);
    let bottleneck_analysis = analyze_bottlenecks(&slowest_steps, &scenarios);
    ProfilingMetrics {
        total_duration_ms: result.duration_ms,
        scenarios,
        slowest_steps,
        bottleneck_analysis,
    }
}

} // verus!
