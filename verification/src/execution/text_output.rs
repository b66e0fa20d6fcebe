//! The plain-text report of one run: feature header, every scenario with
//! its steps, step errors with their suggestions, and the rollup summary.

use vstd::prelude::*;
use vstd::string::StringExecFns;
use crate::execution::result::{ExecutionResult, ExecutionSummary, ScenarioResult, Status,
    StepResult};
use crate::text::{spec_digits, u64_to_string, usize_to_string};

verus! {

/// The marker printed before a step.
pub open spec fn spec_step_symbol(st: Status) -> Seq<char> {
    match st {
        Status::Passed => "+"@,
        Status::Failed => "x"@,
        Status::Skipped => "-"@,
        Status::Pending => "?"@,
    }
}

/// The suggestion lines of a step error.
pub open spec fn spec_suggestion_lines(sg: Seq<String>, n: int) -> Seq<char>
    decreases n,
{
    if n <= 0 {
        Seq::empty()
    } else {
        spec_suggestion_lines(sg, n - 1) + "          - "@ + sg[n - 1]@ + "\n"@
    }
}

/// The first line of a step: marker, number, keyword and text.
pub open spec fn spec_step_head(step: StepResult, number: int) -> Seq<char> {
    "     "@ + spec_step_symbol(step.status) + " "@ + spec_digits(number) + ". "@
        + step.keyword@ + " "@ + step.text@ + "\n"@
}

/// The error lines of a step, message first, suggestions after.
pub open spec fn spec_error_part(step: StepResult) -> Seq<char> {
    match step.error {
        Some(e) => "        Error: "@ + e.message@ + "\n"@ + (if e.suggestions@.len() > 0 {
            "        Suggestions:\n"@ + spec_suggestion_lines(
                e.suggestions@,
                e.suggestions@.len() as int,
            )
        } else {
            Seq::empty()
        }),
        None => Seq::empty(),
    }
}

/// The output line of a step, shown only when non-empty.
pub open spec fn spec_output_part(step: StepResult) -> Seq<char> {
    match step.output {
        Some(o) => if o@.len() > 0 {
            "        Output: "@ + o@ + "\n"@
        } else {
            Seq::empty()
        },
        None => Seq::empty(),
    }
}

/// One step's lines.
pub open spec fn spec_step_block(step: StepResult, number: int) -> Seq<char> {
    spec_step_head(step, number) + spec_error_part(step) + spec_output_part(step)
}

/// The step lines of the first `n` steps of a scenario.
pub open spec fn spec_step_blocks(steps: Seq<StepResult>, n: int) -> Seq<char>
    decreases n,
{
    if n <= 0 {
        Seq::empty()
    } else {
        spec_step_blocks(steps, n - 1) + spec_step_block(steps[n - 1], n)
    }
}

/// A scenario's heading: number, name, status and duration lines.
pub open spec fn spec_scenario_head(sc: ScenarioResult, number: int) -> Seq<char> {
    "\n  "@ + spec_digits(number) + ". "@ + sc.name@ + " ["@ + sc.status.spec_label() + "]\n"@
        + "     Duration: "@ + spec_digits(sc.duration_ms as int) + "ms\n"@
}

/// One scenario's lines.
pub open spec fn spec_scenario_block(sc: ScenarioResult, number: int) -> Seq<char> {
    spec_scenario_head(sc, number) + spec_step_blocks(sc.steps@, sc.steps@.len() as int)
}

/// The scenario blocks of the first `n` scenarios.
pub open spec fn spec_scenario_blocks(scenarios: Seq<ScenarioResult>, n: int) -> Seq<char>
    decreases n,
{
    if n <= 0 {
        Seq::empty()
    } else {
        spec_scenario_blocks(scenarios, n - 1) + spec_scenario_block(scenarios[n - 1], n)
    }
}

/// The feature lines at the report's top.
pub open spec fn spec_feature_part(r: ExecutionResult) -> Seq<char> {
    "=== Execution Report ===\n\nFeature: "@ + r.feature.name@ + "\n"@ + (
    match r.feature.file {
        Some(f) => "File: "@ + f@ + "\n"@,
        None => Seq::empty(),
    }) + (match r.feature.description {
        Some(d) => "Description: "@ + d@ + "\n"@,
        None => Seq::empty(),
    })
}

/// The run lines after the feature data.
pub open spec fn spec_run_part(r: ExecutionResult) -> Seq<char> {
    "Status: "@ + r.status.spec_label() + "\n"@ + "Duration: "@ + spec_digits(
        r.duration_ms as int,
    ) + "ms\n"@ + "Timestamp: "@ + r.timestamp@ + "\n\n"@ + "Scenarios: "@ + spec_digits(
        r.scenarios@.len() as int,
    ) + "\n"@
}

/// The report heading: feature data, run status, duration, timestamp and
/// the scenario count.
pub open spec fn spec_report_head(r: ExecutionResult) -> Seq<char> {
    spec_feature_part(r) + spec_run_part(r)
}

/// The rollup lines at the report's end.
pub open spec fn spec_summary_part(s: ExecutionSummary) -> Seq<char> {
    "\n=== Summary ===\n"@ + "Scenarios: "@ + spec_digits(s.passed_scenarios as int)
        + " passed, "@ + spec_digits(s.failed_scenarios as int) + " failed, "@ + spec_digits(
        s.skipped_scenarios as int,
    ) + " skipped (total: "@ + spec_digits(s.total_scenarios as int) + ")\n"@ + "Steps: "@
        + spec_digits(s.passed_steps as int) + " passed, "@ + spec_digits(
        s.failed_steps as int,
    ) + " failed, "@ + spec_digits(s.skipped_steps as int) + " skipped (total: "@
        + spec_digits(s.total_steps as int) + ")\n"@
}

/// The whole plain-text report of a run.
pub open spec fn spec_text_output(r: ExecutionResult) -> Seq<char> {
    spec_report_head(r) + spec_scenario_blocks(r.scenarios@, r.scenarios@.len() as int)
        + spec_summary_part(r.summary)
}

fn append_step_head(out: &mut String, step: &StepResult, number: usize)
    ensures
        final(out)@ == old(out)@ + spec_step_head(*step, number as int),
{
    out.append("     ");
    match step.status {
        Status::Passed => out.append("+"),
        Status::Failed => out.append("x"),
        Status::Skipped => out.append("-"),
        Status::Pending => out.append("?"),
    }
    out.append(" ");
    let num = usize_to_string(number);
    out.append(num.as_str());
    out.append(". ");
    out.append(step.keyword.as_str());
    out.append(" ");
    out.append(step.text.as_str());
    out.append("\n");
    proof {
        assert(out@ =~= old(out)@ + spec_step_head(*step, number as int));
    }
}

fn append_error_part(out: &mut String, step: &StepResult)
    ensures
        final(out)@ == old(out)@ + spec_error_part(*step),
{
    match &step.error {
        Some(e) => {
            out.append("        Error: ");
            out.append(e.message.as_str());
            out.append("\n");
            if e.suggestions.len() > 0 {
                out.append("        Suggestions:\n");
                let ghost base = out@;
                let m = e.suggestions.len();
                for j in 0..m
                    invariant
                        m == e.suggestions@.len(),
                        out@ == base + spec_suggestion_lines(e.suggestions@, j as int),
                {
                    out.append("          - ");
                    out.append(e.suggestions[j].as_str());
                    out.append("\n");
                    proof {
                        assert(out@ =~= base + spec_suggestion_lines(e.suggestions@, j + 1));
                    }
                }
            }
            proof {
                assert(out@ =~= old(out)@ + spec_error_part(*step));
            }
        },
        None => {
            proof {
                assert(out@ =~= old(out)@ + spec_error_part(*step));
            }
        },
    }
}

fn append_output_part(out: &mut String, step: &StepResult)
    ensures
        final(out)@ == old(out)@ + spec_output_part(*step),
{
    match &step.output {
        Some(o) => {
            if o.as_str().unicode_len() > 0 {
                out.append("        Output: ");
                out.append(o.as_str());
                out.append("\n");
            }
        },
        None => {},
    }
    proof {
        assert(out@ =~= old(out)@ + spec_output_part(*step));
    }
}

fn append_step_block(out: &mut String, step: &StepResult, number: usize)
    ensures
        final(out)@ == old(out)@ + spec_step_block(*step, number as int),
{
    append_step_head(out, step, number);
    append_error_part(out, step);
    append_output_part(out, step);
    proof {
        assert(out@ =~= old(out)@ + spec_step_block(*step, number as int));
    }
}

fn append_scenario_head(out: &mut String, sc: &ScenarioResult, number: usize)
    ensures
        final(out)@ == old(out)@ + spec_scenario_head(*sc, number as int),
{
    out.append("\n  ");
    let num = usize_to_string(number);
    out.append(num.as_str());
    out.append(". ");
    out.append(sc.name.as_str());
    out.append(" [");
    out.append(sc.status.label());
    out.append("]\n");
    out.append("     Duration: ");
    let sdur = u64_to_string(sc.duration_ms);
    out.append(sdur.as_str());
    out.append("ms\n");
    proof {
        assert(out@ =~= old(out)@ + spec_scenario_head(*sc, number as int));
    }
}

fn append_feature_part(out: &mut String, result: &ExecutionResult)
    ensures
        final(out)@ == old(out)@ + spec_feature_part(*result),
{
    out.append("=== Execution Report ===\n\nFeature: ");
    out.append(result.feature.name.as_str());
    out.append("\n");
    match &result.feature.file {
        Some(f) => {
            out.append("File: ");
            out.append(f.as_str());
            out.append("\n");
        },
        None => {},
    }
    match &result.feature.description {
        Some(d) => {
            out.append("Description: ");
            out.append(d.as_str());
            out.append("\n");
        },
        None => {},
    }
    proof {
        assert(out@ =~= old(out)@ + spec_feature_part(*result));
    }
}

fn append_run_part(out: &mut String, result: &ExecutionResult)
    ensures
        final(out)@ == old(out)@ + spec_run_part(*result),
{
    out.append("Status: ");
    out.append(result.status.label());
    out.append("\n");
    out.append("Duration: ");
    let dur = u64_to_string(result.duration_ms);
    out.append(dur.as_str());
    out.append("ms\n");
    out.append("Timestamp: ");
    out.append(result.timestamp.as_str());
    out.append("\n\n");
    out.append("Scenarios: ");
    let count = usize_to_string(result.scenarios.len());
    out.append(count.as_str());
    out.append("\n");
    proof {
        assert(out@ =~= old(out)@ + spec_run_part(*result));
    }
}

fn append_report_head(out: &mut String, result: &ExecutionResult)
    ensures
        final(out)@ == old(out)@ + spec_report_head(*result),
{
    append_feature_part(out, result);
    append_run_part(out, result);
    proof {
        assert(out@ =~= old(out)@ + spec_report_head(*result));
    }
}

fn append_summary_part(out: &mut String, s: &ExecutionSummary)
    ensures
        final(out)@ == old(out)@ + spec_summary_part(*s),
{
    out.append("\n=== Summary ===\n");
    out.append("Scenarios: ");
    let a = usize_to_string(s.passed_scenarios);
    out.append(a.as_str());
    out.append(" passed, ");
    let b = usize_to_string(s.failed_scenarios);
    out.append(b.as_str());
    out.append(" failed, ");
    let c = usize_to_string(s.skipped_scenarios);
    out.append(c.as_str());
    out.append(" skipped (total: ");
    let d = usize_to_string(s.total_scenarios);
    out.append(d.as_str());
    out.append(")\n");
    out.append("Steps: ");
    let e = usize_to_string(s.passed_steps);
    out.append(e.as_str());
    out.append(" passed, ");
    let f = usize_to_string(s.failed_steps);
    out.append(f.as_str());
    out.append(" failed, ");
    let g = usize_to_string(s.skipped_steps);
    out.append(g.as_str());
    out.append(" skipped (total: ");
    let h = usize_to_string(s.total_steps);
    out.append(h.as_str());
    out.append(")\n");
    proof {
        assert(out@ =~= old(out)@ + spec_summary_part(*s));
    }
}

/// Render a run as a plain-text report.
pub fn to_text_output(result: &ExecutionResult) -> (out: String)
    ensures
        out@ == spec_text_output(*result),
{
    let mut out = String::new();
    append_report_head(&mut out, result);
    let ghost header = out@;
    let n = result.scenarios.len();
    for i in 0..n
        invariant
            n == result.scenarios@.len(),
            out@ == header + spec_scenario_blocks(result.scenarios@, i as int),
    {
        let sc = &result.scenarios[i];
        let ghost before = out@;
        append_scenario_head(&mut out, sc, i + 1);
        let ghost sc_base = out@;
        let m = sc.steps.len();
        for j in 0..m
            invariant
                m == sc.steps@.len(),
                out@ == sc_base + spec_step_blocks(sc.steps@, j as int),
        {
            append_step_block(&mut out, &sc.steps[j], j + 1);
            proof {
                assert(out@ =~= sc_base + spec_step_blocks(sc.steps@, j + 1));
            }
        }
        proof {
            assert(out@ =~= header + spec_scenario_blocks(result.scenarios@, i + 1));
        }
    }
    append_summary_part(&mut out, &result.summary);
    proof {
        assert(out@ =~= spec_text_output(*result));
    }
    out
}

} // verus!
