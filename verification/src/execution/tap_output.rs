//! TAP (Test Anything Protocol) output and parsing.
//!
//! A report is a version header, a `1..N` plan line (N scenarios), one
//! `ok {n} {name}` or `not ok {n} {name}` line per scenario in order, and
//! an indented diagnostic block naming the first failing step of a failed
//! scenario.  The parser recovers the version, the plan and the pass/fail
//! counts from such text.

use vstd::prelude::*;
use vstd::string::StringExecFns;
use crate::execution::result::{ExecutionResult, ScenarioResult, Status, StepResult};
use crate::text::{first_nl_from, lines_from, lines_of, lemma_first_nl, parse_usize,
    spec_digits, spec_parse_digits, spec_starts_with, spec_trim, starts_with, trim,
    usize_to_string};

verus! {

/// Index of the first step that did not pass, or -1.
pub open spec fn first_non_passed(steps: Seq<StepResult>, i: int) -> int
    decreases steps.len() - i,
{
    if i < 0 || i >= steps.len() {
        -1
    } else if steps[i].status != Status::Passed {
        i
    } else {
        first_non_passed(steps, i + 1)
    }
}

/// The diagnostic block of one scenario: present only when the scenario
/// did not pass and one of its steps did not pass.
pub open spec fn spec_tap_diag(sc: ScenarioResult) -> Seq<char> {
    if sc.status != Status::Passed && sc.steps@.len() > 0 && first_non_passed(sc.steps@, 0)
        >= 0 {
        "  ---\n  message: |\n    Step failed: "@ + sc.steps@[first_non_passed(
            sc.steps@,
            0,
        )].text@ + "\n  ...\n"@
    } else {
        Seq::empty()
    }
}

/// The test lines of the first `n` scenarios, numbered from 1.
pub open spec fn spec_tap_lines(scenarios: Seq<ScenarioResult>, n: int) -> Seq<char>
    decreases n,
{
    if n <= 0 {
        Seq::empty()
    } else {
        let sc = scenarios[n - 1];
        spec_tap_lines(scenarios, n - 1) + (if sc.status == Status::Passed {
            "ok "@
        } else {
            "not ok "@
        }) + spec_digits(n) + " "@ + sc.name@ + "\n"@ + spec_tap_diag(sc)
    }
}

/// The whole TAP report of a run.
pub open spec fn spec_to_tap(r: ExecutionResult) -> Seq<char> {
    "TAP version 13\n1.."@ + spec_digits(r.scenarios@.len() as int) + "\n"@ + (
    match r.feature.file {
        Some(f) => "# File: "@ + f@ + "\n"@,
        None => Seq::empty(),
    }) + spec_tap_lines(r.scenarios@, r.scenarios@.len() as int)
}

/// Scan a scenario's steps for the first that did not pass.
fn find_non_passed(steps: &Vec<StepResult>) -> (r: Option<usize>)
    ensures
        match r {
            Some(i) => i < steps@.len() && first_non_passed(steps@, 0) == i,
            None => first_non_passed(steps@, 0) == -1,
        },
{
    let n = steps.len();
    let mut i: usize = 0;
    while i < n
        invariant
            i <= n,
            n == steps@.len(),
            first_non_passed(steps@, 0) == first_non_passed(steps@, i as int),
        decreases n - i,
    {
        if steps[i].status != Status::Passed {
            return Some(i);
        }
        i = i + 1;
    }
    None
}

/// Render a run as a TAP report.
#[verifier::rlimit(60)]
pub fn to_tap_output(result: &ExecutionResult) -> (out: String)
    ensures
        out@ == spec_to_tap(*result),
{
    let mut out = String::from_str("TAP version 13\n1..");
    let count = usize_to_string(result.scenarios.len());
    out.append(count.as_str());
    out.append("\n");
    match &result.feature.file {
        Some(f) => {
            out.append("# File: ");
            out.append(f.as_str());
            out.append("\n");
        },
        None => {},
    }
    let ghost header = out@;
    let n = result.scenarios.len();
    for i in 0..n
        invariant
            n == result.scenarios@.len(),
            out@ == header + spec_tap_lines(result.scenarios@, i as int),
    {
        let sc = &result.scenarios[i];
        if sc.status == Status::Passed {
            out.append("ok ");
        } else {
            out.append("not ok ");
        }
        let num = usize_to_string(i + 1);
        out.append(num.as_str());
        out.append(" ");
        out.append(sc.name.as_str());
        out.append("\n");
        if sc.status != Status::Passed && sc.steps.len() > 0 {
            match find_non_passed(&sc.steps) {
                Some(fi) => {
                    out.append("  ---\n  message: |\n    Step failed: ");
                    out.append(sc.steps[fi].text.as_str());
                    out.append("\n  ...\n");
                },
                None => {},
            }
        }
        proof {
            assert(out@ =~= header + spec_tap_lines(result.scenarios@, i + 1));
        }
    }
    proof {
        assert(out@ =~= spec_to_tap(*result));
    }
    out
}

/// Summary statistics recovered from TAP text.
#[derive(Debug, Clone)]
pub struct TapSummary {
    pub version: String,
    pub total: usize,
    pub passed: usize,
    pub failed: usize,
}

impl TapSummary {
    /// The text reported no failing test.
    pub fn success(&self) -> (r: bool)
        ensures
            r == (self.failed == 0),
    {
        self.failed == 0
    }
}

/// The version token of a header line: the text after "TAP version",
/// leading blanks dropped, up to the next blank; "13" when empty.
pub open spec fn spec_version_token(t: Seq<char>) -> Seq<char> {
    let rest = spec_trim(t.subrange(11, t.len() as int));
    let tok = rest.subrange(0, first_space_from(rest, 0));
    if tok.len() == 0 {
        "13"@
    } else {
        tok
    }
}

/// Index of the first blank at or after `i`, or the length.
pub open spec fn first_space_from(s: Seq<char>, i: int) -> int
    decreases s.len() - i,
{
    if i < 0 || i >= s.len() {
        s.len() as int
    } else if s[i] == ' ' || s[i] == '\t' {
        i
    } else {
        first_space_from(s, i + 1)
    }
}

proof fn lemma_first_space(s: Seq<char>, i: int)
    requires
        0 <= i <= s.len(),
    ensures
        i <= first_space_from(s, i) <= s.len(),
    decreases s.len() - i,
{
    if i < s.len() && !(s[i] == ' ' || s[i] == '\t') {
        lemma_first_space(s, i + 1);
    }
}

/// The running (version, total, passed, failed) after the first `n`
/// lines.
pub open spec fn spec_tap_fold(lines: Seq<Seq<char>>, n: int) -> (Seq<char>, int, int, int)
    decreases n,
{
    if n <= 0 {
        ("13"@, 0, 0, 0)
    } else {
        let (v, tot, p, f) = spec_tap_fold(lines, n - 1);
        let t = spec_trim(lines[n - 1]);
        let v2 = if spec_starts_with(t, "TAP version"@) {
            spec_version_token(t)
        } else {
            v
        };
        let tot2 = if spec_starts_with(t, "1.."@) {
            match spec_parse_digits(t.subrange(3, t.len() as int)) {
                Some(x) => if 0 <= x <= usize::MAX {
                    x
                } else {
                    tot
                },
                None => tot,
            }
        } else {
            tot
        };
        let p2 = if spec_starts_with(t, "ok "@) {
            p + 1
        } else {
            p
        };
        let f2 = if !spec_starts_with(t, "ok "@) && spec_starts_with(t, "not ok "@) {
            f + 1
        } else {
            f
        };
        (v2, tot2, p2, f2)
    }
}

/// What a TAP parse of the text recovers.
pub open spec fn spec_parse_tap(s: Seq<char>) -> (Seq<char>, int, int, int) {
    spec_tap_fold(lines_of(s), lines_of(s).len() as int)
}

/// Split text into lines at newlines; a trailing newline yields no empty
/// final line.
pub fn split_lines(s: &str) -> (r: Vec<String>)
    ensures
        r@.map_values(|l: String| l@) == lines_of(s@),
{
    let n = s.unicode_len();
    let mut r: Vec<String> = Vec::new();
    let mut start: usize = 0;
    let mut done = false;
    while start < n && !done
        invariant
            start <= n,
            n == s@.len(),
            !done ==> r@.map_values(|l: String| l@) + lines_from(s@, start as int)
                =~= lines_of(s@),
            done ==> r@.map_values(|l: String| l@) =~= lines_of(s@),
        decreases n - start, (if done {
            0int
        } else {
            1int
        }),
    {
        let mut j = start;
        while j < n && s.get_char(j) != '\n'
            invariant
                start <= j <= n,
                n == s@.len(),
                forall|k: int| start <= k < j ==> s@[k] != '\n',
            decreases n - j,
        {
            j = j + 1;
        }
        proof {
            lemma_first_nl_at(s@, start as int, j as int);
        }
        let ghost r0 = r@;
        let piece = String::from_str(s.substring_char(start, j));
        r.push(piece);
        proof {
            assert(r@.map_values(|l: String| l@) =~= r0.map_values(|l: String| l@).push(
                s@.subrange(start as int, j as int),
            ));
            assert(r@.map_values(|l: String| l@) + lines_from(s@, j + 1) =~= lines_of(s@));
        }
        if j < n {
            start = j + 1;
        } else {
            proof {
                assert(lines_from(s@, n as int) =~= Seq::<Seq<char>>::empty());
                assert(r@.map_values(|l: String| l@) =~= lines_of(s@));
            }
            done = true;
        }
    }
    proof {
        if !done {
            assert(lines_from(s@, start as int) =~= Seq::<Seq<char>>::empty());
        }
        assert(r@.map_values(|l: String| l@) =~= lines_of(s@));
    }
    r
}

proof fn lemma_first_nl_at(s: Seq<char>, i: int, j: int)
    requires
        0 <= i <= j <= s.len(),
        forall|k: int| i <= k < j ==> s[k] != '\n',
        j < s.len() ==> s[j] == '\n',
    ensures
        first_nl_from(s, i) == j,
    decreases j - i,
{
    if i < j {
        lemma_first_nl_at(s, i + 1, j);
    }
}

/// Recover the version, the plan and the pass/fail counts from TAP text.
pub fn parse_tap_output(tap_text: &str) -> (summary: TapSummary)
    ensures
        summary.version@ == spec_parse_tap(tap_text@).0,
        summary.total == spec_parse_tap(tap_text@).1,
        summary.passed == spec_parse_tap(tap_text@).2,
        summary.failed == spec_parse_tap(tap_text@).3,
{
    let lines = split_lines(tap_text);
    let ghost ls = lines@.map_values(|l: String| l@);
    let mut version = String::from_str("13");
    let mut total: usize = 0;
    let mut passed: usize = 0;
    let mut failed: usize = 0;
    let n = lines.len();
    for i in 0..n
        invariant
            n == ls.len(),
            lines@.map_values(|l: String| l@) == ls,
            n == lines@.len(),
            version@ == spec_tap_fold(ls, i as int).0,
            total == spec_tap_fold(ls, i as int).1,
            passed == spec_tap_fold(ls, i as int).2,
            failed == spec_tap_fold(ls, i as int).3,
            passed <= i,
            failed <= i,
    {
        proof {
            assert(lines@[i as int]@ == ls[i as int]);
        }
        let t = trim(lines[i].as_str());
        proof {
            reveal_strlit("TAP version");
            reveal_strlit("1..");
            reveal_strlit("ok ");
            reveal_strlit("not ok ");
            reveal_strlit("13");
        }
        if starts_with(t.as_str(), "TAP version") {
            version = version_token(&t);
        }
        if starts_with(t.as_str(), "1..") {
            let rest = t.as_str().substring_char(3, t.as_str().unicode_len());
            proof {
                assert(rest@ =~= t@.subrange(3, t@.len() as int));
            }
            match parse_usize(rest) {
                Some(x) => {
                    total = x;
                },
                None => {},
            }
        }
        if starts_with(t.as_str(), "ok ") {
            passed = passed + 1;
        } else if starts_with(t.as_str(), "not ok ") {
            failed = failed + 1;
        }
    }
    TapSummary { version, total, passed, failed }
}

fn is_blank(c: char) -> (r: bool)
    ensures
        r == (c == ' ' || c == '\t'),
{
    c == ' ' || c == '\t'
}

/// Extract the version token of a header line.
fn version_token(t: &String) -> (v: String)
    requires
        t@.len() >= 11,
    ensures
        v@ == spec_version_token(t@),
{
    let n = t.as_str().unicode_len();
    let tail = t.as_str().substring_char(11, n);
    proof {
        assert(tail@ =~= t@.subrange(11, t@.len() as int));
    }
    let rest = trim(tail);
    let rn = rest.as_str().unicode_len();
    let mut j: usize = 0;
    while j < rn && !is_blank(rest.as_str().get_char(j))
        invariant
            j <= rn,
            rn == rest@.len(),
            forall|k: int| 0 <= k < j ==> !(rest@[k] == ' ' || rest@[k] == '\t'),
        decreases rn - j,
    {
        j = j + 1;
    }
    proof {
        lemma_first_space_at(rest@, 0, j as int);
    }
    if j == 0 {
        proof {
            reveal_strlit("13");
        }
        let v = String::from_str("13");
        proof {
            assert(rest@.subrange(0, 0).len() == 0);
        }
        v
    } else {
        let tok = String::from_str(rest.as_str().substring_char(0, j));
        proof {
            assert(tok@ =~= rest@.subrange(0, first_space_from(rest@, 0)));
        }
        tok
    }
}

proof fn lemma_first_space_at(s: Seq<char>, i: int, j: int)
    requires
        0 <= i <= j <= s.len(),
        forall|k: int| i <= k < j ==> !(s[k] == ' ' || s[k] == '\t'),
        j < s.len() ==> (s[j] == ' ' || s[j] == '\t'),
    ensures
        first_space_from(s, i) == j,
    decreases j - i,
{
    if i < j {
        lemma_first_space_at(s, i + 1, j);
    }
}

} // verus!
