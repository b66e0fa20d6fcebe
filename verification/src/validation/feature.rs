//! Feature-text validation: the text must declare a feature, should
//! declare scenarios, and every step line must match a known pattern.

use vstd::prelude::*;
use vstd::string::StringExecFns;
use crate::discovery::catalog::{build_step_catalog, spec_canonical_catalog, StepCatalog,
    StepInfo};
use crate::validation::step::catalog_knows;
use crate::text::{contains_fold, lines_of, spec_contains_fold, spec_starts_with, starts_with,
    trim};
use crate::validation::errors::{ValidationError, ValidationResult, ValidationWarning};
use crate::validation::step::validate_step;

verus! {

/// The trimmed line is a step line: it opens with a step keyword.
pub open spec fn spec_is_step_line(t: Seq<char>) -> bool {
    ||| spec_starts_with(t, "Given "@)
    ||| spec_starts_with(t, "When "@)
    ||| spec_starts_with(t, "Then "@)
    ||| spec_starts_with(t, "And "@)
    ||| spec_starts_with(t, "But "@)
}

/// Does this trimmed line open with a step keyword?
pub fn is_step_line(line: &str) -> (r: bool)
    ensures
        r == spec_is_step_line(line@),
{
    proof {
        reveal_strlit("Given ");
        reveal_strlit("When ");
        reveal_strlit("Then ");
        reveal_strlit("And ");
        reveal_strlit("But ");
    }
    starts_with(line, "Given ") || starts_with(line, "When ") || starts_with(line, "Then ")
        || starts_with(line, "And ") || starts_with(line, "But ")
}

/// What follows the keyword: the text after the first blank, or the
/// whole line when it has none.
pub open spec fn spec_step_text_of(t: Seq<char>) -> Seq<char> {
    let i = first_blank(t, 0);
    if i >= t.len() {
        t
    } else {
        t.subrange(i + 1, t.len() as int)
    }
}

pub open spec fn first_blank(s: Seq<char>, i: int) -> int
    decreases s.len() - i,
{
    if i < 0 || i >= s.len() {
        s.len() as int
    } else if s[i] == ' ' {
        i
    } else {
        first_blank(s, i + 1)
    }
}

proof fn lemma_first_blank_at(s: Seq<char>, i: int, j: int)
    requires
        0 <= i <= j <= s.len(),
        forall|k: int| i <= k < j ==> s[k] != ' ',
        j < s.len() ==> s[j] == ' ',
    ensures
        first_blank(s, i) == j,
    decreases j - i,
{
    if i < j {
        lemma_first_blank_at(s, i + 1, j);
    }
}

/// Strip the keyword from a trimmed step line.
pub fn extract_step_text(line: &str) -> (r: String)
    ensures
        r@ == spec_step_text_of(line@),
{
    let n = line.unicode_len();
    let mut i: usize = 0;
    while i < n && line.get_char(i) != ' '
        invariant
            i <= n,
            n == line@.len(),
            forall|k: int| 0 <= k < i ==> line@[k] != ' ',
        decreases n - i,
    {
        i = i + 1;
    }
    proof {
        lemma_first_blank_at(line@, 0, i as int);
    }
    if i == n {
        String::from_str(line)
    } else {
        let r = String::from_str(line.substring_char(i + 1, n));
        proof {
            assert(r@ =~= spec_step_text_of(line@));
        }
        r
    }
}

/// The running step count and the unknown steps among the first `n`
/// lines: every trimmed, non-comment step line raises the count, and
/// one whose extracted text the catalog rejects contributes a
/// (number, text) pair.
pub open spec fn spec_unknown_steps(
    cat: Seq<StepInfo>,
    lines: Seq<Seq<char>>,
    n: int,
) -> (int, Seq<(int, Seq<char>)>)
    decreases n,
{
    if n <= 0 {
        (0, Seq::empty())
    } else {
        let (cnt, errs) = spec_unknown_steps(cat, lines, n - 1);
        let t = crate::text::spec_trim(lines[n - 1]);
        if t.len() > 0 && t[0] != '#' && spec_is_step_line(t) {
            if catalog_knows(cat, spec_step_text_of(t)) {
                (cnt + 1, errs)
            } else {
                (cnt + 1, errs.push((cnt + 1, spec_step_text_of(t))))
            }
        } else {
            (cnt, errs)
        }
    }
}

/// The result's error list reflects the text, validated against the
/// given catalog: an optional leading `MISSING_FEATURE` entry, followed
/// by exactly one `UNKNOWN_STEP` entry per step line the catalog
/// rejects, in line order, each carrying the step's number, its text and
/// at least one suggestion.
pub open spec fn errors_reflect_catalog(
    cat: StepCatalog,
    content: Seq<char>,
    v: ValidationResult,
) -> bool {
    let missing = !spec_contains_fold(content, "Feature:"@, true);
    let offset: int = if missing {
        1
    } else {
        0
    };
    let pairs = spec_unknown_steps(cat.steps@, lines_of(content), lines_of(content).len() as int).1;
    &&& v.errors@.len() == offset + pairs.len()
    &&& (missing ==> v.errors@[0].error_type@ == "MISSING_FEATURE"@)
    &&& forall|i: int|
        0 <= i < pairs.len() ==> {
            &&& (#[trigger] v.errors@[offset + i]).error_type@ == "UNKNOWN_STEP"@
            &&& (v.errors@[offset + i].step_number matches Some(sn) && sn == pairs[i].0)
            &&& (v.errors@[offset + i].step_text matches Some(t) && t@ == pairs[i].1)
            &&& v.errors@[offset + i].message@ == "Step '"@ + pairs[i].1
                + "' does not match any registered pattern"@
            &&& v.errors@[offset + i].suggestions@.len() >= 1
        }
}

/// Validate a feature text against a given catalog.
///
/// The result records one `MISSING_FEATURE` error exactly when the text
/// nowhere holds "Feature:" (compared without regard to ASCII case),
/// one `NO_SCENARIOS` warning exactly when it nowhere holds
/// "Scenario:", and, after the optional missing-feature entry, exactly
/// one `UNKNOWN_STEP` error per trimmed non-comment step line whose
/// text the catalog rejects, in line order; it is valid exactly when it
/// holds no error.
pub fn validate_content_with(catalog: &StepCatalog, content: &str) -> (v: ValidationResult)
    ensures
        v.wf(),
        (exists|i: int|
            0 <= i < v.errors@.len() && (#[trigger] v.errors@[i]).error_type@
                == "MISSING_FEATURE"@) <==> !spec_contains_fold(content@, "Feature:"@, true),
        (exists|i: int|
            0 <= i < v.warnings@.len() && (#[trigger] v.warnings@[i]).warning_type@
                == "NO_SCENARIOS"@) <==> !spec_contains_fold(content@, "Scenario:"@, true),
        errors_reflect_catalog(*catalog, content@, v),
{
    proof {
        reveal_strlit("MISSING_FEATURE");
        reveal_strlit("UNKNOWN_STEP");
        reveal_strlit("NO_SCENARIOS");
    }
    let mut result = ValidationResult::new();
    let has_feature = contains_fold(content, "Feature:", true);
    let has_scenario = contains_fold(content, "Scenario:", true);
    if !has_feature {
        result.add_error(
            ValidationError::new(
                "MISSING_FEATURE",
                "Feature file must start with 'Feature:' declaration",
            ),
        );
    }
    if !has_scenario {
        result.add_warning(
            ValidationWarning::new("NO_SCENARIOS", "Feature file contains no scenarios"),
        );
    }
    let ghost offset: int = if !has_feature {
        1int
    } else {
        0int
    };
    proof {
        assert("UNKNOWN_STEP"@.len() == 12);
        assert("MISSING_FEATURE"@.len() == 15);
        if !has_feature {
            assert(result.errors@[0].error_type@ == "MISSING_FEATURE"@);
        } else {
            assert(result.errors@.len() == 0);
        }
        if !has_scenario {
            assert(result.warnings@[result.warnings@.len() - 1].warning_type@
                == "NO_SCENARIOS"@);
        } else {
            assert(result.warnings@.len() == 0);
        }
    }
    let lines = split_content_lines(content);
    let ghost ls = lines@.map_values(|l: String| l@);
    let ghost cs = catalog.steps@;
    let mut step_number: usize = 0;
    let n = lines.len();
    let ghost before_steps = result;
    for li in 0..n
        invariant
            n == lines@.len(),
            lines@.map_values(|l: String| l@) == ls,
            ls == lines_of(content@),
            cs == catalog.steps@,
            result.wf(),
            result.warnings == before_steps.warnings,
            offset == (if !spec_contains_fold(content@, "Feature:"@, true) {
                1int
            } else {
                0int
            }),
            (exists|i: int|
                0 <= i < result.errors@.len() && (#[trigger] result.errors@[i]).error_type@
                    == "MISSING_FEATURE"@) <==> !spec_contains_fold(
                content@,
                "Feature:"@,
                true,
            ),
            offset == 1 ==> result.errors@[0].error_type@ == "MISSING_FEATURE"@,
            step_number <= li,
            step_number == spec_unknown_steps(cs, ls, li as int).0,
            result.errors@.len() == offset + spec_unknown_steps(cs, ls, li as int).1.len(),
            forall|i: int|
                0 <= i < spec_unknown_steps(cs, ls, li as int).1.len() ==> {
                    &&& (#[trigger] result.errors@[offset + i]).error_type@ == "UNKNOWN_STEP"@
                    &&& (result.errors@[offset + i].step_number matches Some(sn) && sn
                        == spec_unknown_steps(cs, ls, li as int).1[i].0)
                    &&& (result.errors@[offset + i].step_text matches Some(t) && t@
                        == spec_unknown_steps(cs, ls, li as int).1[i].1)
                    &&& result.errors@[offset + i].message@ == "Step '"@ + spec_unknown_steps(
                        cs,
                        ls,
                        li as int,
                    ).1[i].1 + "' does not match any registered pattern"@
                    &&& result.errors@[offset + i].suggestions@.len() >= 1
                },
    {
        proof {
            reveal_strlit("MISSING_FEATURE");
            reveal_strlit("UNKNOWN_STEP");
            assert(lines@[li as int]@ == ls[li as int]);
        }
        let ghost pre_cnt = spec_unknown_steps(cs, ls, li as int).0;
        let ghost pre_errs = spec_unknown_steps(cs, ls, li as int).1;
        let trimmed = trim(lines[li].as_str());
        let tn = trimmed.as_str().unicode_len();
        if tn > 0 && trimmed.as_str().get_char(0) != '#' && is_step_line(trimmed.as_str()) {
            step_number = step_number + 1;
            let step_text = extract_step_text(trimmed.as_str());
            match validate_step(step_text.as_str(), step_number, &catalog) {
                Ok(_) => {},
                Err(error) => {
                    let ghost e0 = result.errors@;
                    result.add_error(error);
                    proof {
                        assert(forall|i: int|
                            0 <= i < e0.len() ==> result.errors@[i] == e0[i]);
                        assert("UNKNOWN_STEP"@.len() == 12);
                        assert("MISSING_FEATURE"@.len() == 15);
                        assert(result.errors@.last().error_type@ == "UNKNOWN_STEP"@);
                        if exists|i: int|
                            0 <= i < e0.len() && (#[trigger] e0[i]).error_type@
                                == "MISSING_FEATURE"@ {
                            let w = choose|w: int|
                                0 <= w < e0.len() && (#[trigger] e0[w]).error_type@
                                    == "MISSING_FEATURE"@;
                            assert(result.errors@[w].error_type@ == "MISSING_FEATURE"@);
                        }
                        if exists|i: int|
                            0 <= i < result.errors@.len() && (
                            #[trigger] result.errors@[i]).error_type@ == "MISSING_FEATURE"@ {
                            let w = choose|w: int|
                                0 <= w < result.errors@.len() && (
                                #[trigger] result.errors@[w]).error_type@
                                    == "MISSING_FEATURE"@;
                            if w < e0.len() {
                                assert(e0[w].error_type@ == "MISSING_FEATURE"@);
                            }
                        }
                    }
                },
            }
        }
        proof {
            assert(spec_unknown_steps(cs, ls, li + 1).0 == step_number);
            assert(result.errors@.len() == offset + spec_unknown_steps(cs, ls, li + 1).1.len());
        }
    }
    proof {
        assert(spec_unknown_steps(cs, ls, n as int).1 == spec_unknown_steps(
            cs,
            lines_of(content@),
            lines_of(content@).len() as int,
        ).1);
    }
    result
}

/// Validate a feature text against the canonical catalog: the
/// missing-feature error and the no-scenarios warning are tied to the
/// text, and the `UNKNOWN_STEP` errors reflect the step lines as
/// validated against the canonical catalog (the fixed table of
/// `build_step_catalog`; any two values of it agree entrywise).  The
/// outcome is always delivered.
pub fn validate_feature_content(content: &str) -> (r: Result<ValidationResult, String>)
    ensures
        r is Ok,
        r matches Ok(v) ==> {
            &&& v.wf()
            &&& (exists|i: int|
                0 <= i < v.errors@.len() && (#[trigger] v.errors@[i]).error_type@
                    == "MISSING_FEATURE"@) <==> !spec_contains_fold(
                content@,
                "Feature:"@,
                true,
            )
            &&& (exists|i: int|
                0 <= i < v.warnings@.len() && (#[trigger] v.warnings@[i]).warning_type@
                    == "NO_SCENARIOS"@) <==> !spec_contains_fold(content@, "Scenario:"@, true)
            &&& exists|cat: StepCatalog|
                spec_canonical_catalog(cat) && #[trigger] errors_reflect_catalog(
                    cat,
                    content@,
                    v,
                )
        },
{
    let catalog = build_step_catalog();
    let v = validate_content_with(&catalog, content);
    Ok(v)
}

/// Split a feature text into lines.
fn split_content_lines(s: &str) -> (r: Vec<String>)
    ensures
        r@.map_values(|l: String| l@) == lines_of(s@),
{
    crate::execution::tap_output::split_lines(s)
}

} // verus!
