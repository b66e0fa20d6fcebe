//! Step-level validation: a step text is known when some catalog
//! pattern, main or alias, compiles and matches it.

use vstd::prelude::*;
use vstd::string::StringExecFns;
use crate::discovery::catalog::{StepCatalog, StepInfo};
use crate::discovery::registry::{regex_matches, regex_valid};
use crate::validation::errors::ValidationError;

verus! {

/// One of this step's patterns (main or alias) compiles and matches.
pub open spec fn step_info_matches(s: StepInfo, text: Seq<char>) -> bool {
    ||| (regex_valid(s.pattern@) && regex_matches(s.pattern@, text))
    ||| exists|i: int|
        0 <= i < s.aliases@.len() && regex_valid((#[trigger] s.aliases@[i])@) && regex_matches(
            s.aliases@[i]@,
            text,
        )
}

/// Some catalog step knows this text.
pub open spec fn catalog_knows(steps: Seq<StepInfo>, text: Seq<char>) -> bool {
    exists|i: int| 0 <= i < steps.len() && step_info_matches(#[trigger] steps[i], text)
}

fn step_matches(s: &StepInfo, text: &str) -> (r: bool)
    ensures
        r == step_info_matches(*s, text@),
{
    if crate::validation::step::pattern_matches(s.pattern.as_str(), text) {
        return true;
    }
    let n = s.aliases.len();
    let mut i: usize = 0;
    while i < n
        invariant
            i <= n,
            n == s.aliases@.len(),
            forall|k: int|
                0 <= k < i ==> !(regex_valid((#[trigger] s.aliases@[k])@) && regex_matches(
                    s.aliases@[k]@,
                    text@,
                )),
        decreases n - i,
    {
        if pattern_matches(s.aliases[i].as_str(), text) {
            return true;
        }
        i = i + 1;
    }
    false
}

/// Relies on regex::Regex::new and Regex::is_match: a valid pattern
/// matches or not as the engine decides; an invalid pattern matches
/// nothing.
#[verifier::external_body]
fn pattern_matches(pattern: &str, text: &str) -> (r: bool)
    ensures
        r == (regex_valid(pattern@) && regex_matches(pattern@, text@)),
{
    match regex::Regex::new(pattern) {
        Ok(re) => re.is_match(text),
        Err(_) => false,
    }
}

/// Check one step text against the catalog.  Accepted exactly when some
/// registered pattern knows it; otherwise an `UNKNOWN_STEP` error names
/// the step and carries advisory suggestions.
pub fn validate_step(step_text: &str, step_number: usize, catalog: &StepCatalog) -> (r: Result<
    (),
    ValidationError,
>)
    ensures
        r is Ok <==> catalog_knows(catalog.steps@, step_text@),
        r matches Err(e) ==> {
            &&& e.error_type@ == "UNKNOWN_STEP"@
            &&& e.message@ == "Step '"@ + step_text@ + "' does not match any registered pattern"@
            &&& e.step_number == Some(step_number)
            &&& e.step_text matches Some(t) && t@ == step_text@
            &&& e.suggestions@.len() >= 1
        },
{
    let n = catalog.steps.len();
    let mut i: usize = 0;
    while i < n
        invariant
            i <= n,
            n == catalog.steps@.len(),
            forall|k: int|
                0 <= k < i ==> !step_info_matches(#[trigger] catalog.steps@[k], step_text@),
        decreases n - i,
    {
        if step_matches(&catalog.steps[i], step_text) {
            return Ok(());
        }
        i = i + 1;
    }
    let mut message = String::from_str("Step '");
    message.append(step_text);
    message.append("' does not match any registered pattern");
    proof {
        assert(message@ =~= "Step '"@ + step_text@
            + "' does not match any registered pattern"@);
    }
    let mut error = ValidationError {
        step_number: Some(step_number),
        step_text: Some(String::from_str(step_text)),
        error_type: String::from_str("UNKNOWN_STEP"),
        message,
        suggestions: Vec::new(),
    };
    let suggestions = find_similar_steps(step_text, catalog);
    if suggestions.len() > 0 {
        let mut joined = String::from_str("Did you mean: ");
        let m = suggestions.len();
        for j in 0..m
            invariant
                m == suggestions@.len(),
        {
            if j > 0 {
                joined.append(" or ");
            }
            joined.append(suggestions[j].as_str());
        }
        joined.append("?");
        error.suggestions.push(joined);
    } else {
        error.suggestions.push(
            String::from_str("Run 'web-spec list-steps' to see all available step patterns"),
        );
    }
    Err(error)
}

/// Advisory: identifiers of catalog steps whose description shares at
/// least two words with the step text, best overlap first, at most
/// three.  The choice is informative only; nothing downstream depends
/// on it.
pub fn find_similar_steps(step_text: &str, catalog: &StepCatalog) -> (r: Vec<String>)
    ensures
        r@.len() <= 3,
{
    let words = split_words(step_text);
    let mut best: Vec<(String, usize)> = Vec::new();
    let n = catalog.steps.len();
    let mut i: usize = 0;
    while i < n
        invariant
            i <= n,
            n == catalog.steps@.len(),
        decreases n - i,
    {
        let step = &catalog.steps[i];
        let step_words = split_words(step.description.as_str());
        let mut matches: usize = 0;
        let wn = words.len();
        let mut w: usize = 0;
        while w < wn
            invariant
                w <= wn,
                wn == words@.len(),
                matches <= w,
            decreases wn - w,
        {
            let sn = step_words.len();
            let mut sw: usize = 0;
            let mut hit = false;
            while sw < sn && !hit
                invariant
                    sw <= sn,
                    sn == step_words@.len(),
                    w < wn,
                    wn == words@.len(),
                decreases sn - sw, (if hit {
                    0int
                } else {
                    1int
                }),
            {
                if crate::text::eq_ignore_case(
                    step_words[sw].as_str(),
                    words[w].as_str(),
                ) {
                    hit = true;
                }
                sw = sw + 1;
            }
            if hit {
                matches = matches + 1;
            }
            w = w + 1;
        }
        if matches >= 2 {
            best.push((step.id.clone(), matches));
        }
        i = i + 1;
    }
    // keep the three best overlaps, largest first
    let mut r: Vec<String> = Vec::new();
    while r.len() < 3 && best.len() > 0
        invariant
            r@.len() <= 3,
        decreases 3 - r@.len(),
    {
        let m = best.len();
        let mut bi: usize = 0;
        let mut k: usize = 1;
        while k < m
            invariant
                bi < k <= m,
                m == best@.len(),
            decreases m - k,
        {
            if best[k].1 > best[bi].1 {
                bi = k;
            }
            k = k + 1;
        }
        let picked = best.remove(bi);
        r.push(picked.0);
    }
    r
}

/// The blank-separated words of a text, blanks dropped.
pub fn split_words(s: &str) -> (r: Vec<String>)
{
    let n = s.unicode_len();
    let mut r: Vec<String> = Vec::new();
    let mut i: usize = 0;
    while i < n
        invariant
            i <= n,
            n == s@.len(),
        decreases n - i,
    {
        let c = s.get_char(i);
        if c == ' ' || c == '\t' {
            i = i + 1;
        } else {
            let mut j = i + 1;
            while j < n && !word_break(s.get_char(j))
                invariant
                    i < j <= n,
                    n == s@.len(),
                decreases n - j,
            {
                j = j + 1;
            }
            r.push(String::from_str(s.substring_char(i, j)));
            i = j;
        }
    }
    r
}

fn word_break(c: char) -> (r: bool)
    ensures
        r == (c == ' ' || c == '\t'),
{
    c == ' ' || c == '\t'
}

} // verus!
