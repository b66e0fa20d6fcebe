//! The step pattern registry: an ordered table of (pattern, identifier)
//! entries, matched in registration order with first-match-wins
//! semantics.  Registration compiles each pattern, so an invalid pattern
//! fails at catalog-build time, never at match time.
//!
//! Patterns are regular expressions; what a pattern matches and which
//! parameters it captures are named results of the regex engine (see the
//! trusted items below), and the registry's scan order is verified over
//! those names.

use vstd::prelude::*;
use vstd::string::StringExecFns;
use crate::discovery::catalog::StepCatalog;

verus! {

/// A pattern compiles exactly when this holds; named after what
/// regex::Regex::new accepts.
pub uninterp spec fn regex_valid(pattern: Seq<char>) -> bool;

/// The pattern matches the text somewhere; named after
/// regex::Regex::is_match.
pub uninterp spec fn regex_matches(pattern: Seq<char>, text: Seq<char>) -> bool;

/// The parameters a match extracts: the participating capture groups of
/// the leftmost match, in order, with non-participating groups omitted;
/// named after regex::Regex::captures.
pub uninterp spec fn regex_params(pattern: Seq<char>, text: Seq<char>) -> Seq<Seq<char>>;

/// Relies on regex::Regex::new: a pattern is accepted exactly when it
/// compiles.
#[verifier::external_body]
fn regex_compile_check(pattern: &str) -> (r: bool)
    ensures
        r == regex_valid(pattern@),
{
    regex::Regex::new(pattern).is_ok()
}

/// Relies on regex::Regex::new and Regex::captures: for a valid pattern,
/// the result is the participating capture groups (group 0 left out) of
/// the leftmost match, or nothing when the pattern does not match; the
/// crate documents that captures returns a value exactly when is_match
/// holds.  An invalid pattern yields nothing.
#[verifier::external_body]
fn regex_capture_params(pattern: &str, text: &str) -> (r: Option<Vec<String>>)
    ensures
        regex_valid(pattern@) ==> (r is Some <==> regex_matches(pattern@, text@)),
        !regex_valid(pattern@) ==> r is None,
        r matches Some(ps) ==> ps@.map_values(|p: String| p@) == regex_params(
            pattern@,
            text@,
        ),
{
    let re = match regex::Regex::new(pattern) {
        Ok(re) => re,
        Err(_) => return None,
    };
    let caps = re.captures(text)?;
    let mut params = Vec::new();
    for m in caps.iter().skip(1) {
        match m {
            Some(g) => params.push(g.as_str().to_string()),
            None => {},
        }
    }
    Some(params)
}

/// A pattern that did not compile, reported at catalog-build time.
#[derive(Debug)]
pub struct PatternCompileError {
    pub pattern: String,
    pub identifier: String,
}

/// One registered matcher: a pattern and the identifier it selects.
#[derive(Debug)]
pub struct RegistryEntry {
    pub identifier: String,
    pub pattern: String,
}

/// The ordered matcher table.  Registration order is load-bearing: the
/// first entry whose pattern matches wins, and a later entry under the
/// same pattern is unreachable.
#[derive(Debug)]
pub struct StepRegistry {
    pub entries: Vec<RegistryEntry>,
}

/// Index of the first entry whose pattern matches the text, or -1.
pub open spec fn first_match_from(es: Seq<RegistryEntry>, text: Seq<char>, i: int) -> int
    decreases es.len() - i,
{
    if i < 0 || i >= es.len() {
        -1
    } else if regex_matches(es[i].pattern@, text) {
        i
    } else {
        first_match_from(es, text, i + 1)
    }
}

pub proof fn lemma_first_match(es: Seq<RegistryEntry>, text: Seq<char>, i: int)
    requires
        0 <= i <= es.len(),
    ensures
        ({
            let r = first_match_from(es, text, i);
            (r == -1 && forall|k: int| i <= k < es.len() ==> !regex_matches(
                (#[trigger] es[k]).pattern@,
                text,
            )) || (i <= r < es.len() && regex_matches(es[r].pattern@, text) && forall|k: int|
                i <= k < r ==> !regex_matches((#[trigger] es[k]).pattern@, text))
        }),
    decreases es.len() - i,
{
    if i < es.len() && !regex_matches(es[i].pattern@, text) {
        lemma_first_match(es, text, i + 1);
    }
}

/// The entry carries this step's identifier, and its pattern is the
/// step's main pattern or one of its aliases.
pub open spec fn entry_from_step(
    e: RegistryEntry,
    s: crate::discovery::catalog::StepInfo,
) -> bool {
    e.identifier@ == s.id@ && (e.pattern@ == s.pattern@ || exists|a: int|
        0 <= a < s.aliases@.len() && (#[trigger] s.aliases@[a])@ == e.pattern@)
}

/// Some catalog step accounts for this entry.
pub open spec fn entry_discoverable(
    e: RegistryEntry,
    steps: Seq<crate::discovery::catalog::StepInfo>,
) -> bool {
    exists|i: int| 0 <= i < steps.len() && entry_from_step(e, #[trigger] steps[i])
}

impl StepRegistry {
    /// Every registered pattern compiled.
    pub open spec fn wf(self) -> bool {
        forall|i: int|
            0 <= i < self.entries@.len() ==> regex_valid(
                (#[trigger] self.entries@[i]).pattern@,
            )
    }

    pub fn new() -> (r: StepRegistry)
        ensures
            r.entries@.len() == 0,
            r.wf(),
    {
        StepRegistry { entries: Vec::new() }
    }

    /// Append a compiled pattern under an identifier; an invalid pattern
    /// is rejected here, at build time.
    pub fn register(&mut self, pattern: &str, identifier: &str) -> (r: Result<
        (),
        PatternCompileError,
    >)
        requires
            old(self).wf(),
        ensures
            final(self).wf(),
            r is Ok <==> regex_valid(pattern@),
            r is Ok ==> final(self).entries@.len() == old(self).entries@.len() + 1
                && final(self).entries@.last().pattern@ == pattern@
                && final(self).entries@.last().identifier@ == identifier@
                && final(self).entries@.drop_last() == old(self).entries@,
            r is Err ==> *final(self) == *old(self) && (r matches Err(e) && e.pattern@
                == pattern@ && e.identifier@ == identifier@),
    {
        if regex_compile_check(pattern) {
            let entry = RegistryEntry {
                identifier: String::from_str(identifier),
                pattern: String::from_str(pattern),
            };
            self.entries.push(entry);
            proof {
                assert(self.entries@.drop_last() =~= old(self).entries@);
            }
            Ok(())
        } else {
            Err(
                PatternCompileError {
                    pattern: String::from_str(pattern),
                    identifier: String::from_str(identifier),
                },
            )
        }
    }

    /// Scan the table in registration order and return the identifier
    /// and the extracted parameters of the first entry whose pattern
    /// matches, or nothing when none does.
    pub fn match_text(&self, text: &str) -> (r: Option<(String, Vec<String>)>)
        requires
            self.wf(),
        ensures
            match r {
                Some(m) => {
                    let i = first_match_from(self.entries@, text@, 0);
                    &&& 0 <= i < self.entries@.len()
                    &&& m.0@ == self.entries@[i].identifier@
                    &&& m.1@.map_values(|p: String| p@) == regex_params(
                        self.entries@[i].pattern@,
                        text@,
                    )
                },
                None => first_match_from(self.entries@, text@, 0) == -1,
            },
    {
        let n = self.entries.len();
        let mut i: usize = 0;
        while i < n
            invariant
                i <= n,
                n == self.entries@.len(),
                self.wf(),
                first_match_from(self.entries@, text@, 0) == first_match_from(
                    self.entries@,
                    text@,
                    i as int,
                ),
            decreases n - i,
        {
            match regex_capture_params(self.entries[i].pattern.as_str(), text) {
                Some(params) => {
                    return Some((self.entries[i].identifier.clone(), params));
                },
                None => {},
            }
            i = i + 1;
        }
        None
    }

    /// Build the live matcher table from the catalog: each step's main
    /// pattern first, its aliases after it, steps in catalog order.
    /// Every entry of the table is discoverable through the catalog: its
    /// pattern is some step's main pattern or one of its aliases, and its
    /// identifier is that step's identifier.
    pub fn from_catalog(catalog: &StepCatalog) -> (r: Result<StepRegistry, PatternCompileError>)
        ensures
            r matches Ok(reg) ==> reg.wf() && forall|e: int|
                0 <= e < reg.entries@.len() ==> entry_discoverable(
                    #[trigger] reg.entries@[e],
                    catalog.steps@,
                ),
    {
        let mut reg = StepRegistry::new();
        let n = catalog.steps.len();
        let mut i: usize = 0;
        while i < n
            invariant
                i <= n,
                n == catalog.steps@.len(),
                reg.wf(),
                forall|e: int|
                    0 <= e < reg.entries@.len() ==> entry_discoverable(
                        #[trigger] reg.entries@[e],
                        catalog.steps@,
                    ),
            decreases n - i,
        {
            let step = &catalog.steps[i];
            let ghost r0 = reg.entries@;
            match reg.register(step.pattern.as_str(), step.id.as_str()) {
                Ok(_) => {},
                Err(e) => {
                    return Err(e);
                },
            }
            proof {
                assert(entry_from_step(reg.entries@.last(), catalog.steps@[i as int]));
                assert(entry_discoverable(reg.entries@.last(), catalog.steps@));
                assert(forall|e: int| 0 <= e < r0.len() ==> reg.entries@[e] == r0[e]);
                assert forall|e: int|
                    0 <= e < reg.entries@.len() implies entry_discoverable(
                    #[trigger] reg.entries@[e],
                    catalog.steps@,
                ) by {
                    if e < r0.len() {
                        assert(reg.entries@[e] == r0[e]);
                    } else {
                        assert(reg.entries@[e] == reg.entries@.last());
                    }
                }
            }
            let m = step.aliases.len();
            let mut j: usize = 0;
            while j < m
                invariant
                    j <= m,
                    i < n,
                    n == catalog.steps@.len(),
                    m == step.aliases@.len(),
                    *step == catalog.steps@[i as int],
                    reg.wf(),
                    forall|e: int|
                        0 <= e < reg.entries@.len() ==> entry_discoverable(
                            #[trigger] reg.entries@[e],
                            catalog.steps@,
                        ),
                decreases m - j,
            {
                let ghost r1 = reg.entries@;
                match reg.register(step.aliases[j].as_str(), step.id.as_str()) {
                    Ok(_) => {},
                    Err(e) => {
                        return Err(e);
                    },
                }
                proof {
                    assert(step.aliases@[j as int]@ == reg.entries@.last().pattern@);
                    assert(entry_from_step(reg.entries@.last(), catalog.steps@[i as int]));
                    assert(entry_discoverable(reg.entries@.last(), catalog.steps@));
                    assert(forall|e: int| 0 <= e < r1.len() ==> reg.entries@[e] == r1[e]);
                    assert forall|e: int|
                        0 <= e < reg.entries@.len() implies entry_discoverable(
                        #[trigger] reg.entries@[e],
                        catalog.steps@,
                    ) by {
                        if e < r1.len() {
                            assert(reg.entries@[e] == r1[e]);
                        } else {
                            assert(reg.entries@[e] == reg.entries@.last());
                        }
                    }
                }
                j = j + 1;
            }
            i = i + 1;
        }
        Ok(reg)
    }

    /// Report every entry whose exact pattern already appeared earlier
    /// in the table: one (identifier of the first holder, identifier of
    /// the shadowed entry) pair per such entry, in table order.  Such
    /// later entries are unreachable through matching.
    pub fn find_duplicate_patterns(&self) -> (r: Vec<(String, String)>)
        ensures
            r@.map_values(|p: (String, String)| (p.0@, p.1@)) == spec_dup_pairs(
                self.entries@,
                self.entries@.len() as int,
            ),
    {
        let ghost es = self.entries@;
        let mut r: Vec<(String, String)> = Vec::new();
        let n = self.entries.len();
        let mut j: usize = 0;
        proof {
            assert(r@.map_values(|p: (String, String)| (p.0@, p.1@)) =~= spec_dup_pairs(es, 0));
        }
        while j < n
            invariant
                j <= n,
                n == es.len(),
                self.entries@ == es,
                r@.map_values(|p: (String, String)| (p.0@, p.1@)) == spec_dup_pairs(
                    es,
                    j as int,
                ),
            decreases n - j,
        {
            match self.find_earlier_same_pattern(j) {
                Some(fi) => {
                    r.push(
                        (
                            self.entries[fi].identifier.clone(),
                            self.entries[j].identifier.clone(),
                        ),
                    );
                },
                None => {},
            }
            proof {
                assert(r@.map_values(|p: (String, String)| (p.0@, p.1@)) =~~= spec_dup_pairs(
                    es,
                    j + 1,
                ));
            }
            j = j + 1;
        }
        r
    }

    fn find_earlier_same_pattern(&self, j: usize) -> (r: Option<usize>)
        requires
            j < self.entries@.len(),
        ensures
            match r {
                Some(i) => i < j && first_same_pattern(self.entries@, j as int, 0) == i,
                None => first_same_pattern(self.entries@, j as int, 0) == -1,
            },
    {
        let mut i: usize = 0;
        while i < j
            invariant
                i <= j < self.entries@.len(),
                forall|k: int|
                    0 <= k < i ==> (#[trigger] self.entries@[k]).pattern@
                        != self.entries@[j as int].pattern@,
            decreases j - i,
        {
            if crate::text::str_eq(
                self.entries[i].pattern.as_str(),
                self.entries[j].pattern.as_str(),
            ) {
                proof {
                    lemma_first_same_at(self.entries@, j as int, i as int);
                }
                return Some(i);
            }
            i = i + 1;
        }
        proof {
            lemma_first_same_none(self.entries@, j as int, 0);
        }
        None
    }
}

/// Index of the first entry before `j` sharing its pattern, scanning
/// from `i`; -1 when there is none.
pub open spec fn first_same_pattern(es: Seq<RegistryEntry>, j: int, i: int) -> int
    decreases j - i,
{
    if i < 0 || i >= j {
        -1
    } else if es[i].pattern@ == es[j].pattern@ {
        i
    } else {
        first_same_pattern(es, j, i + 1)
    }
}

proof fn lemma_first_same_at(es: Seq<RegistryEntry>, j: int, i: int)
    requires
        0 <= i < j,
        es[i].pattern@ == es[j].pattern@,
        forall|k: int| 0 <= k < i ==> (#[trigger] es[k]).pattern@ != es[j].pattern@,
    ensures
        first_same_pattern(es, j, 0) == i,
{
    lemma_first_same_from(es, j, 0, i);
}

proof fn lemma_first_same_from(es: Seq<RegistryEntry>, j: int, lo: int, i: int)
    requires
        0 <= lo <= i < j,
        es[i].pattern@ == es[j].pattern@,
        forall|k: int| lo <= k < i ==> (#[trigger] es[k]).pattern@ != es[j].pattern@,
    ensures
        first_same_pattern(es, j, lo) == i,
    decreases i - lo,
{
    if lo < i {
        lemma_first_same_from(es, j, lo + 1, i);
    }
}

proof fn lemma_first_same_none(es: Seq<RegistryEntry>, j: int, lo: int)
    requires
        0 <= lo <= j < es.len(),
        forall|k: int| lo <= k < j ==> (#[trigger] es[k]).pattern@ != es[j].pattern@,
    ensures
        first_same_pattern(es, j, lo) == -1,
    decreases j - lo,
{
    if lo < j {
        lemma_first_same_none(es, j, lo + 1);
    }
}

/// The duplicate-pattern reports among the first `n` entries: for each
/// entry shadowed by an earlier identical pattern, the identifiers of
/// the first holder and of the shadowed entry.
pub open spec fn spec_dup_pairs(es: Seq<RegistryEntry>, n: int) -> Seq<(Seq<char>, Seq<char>)>
    decreases n,
{
    if n <= 0 {
        Seq::empty()
    } else {
        let pre = spec_dup_pairs(es, n - 1);
        let f = first_same_pattern(es, n - 1, 0);
        if f >= 0 {
            pre.push((es[f].identifier@, es[n - 1].identifier@))
        } else {
            pre
        }
    }
}

/// First-match-wins: when two entries carry the same pattern, matching
/// never selects the later one.  The identifier registered second is
/// unreachable through `match_text`.
pub proof fn lemma_first_match_wins(es: Seq<RegistryEntry>, text: Seq<char>, i: int, j: int)
    requires
        0 <= i < j < es.len(),
        es[i].pattern@ == es[j].pattern@,
    ensures
        first_match_from(es, text, 0) != j,
{
    lemma_first_match(es, text, 0);
    let r = first_match_from(es, text, 0);
    if r == j {
        assert(regex_matches(es[j].pattern@, text));
        assert(!regex_matches(es[i].pattern@, text));
    }
}

} // verus!
