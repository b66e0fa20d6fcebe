//! Search over the step catalog: free-text search across identifiers,
//! descriptions, categories, aliases and examples, and category filters.
//! Matching folds ASCII case, as the original command line did.

use vstd::prelude::*;
use crate::discovery::catalog::{ref_views, StepInfo};
use crate::text::{contains_fold, eq_ignore_case, spec_contains_fold, spec_eq_ignore_case};

verus! {

/// A step matches a query when the lower-cased query occurs in its
/// identifier as is, or case-folded in its description, its category,
/// one of its aliases or one of its examples.
pub open spec fn step_matches_query(s: StepInfo, q: Seq<char>) -> bool {
    ||| spec_contains_fold(s.id@, q, false)
    ||| spec_contains_fold(s.description@, q, true)
    ||| spec_contains_fold(s.category@, q, true)
    ||| exists|i: int|
        0 <= i < s.aliases@.len() && spec_contains_fold((#[trigger] s.aliases@[i])@, q, true)
    ||| exists|i: int|
        0 <= i < s.examples@.len() && spec_contains_fold((#[trigger] s.examples@[i])@, q, true)
}

/// Decide whether one step matches the query.
pub fn matches_query(s: &StepInfo, query: &str) -> (r: bool)
    ensures
        r == step_matches_query(*s, query@),
{
    if contains_fold(s.id.as_str(), query, false) {
        return true;
    }
    if contains_fold(s.description.as_str(), query, true) {
        return true;
    }
    if contains_fold(s.category.as_str(), query, true) {
        return true;
    }
    let n = s.aliases.len();
    let mut i: usize = 0;
    while i < n
        invariant
            i <= n,
            n == s.aliases@.len(),
            forall|k: int|
                0 <= k < i ==> !spec_contains_fold((#[trigger] s.aliases@[k])@, query@, true),
        decreases n - i,
    {
        if contains_fold(s.aliases[i].as_str(), query, true) {
            return true;
        }
        i = i + 1;
    }
    let m = s.examples.len();
    let mut j: usize = 0;
    while j < m
        invariant
            j <= m,
            m == s.examples@.len(),
            forall|k: int|
                0 <= k < j ==> !spec_contains_fold((#[trigger] s.examples@[k])@, query@, true),
        decreases m - j,
    {
        if contains_fold(s.examples[j].as_str(), query, true) {
            return true;
        }
        j = j + 1;
    }
    false
}

/// The steps among the first `n` that match the query, in registration
/// order.
pub open spec fn spec_search_filtered(steps: Seq<StepInfo>, q: Seq<char>, n: int) -> Seq<
    StepInfo,
>
    decreases n,
{
    if n <= 0 {
        Seq::empty()
    } else {
        spec_search_filtered(steps, q, n - 1) + (if step_matches_query(steps[n - 1], q) {
            seq![steps[n - 1]]
        } else {
            Seq::empty()
        })
    }
}

/// The steps among the first `n` whose category equals the given name up
/// to ASCII case, in registration order.
pub open spec fn spec_category_filtered(steps: Seq<StepInfo>, cat: Seq<char>, n: int) -> Seq<
    StepInfo,
>
    decreases n,
{
    if n <= 0 {
        Seq::empty()
    } else {
        spec_category_filtered(steps, cat, n - 1) + (if spec_eq_ignore_case(
            steps[n - 1].category@,
            cat,
        ) {
            seq![steps[n - 1]]
        } else {
            Seq::empty()
        })
    }
}

/// The steps matching a query: exactly the matching ones, in
/// registration order.
pub fn search_steps<'a>(steps: &'a Vec<StepInfo>, query: &str) -> (r: Vec<&'a StepInfo>)
    ensures
        ref_views(r@) == spec_search_filtered(steps@, query@, steps@.len() as int),
{
    let mut r: Vec<&StepInfo> = Vec::new();
    let n = steps.len();
    proof {
        assert(ref_views(r@) =~= spec_search_filtered(steps@, query@, 0));
    }
    for i in 0..n
        invariant
            n == steps@.len(),
            ref_views(r@) == spec_search_filtered(steps@, query@, i as int),
    {
        if matches_query(&steps[i], query) {
            r.push(&steps[i]);
        }
        proof {
            assert(ref_views(r@) =~~= spec_search_filtered(steps@, query@, i + 1));
        }
    }
    r
}

/// The steps of one category, compared up to ASCII case: exactly those,
/// in registration order.
pub fn filter_by_category<'a>(steps: &'a Vec<StepInfo>, category: &str) -> (r: Vec<
    &'a StepInfo,
>)
    ensures
        ref_views(r@) == spec_category_filtered(steps@, category@, steps@.len() as int),
{
    let mut r: Vec<&StepInfo> = Vec::new();
    let n = steps.len();
    proof {
        assert(ref_views(r@) =~= spec_category_filtered(steps@, category@, 0));
    }
    for i in 0..n
        invariant
            n == steps@.len(),
            ref_views(r@) == spec_category_filtered(steps@, category@, i as int),
    {
        if eq_ignore_case(steps[i].category.as_str(), category) {
            r.push(&steps[i]);
        }
        proof {
            assert(ref_views(r@) =~~= spec_category_filtered(steps@, category@, i + 1));
        }
    }
    r
}

} // verus!
