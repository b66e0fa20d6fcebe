//! Listing and searching the step catalog for the command line.

use vstd::prelude::*;
use vstd::string::StringExecFns;
use crate::discovery::catalog::{build_step_catalog, spec_canonical_catalog, StepCatalog,
    StepInfo};
use crate::discovery::search::{matches_query, step_matches_query};
use crate::text::{eq_ignore_case, spec_eq_ignore_case};

verus! {

/// The listing line of one step.
pub open spec fn spec_step_line(s: StepInfo) -> Seq<char> {
    "["@ + s.category@ + "] "@ + s.id@ + " - "@ + s.description@
}

fn step_line(s: &StepInfo) -> (r: String)
    ensures
        r@ == spec_step_line(*s),
{
    let mut r = String::from_str("[");
    r.append(s.category.as_str());
    r.append("] ");
    r.append(s.id.as_str());
    r.append(" - ");
    r.append(s.description.as_str());
    proof {
        assert(r@ =~= spec_step_line(*s));
    }
    r
}

/// A step passes the optional category filter and the optional search
/// filter.
pub open spec fn step_selected(s: StepInfo, category: Option<Seq<char>>, search: Option<
    Seq<char>,
>) -> bool {
    &&& (match category {
        Some(c) => spec_eq_ignore_case(s.category@, c),
        None => true,
    })
    &&& (match search {
        Some(q) => step_matches_query(s, q),
        None => true,
    })
}

pub open spec fn opt_view(o: Option<String>) -> Option<Seq<char>> {
    match o {
        Some(s) => Some(s@),
        None => None,
    }
}

/// The listing lines of the first `n` steps that pass the filters, in
/// registration order.
pub open spec fn spec_list_lines(
    steps: Seq<StepInfo>,
    category: Option<Seq<char>>,
    search: Option<Seq<char>>,
    n: int,
) -> Seq<Seq<char>>
    decreases n,
{
    if n <= 0 {
        Seq::empty()
    } else {
        spec_list_lines(steps, category, search, n - 1) + (if step_selected(
            steps[n - 1],
            category,
            search,
        ) {
            seq![spec_step_line(steps[n - 1])]
        } else {
            Seq::empty()
        })
    }
}

/// The views of a line list.
pub open spec fn line_views(lines: Seq<String>) -> Seq<Seq<char>> {
    lines.map_values(|l: String| l@)
}

proof fn lemma_line_views_push(s: Seq<String>, x: String)
    ensures
        line_views(s.push(x)) == line_views(s).push(x@),
{
    assert(line_views(s.push(x)) =~= line_views(s).push(x@));
}

/// One listing line per selected step of the given catalog, in
/// registration order.
pub fn list_steps_from(catalog: &StepCatalog, category: &Option<String>, search: &Option<
    String,
>) -> (lines: Vec<String>)
    ensures
        line_views(lines@) == spec_list_lines(
            catalog.steps@,
            opt_view(*category),
            opt_view(*search),
            catalog.steps@.len() as int,
        ),
{
    let mut lines: Vec<String> = Vec::new();
    let n = catalog.steps.len();
    proof {
        assert(line_views(lines@) =~= spec_list_lines(
            catalog.steps@,
            opt_view(*category),
            opt_view(*search),
            0,
        ));
    }
    for i in 0..n
        invariant
            n == catalog.steps@.len(),
            line_views(lines@) == spec_list_lines(
                catalog.steps@,
                opt_view(*category),
                opt_view(*search),
                i as int,
            ),
    {
        let step = &catalog.steps[i];
        let cat_ok = match category {
            Some(c) => eq_ignore_case(step.category.as_str(), c.as_str()),
            None => true,
        };
        let search_ok = if cat_ok {
            match search {
                Some(q) => matches_query(step, q.as_str()),
                None => true,
            }
        } else {
            false
        };
        if cat_ok && search_ok {
            let ghost l0 = lines@;
            let sl = step_line(step);
            proof {
                lemma_line_views_push(l0, sl);
            }
            lines.push(sl);
        }
        proof {
            assert(line_views(lines@) =~~= spec_list_lines(
                catalog.steps@,
                opt_view(*category),
                opt_view(*search),
                i + 1,
            ));
        }
    }
    lines
}

/// List the canonical catalog, optionally filtered by category and by a
/// search query.  The lines are exactly the listing lines of the
/// canonical catalog's selected steps, in registration order; the
/// catalog is the fixed table, so any witness pins every line.
pub fn handle_list_steps(category: Option<String>, search: Option<String>) -> (r: Result<
    Vec<String>,
    String,
>)
    ensures
        r matches Ok(lines) ==> exists|c: StepCatalog|
            spec_canonical_catalog(c) && line_views(lines@) == #[trigger] spec_list_lines(
                c.steps@,
                opt_view(category),
                opt_view(search),
                c.steps@.len() as int,
            ),
        r is Ok,
{
    let catalog = build_step_catalog();
    let lines = list_steps_from(&catalog, &category, &search);
    Ok(lines)
}

/// The search lines of one step: its listing line, one indented line
/// per alias.
pub open spec fn spec_search_block(s: StepInfo) -> Seq<Seq<char>> {
    seq![spec_step_line(s)] + spec_alias_lines(s.aliases@, s.aliases@.len() as int)
}

pub open spec fn spec_alias_lines(aliases: Seq<String>, n: int) -> Seq<Seq<char>>
    decreases n,
{
    if n <= 0 {
        Seq::empty()
    } else {
        spec_alias_lines(aliases, n - 1).push("  Alias: "@ + aliases[n - 1]@)
    }
}

/// The search output of the first `n` steps.
pub open spec fn spec_search_lines(
    steps: Seq<StepInfo>,
    query: Seq<char>,
    category: Option<Seq<char>>,
    n: int,
) -> Seq<Seq<char>>
    decreases n,
{
    if n <= 0 {
        Seq::empty()
    } else {
        spec_search_lines(steps, query, category, n - 1) + (if step_selected(
            steps[n - 1],
            category,
            Some(query),
        ) {
            spec_search_block(steps[n - 1])
        } else {
            Seq::empty()
        })
    }
}

/// Search the given catalog: the line of each matching step followed by
/// one indented alias line per alias.
pub fn search_steps_from(catalog: &StepCatalog, query: &str, category: &Option<String>) -> (
    lines: Vec<String>)
    ensures
        line_views(lines@) == spec_search_lines(
            catalog.steps@,
            query@,
            opt_view(*category),
            catalog.steps@.len() as int,
        ),
{
    let mut lines: Vec<String> = Vec::new();
    let n = catalog.steps.len();
    proof {
        assert(line_views(lines@) =~= spec_search_lines(
            catalog.steps@,
            query@,
            opt_view(*category),
            0,
        ));
    }
    for i in 0..n
        invariant
            n == catalog.steps@.len(),
            line_views(lines@) == spec_search_lines(
                catalog.steps@,
                query@,
                opt_view(*category),
                i as int,
            ),
    {
        let step = &catalog.steps[i];
        let cat_ok = match category {
            Some(c) => eq_ignore_case(step.category.as_str(), c.as_str()),
            None => true,
        };
        if cat_ok && matches_query(step, query) {
            let ghost base = lines@;
            let sl = step_line(step);
            proof {
                lemma_line_views_push(base, sl);
            }
            lines.push(sl);
            proof {
                assert(line_views(lines@) =~~= line_views(base) + seq![
                    spec_step_line(catalog.steps@[i as int]),
                ] + spec_alias_lines(step.aliases@, 0));
            }
            let an = step.aliases.len();
            for j in 0..an
                invariant
                    an == step.aliases@.len(),
                    line_views(lines@) == line_views(base) + seq![
                        spec_step_line(catalog.steps@[i as int]),
                    ] + spec_alias_lines(step.aliases@, j as int),
            {
                let ghost l1 = lines@;
                let mut alias_line = String::from_str("  Alias: ");
                alias_line.append(step.aliases[j].as_str());
                proof {
                    lemma_line_views_push(l1, alias_line);
                    assert(alias_line@ =~= "  Alias: "@ + step.aliases@[j as int]@);
                }
                lines.push(alias_line);
                proof {
                    assert(line_views(lines@) =~~= line_views(base) + seq![
                        spec_step_line(catalog.steps@[i as int]),
                    ] + spec_alias_lines(step.aliases@, j + 1));
                }
            }
        }
        proof {
            assert(line_views(lines@) =~~= spec_search_lines(
                catalog.steps@,
                query@,
                opt_view(*category),
                i + 1,
            ));
        }
    }
    lines
}

/// Search the canonical catalog, with alias lines under each hit: the
/// lines are exactly the search output of the fixed table.
pub fn handle_search_steps(query: &str, category: Option<String>) -> (r: Result<
    Vec<String>,
    String,
>)
    ensures
        r matches Ok(lines) ==> exists|c: StepCatalog|
            spec_canonical_catalog(c) && line_views(lines@) == #[trigger] spec_search_lines(
                c.steps@,
                query@,
                opt_view(category),
                c.steps@.len() as int,
            ),
        r is Ok,
{
    let catalog = build_step_catalog();
    let lines = search_steps_from(&catalog, query, &category);
    Ok(lines)
}

} // verus!
