//! The step catalog: identifier, pattern, aliases, category, description,
//! parameters and examples for every step the engine understands.  The
//! registration order of the catalog is the tie-break order of the
//! matcher built from it.

use vstd::prelude::*;
use vstd::string::StringExecFns;
use crate::text::{str_eq, str_le, str_le_exec, lemma_str_le_refl, lemma_str_le_total,
    lemma_str_le_trans};

verus! {

/// One declared parameter of a step.
#[derive(Debug)]
pub struct ParameterInfo {
    pub name: String,
    pub param_type: String,
    pub required: bool,
    pub description: String,
}

/// One step: its identifier, its matcher pattern and its metadata.
#[derive(Debug)]
pub struct StepInfo {
    pub id: String,
    pub pattern: String,
    pub aliases: Vec<String>,
    pub category: String,
    pub description: String,
    pub parameters: Vec<ParameterInfo>,
    pub examples: Vec<String>,
}

/// The catalog: steps in registration order, categories sorted.
#[derive(Debug)]
pub struct StepCatalog {
    pub steps: Vec<StepInfo>,
    pub categories: Vec<String>,
}

/// The steps a list of borrows points at, in borrow order.
pub open spec fn ref_views(s: Seq<&StepInfo>) -> Seq<StepInfo> {
    s.map_values(|p: &StepInfo| *p)
}

/// The steps among the first `n` whose category is exactly `cat`, in
/// registration order.
pub open spec fn spec_steps_of_category(steps: Seq<StepInfo>, cat: Seq<char>, n: int) -> Seq<
    StepInfo,
>
    decreases n,
{
    if n <= 0 {
        Seq::empty()
    } else {
        spec_steps_of_category(steps, cat, n - 1) + (if steps[n - 1].category@ == cat {
            seq![steps[n - 1]]
        } else {
            Seq::empty()
        })
    }
}

/// A registered step names itself: identifier and pattern are nonempty.
pub open spec fn step_entry_named(s: StepInfo) -> bool {
    s.id@.len() > 0 && s.pattern@.len() > 0
}

/// A category list is sorted and has no repeated name.
pub open spec fn categories_wf(cs: Seq<String>) -> bool {
    &&& forall|i: int, j: int| 0 <= i < j < cs.len() ==> str_le(#[trigger] cs[i]@, #[trigger] cs[j]@)
    &&& forall|i: int, j: int| 0 <= i < j < cs.len() ==> (#[trigger] cs[i])@ != (#[trigger] cs[j])@
}

pub open spec fn has_category(cs: Seq<String>, c: Seq<char>) -> bool {
    exists|i: int| 0 <= i < cs.len() && (#[trigger] cs[i])@ == c
}

impl StepCatalog {
    pub open spec fn wf(self) -> bool {
        categories_wf(self.categories@)
    }

    pub fn new() -> (c: StepCatalog)
        ensures
            c.steps@.len() == 0,
            c.categories@.len() == 0,
            c.wf(),
    {
        StepCatalog { steps: Vec::new(), categories: Vec::new() }
    }

    /// Append a step; its category joins the sorted category list if it
    /// is new there.
    pub fn add_step(&mut self, step: StepInfo)
        requires
            old(self).wf(),
        ensures
            final(self).wf(),
            final(self).steps@ == old(self).steps@.push(step),
            forall|c: Seq<char>|
                #[trigger] has_category(final(self).categories@, c) <==> (has_category(
                    old(self).categories@,
                    c,
                ) || c == step.category@),
    {
        let ghost cs0 = self.categories@;
        let mut found = false;
        let n = self.categories.len();
        let mut i: usize = 0;
        while i < n && !found
            invariant
                i <= n,
                n == self.categories@.len(),
                self.categories@ == cs0,
                found ==> exists|k: int| 0 <= k < n && (#[trigger] cs0[k])@ == step.category@,
                !found ==> forall|k: int| 0 <= k < i ==> (#[trigger] cs0[k])@ != step.category@,
            decreases n - i, (if found {
                0int
            } else {
                1int
            }),
        {
            if str_eq(self.categories[i].as_str(), step.category.as_str()) {
                found = true;
            } else {
                i = i + 1;
            }
        }
        if !found {
            // keep the category list sorted: scan for the insertion point
            let mut p: usize = 0;
            let m = self.categories.len();
            while p < m && str_le_exec(&self.categories[p], &step.category)
                invariant
                    p <= m,
                    m == self.categories@.len(),
                    self.categories@ == cs0,
                    forall|k: int| 0 <= k < p ==> str_le(#[trigger] cs0[k]@, step.category@),
                decreases m - p,
            {
                p = p + 1;
            }
            let ghost pp = p as int;
            let cat = String::from_str(step.category.as_str());
            self.categories.insert(p, cat);
            proof {
                assert(cat@ == step.category@);
                assert(self.categories@ =~= cs0.insert(pp, cat));
                let cs1 = self.categories@;
                assert(forall|k: int| 0 <= k < cs0.len() ==> (#[trigger] cs0[k])@
                    != step.category@);
                assert forall|a: int, b: int|
                    0 <= a < b < cs1.len() implies str_le(
                    #[trigger] cs1[a]@,
                    #[trigger] cs1[b]@,
                ) by {
                    if a == pp {
                        assert(cs1[b] == cs0[b - 1]);
                        assert(pp <= b - 1 < cs0.len());
                        assert(!str_le(cs0[pp]@, step.category@));
                        lemma_str_le_total(cs0[pp]@, step.category@);
                        if b - 1 > pp {
                            assert(str_le(cs0[pp]@, cs0[b - 1]@));
                            lemma_str_le_trans(step.category@, cs0[pp]@, cs0[b - 1]@);
                        }
                    } else if b == pp {
                        assert(cs1[a] == cs0[a]);
                        assert(str_le(cs0[a]@, step.category@));
                    } else if a < pp && b > pp {
                        assert(cs1[a] == cs0[a]);
                        assert(cs1[b] == cs0[b - 1]);
                        assert(str_le(cs0[a]@, cs0[b - 1]@));
                    } else if b < pp {
                        assert(cs1[a] == cs0[a]);
                        assert(cs1[b] == cs0[b]);
                    } else {
                        assert(cs1[a] == cs0[a - 1]);
                        assert(cs1[b] == cs0[b - 1]);
                    }
                }
                assert forall|a: int, b: int|
                    0 <= a < b < cs1.len() implies (#[trigger] cs1[a])@ != (#[trigger] cs1[b])@
                    by {
                    if a == pp {
                        assert(cs1[b] == cs0[b - 1]);
                    } else if b == pp {
                        assert(cs1[a] == cs0[a]);
                    } else if a < pp && b > pp {
                        assert(cs1[a] == cs0[a]);
                        assert(cs1[b] == cs0[b - 1]);
                    } else if b < pp {
                        assert(cs1[a] == cs0[a]);
                        assert(cs1[b] == cs0[b]);
                    } else {
                        assert(cs1[a] == cs0[a - 1]);
                        assert(cs1[b] == cs0[b - 1]);
                    }
                }
                assert forall|c: Seq<char>|
                    #[trigger] has_category(cs1, c) implies (has_category(cs0, c) || c
                    == step.category@) by {
                    let k = choose|k: int| 0 <= k < cs1.len() && (#[trigger] cs1[k])@ == c;
                    if k < pp {
                        assert(cs0[k]@ == c);
                    } else if k > pp {
                        assert(cs0[k - 1]@ == c);
                    }
                }
                assert forall|c: Seq<char>|
                    (has_category(cs0, c) || c == step.category@) implies #[trigger] has_category(
                    cs1,
                    c,
                ) by {
                    if c == step.category@ {
                        assert(cs1[pp]@ == c);
                    } else {
                        let k = choose|k: int| 0 <= k < cs0.len() && (#[trigger] cs0[k])@ == c;
                        if k < pp {
                            assert(cs1[k]@ == c);
                        } else {
                            assert(cs1[k + 1]@ == c);
                        }
                    }
                }
            }
        } else {
            proof {
                let k = choose|k: int| 0 <= k < n && (#[trigger] cs0[k])@ == step.category@;
                assert(has_category(cs0, step.category@));
            }
        }
        self.steps.push(step);
    }

    /// Index of the first step with the given identifier, or -1.
    pub open spec fn first_with_id(steps: Seq<StepInfo>, id: Seq<char>, i: int) -> int
        decreases steps.len() - i,
    {
        if i < 0 || i >= steps.len() {
            -1
        } else if steps[i].id@ == id {
            i
        } else {
            Self::first_with_id(steps, id, i + 1)
        }
    }

    /// Look a step up by identifier; the first registered wins.
    pub fn find_by_id(&self, id: &str) -> (r: Option<&StepInfo>)
        ensures
            match r {
                Some(s) => {
                    &&& Self::first_with_id(self.steps@, id@, 0) >= 0
                    &&& *s == self.steps@[Self::first_with_id(self.steps@, id@, 0)]
                },
                None => Self::first_with_id(self.steps@, id@, 0) == -1,
            },
    {
        let n = self.steps.len();
        let mut i: usize = 0;
        while i < n
            invariant
                i <= n,
                n == self.steps@.len(),
                Self::first_with_id(self.steps@, id@, 0) == Self::first_with_id(
                    self.steps@,
                    id@,
                    i as int,
                ),
            decreases n - i,
        {
            if str_eq(self.steps[i].id.as_str(), id) {
                return Some(&self.steps[i]);
            }
            i = i + 1;
        }
        None
    }

    /// The steps of one category: exactly those whose category equals
    /// the given name, in registration order.
    pub fn find_by_category<'a>(&'a self, category: &str) -> (r: Vec<&'a StepInfo>)
        ensures
            ref_views(r@) == spec_steps_of_category(
                self.steps@,
                category@,
                self.steps@.len() as int,
            ),
    {
        let mut r: Vec<&StepInfo> = Vec::new();
        let n = self.steps.len();
        proof {
            assert(ref_views(r@) =~= spec_steps_of_category(self.steps@, category@, 0));
        }
        for i in 0..n
            invariant
                n == self.steps@.len(),
                ref_views(r@) == spec_steps_of_category(self.steps@, category@, i as int),
        {
            if str_eq(self.steps[i].category.as_str(), category) {
                r.push(&self.steps[i]);
            }
            proof {
                assert(ref_views(r@) =~~= spec_steps_of_category(
                    self.steps@,
                    category@,
                    i + 1,
                ));
            }
        }
        r
    }

    /// Every registered step, in registration order.
    pub fn all_steps(&self) -> (r: &Vec<StepInfo>)
        ensures
            r == &self.steps,
    {
        &self.steps
    }

    /// How many steps are registered.
    pub fn total_steps(&self) -> (n: usize)
        ensures
            n == self.steps@.len(),
    {
        self.steps.len()
    }
}

impl Default for StepCatalog {
    fn default() -> (c: StepCatalog)
        ensures
            c.steps@.len() == 0,
            c.wf(),
    {
        StepCatalog::new()
    }
}

/// The fixed table: entry `k` of the catalog, for indexes 0 through 21.
pub open spec fn spec_catalog_entry_a(k: int, s: StepInfo) -> bool {
    if k == 0 {
        &&& s.id@ == "activate_tab"@
        &&& s.pattern@ == r#"I activate tab "([^"]+)""#@
        &&& s.category@ == "Other"@
        &&& s.description@ == "Step: activate_tab"@
        &&& s.aliases@.len() == 0
        &&& s.parameters@.len() == 0
        &&& s.examples@.len() == 0
    } else if k == 1 {
        &&& s.id@ == "alert_text_should_be"@
        &&& s.pattern@ == r#"the alert text should be "([^"]+)""#@
        &&& s.category@ == "Other"@
        &&& s.description@ == "Step: alert_text_should_be"@
        &&& s.aliases@.len() == 0
        &&& s.parameters@.len() == 0
        &&& s.examples@.len() == 0
    } else if k == 2 {
        &&& s.id@ == "apply_filter"@
        &&& s.pattern@ == r#"I apply filter "([^"]+)""#@
        &&& s.category@ == "Other"@
        &&& s.description@ == "Step: apply_filter"@
        &&& s.aliases@.len() == 0
        &&& s.parameters@.len() == 0
        &&& s.examples@.len() == 0
    } else if k == 3 {
        &&& s.id@ == "attribute_should_be"@
        &&& s.pattern@ == r#"the "([^"]+)" attribute of "([^"]+)" should be "([^"]+)""#@
        &&& s.category@ == "Verification"@
        &&& s.description@ == "Verify element attribute value"@
        &&& s.aliases@.len() == 1
        &&& s.aliases@[0]@ == r#"the element "([^"]+)" should have "([^"]+)" attribute set to "([^"]+)""#@
        &&& s.parameters@.len() == 0
        &&& s.examples@.len() == 0
    } else if k == 4 {
        &&& s.id@ == "attribute_should_contain"@
        &&& s.pattern@ == r#"the "([^"]+)" attribute of "([^"]+)" should contain "([^"]+)""#@
        &&& s.category@ == "Verification"@
        &&& s.description@ == "Verify element attribute contains value"@
        &&& s.aliases@.len() == 0
        &&& s.parameters@.len() == 0
        &&& s.examples@.len() == 0
    } else if k == 5 {
        &&& s.id@ == "attribute_should_exist"@
        &&& s.pattern@ == r#"the "([^"]+)" attribute of "([^"]+)" should exist"#@
        &&& s.category@ == "Verification"@
        &&& s.description@ == "Verify element attribute exists"@
        &&& s.aliases@.len() == 1
        &&& s.aliases@[0]@ == r#"the element "([^"]+)" should have "([^"]+)" attribute"#@
        &&& s.parameters@.len() == 0
        &&& s.examples@.len() == 0
    } else if k == 6 {
        &&& s.id@ == "background_should_be"@
        &&& s.pattern@ == r#"the element "([^"]+)" should have background "([^"]+)""#@
        &&& s.category@ == "Verification"@
        &&& s.description@ == "Verify element background"@
        &&& s.aliases@.len() == 0
        &&& s.parameters@.len() == 0
        &&& s.examples@.len() == 0
    } else if k == 7 {
        &&& s.id@ == "cancel_animation"@
        &&& s.pattern@ == r#"I cancel animation "([^"]+)""#@
        &&& s.category@ == "Other"@
        &&& s.description@ == "Step: cancel_animation"@
        &&& s.aliases@.len() == 0
        &&& s.parameters@.len() == 0
        &&& s.examples@.len() == 0
    } else if k == 8 {
        &&& s.id@ == "canonical_url_check"@
        &&& s.pattern@ == r#"the canonical URL should be "([^"]+)""#@
        &&& s.category@ == "Other"@
        &&& s.description@ == "Step: canonical_url_check"@
        &&& s.aliases@.len() == 0
        &&& s.parameters@.len() == 0
        &&& s.examples@.len() == 0
    } else if k == 9 {
        &&& s.id@ == "check"@
        &&& s.pattern@ == r#"I check "([^"]+)""#@
        &&& s.category@ == "Input"@
        &&& s.description@ == "Check a checkbox"@
        &&& s.aliases@.len() == 0
        &&& s.parameters@.len() == 0
        &&& s.examples@.len() == 0
    } else if k == 10 {
        &&& s.id@ == "check_meta_tag"@
        &&& s.pattern@ == r#"I check for meta "([^"]+)""#@
        &&& s.category@ == "Other"@
        &&& s.description@ == "Step: check_meta_tag"@
        &&& s.aliases@.len() == 0
        &&& s.parameters@.len() == 0
        &&& s.examples@.len() == 0
    } else if k == 11 {
        &&& s.id@ == "check_spelling"@
        &&& s.pattern@ == r#"I check spelling of "([^"]+)""#@
        &&& s.category@ == "Other"@
        &&& s.description@ == "Step: check_spelling"@
        &&& s.aliases@.len() == 0
        &&& s.parameters@.len() == 0
        &&& s.examples@.len() == 0
    } else if k == 12 {
        &&& s.id@ == "clear_canvas"@
        &&& s.pattern@ == r#"I clear canvas "([^"]+)""#@
        &&& s.category@ == "Other"@
        &&& s.description@ == "Step: clear_canvas"@
        &&& s.aliases@.len() == 0
        &&& s.parameters@.len() == 0
        &&& s.examples@.len() == 0
    } else if k == 13 {
        &&& s.id@ == "clear_selection_in_element"@
        &&& s.pattern@ == r#"I clear selection in "([^"]+)""#@
        &&& s.category@ == "Other"@
        &&& s.description@ == "Step: clear_selection_in_element"@
        &&& s.aliases@.len() == 0
        &&& s.parameters@.len() == 0
        &&& s.examples@.len() == 0
    } else if k == 14 {
        &&& s.id@ == "clear_text"@
        &&& s.pattern@ == r#"I clear "([^"]+)""#@
        &&& s.category@ == "Input"@
        &&& s.description@ == "Clear the contents of an input field"@
        &&& s.aliases@.len() == 2
        &&& s.aliases@[0]@ == r#"I clear the input "([^"]+)""#@
        &&& s.aliases@[1]@ == r#"I clear the field "([^"]+)""#@
        &&& s.parameters@.len() == 0
        &&& s.examples@.len() == 0
    } else if k == 15 {
        &&& s.id@ == "click"@
        &&& s.pattern@ == r#"I click on "([^"]+)""#@
        &&& s.category@ == "Interaction"@
        &&& s.description@ == "Click on an element"@
        &&& s.aliases@.len() == 3
        &&& s.aliases@[0]@ == r#"I click "([^"]+)""#@
        &&& s.aliases@[1]@ == r#"I press "([^"]+)""#@
        &&& s.aliases@[2]@ == r#"I tap "([^"]+)""#@
        &&& s.parameters@.len() == 0
        &&& s.examples@.len() == 0
    } else if k == 16 {
        &&& s.id@ == "click_all"@
        &&& s.pattern@ == r#"I click all "([^"]+)""#@
        &&& s.category@ == "Other"@
        &&& s.description@ == "Step: click_all"@
        &&& s.aliases@.len() == 0
        &&& s.parameters@.len() == 0
        &&& s.examples@.len() == 0
    } else if k == 17 {
        &&& s.id@ == "click_breadcrumb"@
        &&& s.pattern@ == r#"I click breadcrumb "([^"]+)""#@
        &&& s.category@ == "Other"@
        &&& s.description@ == "Step: click_breadcrumb"@
        &&& s.aliases@.len() == 0
        &&& s.parameters@.len() == 0
        &&& s.examples@.len() == 0
    } else if k == 18 {
        &&& s.id@ == "click_button"@
        &&& s.pattern@ == r#"I click the "([^"]+)" button"#@
        &&& s.category@ == "Interaction"@
        &&& s.description@ == "Click a button element"@
        &&& s.aliases@.len() == 0
        &&& s.parameters@.len() == 0
        &&& s.examples@.len() == 0
    } else if k == 19 {
        &&& s.id@ == "click_button_or_link"@
        &&& s.pattern@ == r#"I click the "([^"]+)" (button|link)"#@
        &&& s.category@ == "Interaction"@
        &&& s.description@ == "Click a button or link"@
        &&& s.aliases@.len() == 0
        &&& s.parameters@.len() == 0
        &&& s.examples@.len() == 0
    } else if k == 20 {
        &&& s.id@ == "click_link"@
        &&& s.pattern@ == r#"I click the "([^"]+)" link"#@
        &&& s.category@ == "Interaction"@
        &&& s.description@ == "Click a link element"@
        &&& s.aliases@.len() == 0
        &&& s.parameters@.len() == 0
        &&& s.examples@.len() == 0
    } else if k == 21 {
        &&& s.id@ == "click_sort_by"@
        &&& s.pattern@ == r#"I click sort by "([^"]+)""#@
        &&& s.category@ == "Other"@
        &&& s.description@ == "Step: click_sort_by"@
        &&& s.aliases@.len() == 0
        &&& s.parameters@.len() == 0
        &&& s.examples@.len() == 0
    } else {
        true
    }
}

/// The fixed table: entry `k` of the catalog, for indexes 22 through 43.
pub open spec fn spec_catalog_entry_b(k: int, s: StepInfo) -> bool {
    if k == 22 {
        &&& s.id@ == "clipboard_should_contain"@
        &&& s.pattern@ == r#"the clipboard should contain "([^"]+)""#@
        &&& s.category@ == "Other"@
        &&& s.description@ == "Step: clipboard_should_contain"@
        &&& s.aliases@.len() == 0
        &&& s.parameters@.len() == 0
        &&& s.examples@.len() == 0
    } else if k == 23 {
        &&& s.id@ == "color_should_be"@
        &&& s.pattern@ == r#"the element "([^"]+)" should have color "([^"]+)""#@
        &&& s.category@ == "Verification"@
        &&& s.description@ == "Verify element color"@
        &&& s.aliases@.len() == 0
        &&& s.parameters@.len() == 0
        &&& s.examples@.len() == 0
    } else if k == 24 {
        &&& s.id@ == "conditional_click_if_visible"@
        &&& s.pattern@ == r#"if "([^"]+)" is visible, I click it"#@
        &&& s.category@ == "Other"@
        &&& s.description@ == "Step: conditional_click_if_visible"@
        &&& s.aliases@.len() == 0
        &&& s.parameters@.len() == 0
        &&& s.examples@.len() == 0
    } else if k == 25 {
        &&& s.id@ == "conditional_navigate"@
        &&& s.pattern@ == r#"if the page contains "([^"]+)", I navigate to "([^"]+)""#@
        &&& s.category@ == "Other"@
        &&& s.description@ == "Step: conditional_navigate"@
        &&& s.aliases@.len() == 0
        &&& s.parameters@.len() == 0
        &&& s.examples@.len() == 0
    } else if k == 26 {
        &&& s.id@ == "conditional_type_if_exists"@
        &&& s.pattern@ == r#"if "([^"]+)" exists, I type "([^"]+)" into it"#@
        &&& s.category@ == "Other"@
        &&& s.description@ == "Step: conditional_type_if_exists"@
        &&& s.aliases@.len() == 0
        &&& s.parameters@.len() == 0
        &&& s.examples@.len() == 0
    } else if k == 27 {
        &&& s.id@ == "connect_websocket"@
        &&& s.pattern@ == r#"I connect to WebSocket at "([^"]+)""#@
        &&& s.category@ == "Other"@
        &&& s.description@ == "Step: connect_websocket"@
        &&& s.aliases@.len() == 0
        &&& s.parameters@.len() == 0
        &&& s.examples@.len() == 0
    } else if k == 28 {
        &&& s.id@ == "console_should_contain"@
        &&& s.pattern@ == r#"I should see console message "([^"]+)""#@
        &&& s.category@ == "Other"@
        &&& s.description@ == "Step: console_should_contain"@
        &&& s.aliases@.len() == 0
        &&& s.parameters@.len() == 0
        &&& s.examples@.len() == 0
    } else if k == 29 {
        &&& s.id@ == "console_should_not_contain"@
        &&& s.pattern@ == r#"I should not see console message "([^"]+)""#@
        &&& s.category@ == "Other"@
        &&& s.description@ == "Step: console_should_not_contain"@
        &&& s.aliases@.len() == 0
        &&& s.parameters@.len() == 0
        &&& s.examples@.len() == 0
    } else if k == 30 {
        &&& s.id@ == "continue_if_visible"@
        &&& s.pattern@ == r#"continue only if "([^"]+)" is (visible|present)"#@
        &&& s.category@ == "Other"@
        &&& s.description@ == "Step: continue_if_visible"@
        &&& s.aliases@.len() == 0
        &&& s.parameters@.len() == 0
        &&& s.examples@.len() == 0
    } else if k == 31 {
        &&& s.id@ == "copy_element_text"@
        &&& s.pattern@ == r#"I copy the text of "([^"]+)""#@
        &&& s.category@ == "Other"@
        &&& s.description@ == "Step: copy_element_text"@
        &&& s.aliases@.len() == 0
        &&& s.parameters@.len() == 0
        &&& s.examples@.len() == 0
    } else if k == 32 {
        &&& s.id@ == "copy_to_clipboard"@
        &&& s.pattern@ == r#"I copy "([^"]+)""#@
        &&& s.category@ == "Other"@
        &&& s.description@ == "Step: copy_to_clipboard"@
        &&& s.aliases@.len() == 0
        &&& s.parameters@.len() == 0
        &&& s.examples@.len() == 0
    } else if k == 33 {
        &&& s.id@ == "css_should_be"@
        &&& s.pattern@ == r#"the "([^"]+)" CSS property of "([^"]+)" should be "([^"]+)""#@
        &&& s.category@ == "Verification"@
        &&& s.description@ == "Verify CSS property value"@
        &&& s.aliases@.len() == 1
        &&& s.aliases@[0]@ == r#"the element "([^"]+)" should have "([^"]+)" CSS value of "([^"]+)""#@
        &&& s.parameters@.len() == 0
        &&& s.examples@.len() == 0
    } else if k == 34 {
        &&& s.id@ == "deactivate_tab"@
        &&& s.pattern@ == r#"I deactivate tab "([^"]+)""#@
        &&& s.category@ == "Other"@
        &&& s.description@ == "Step: deactivate_tab"@
        &&& s.aliases@.len() == 0
        &&& s.parameters@.len() == 0
        &&& s.examples@.len() == 0
    } else if k == 35 {
        &&& s.id@ == "deselect_all"@
        &&& s.pattern@ == r#"I deselect all from "([^"]+)""#@
        &&& s.category@ == "Input"@
        &&& s.description@ == "Deselect all options in a multi-select"@
        &&& s.aliases@.len() == 0
        &&& s.parameters@.len() == 0
        &&& s.examples@.len() == 0
    } else if k == 36 {
        &&& s.id@ == "double_click"@
        &&& s.pattern@ == r#"I double click on "([^"]+)""#@
        &&& s.category@ == "Interaction"@
        &&& s.description@ == "Double-click an element"@
        &&& s.aliases@.len() == 1
        &&& s.aliases@[0]@ == r#"I double-click "([^"]+)""#@
        &&& s.parameters@.len() == 0
        &&& s.examples@.len() == 0
    } else if k == 37 {
        &&& s.id@ == "download_file"@
        &&& s.pattern@ == r#"I download file from "([^"]+)""#@
        &&& s.category@ == "Other"@
        &&& s.description@ == "Step: download_file"@
        &&& s.aliases@.len() == 0
        &&& s.parameters@.len() == 0
        &&& s.examples@.len() == 0
    } else if k == 38 {
        &&& s.id@ == "download_filename_should_be"@
        &&& s.pattern@ == r#"the downloaded file should be named "([^"]+)""#@
        &&& s.category@ == "Other"@
        &&& s.description@ == "Step: download_filename_should_be"@
        &&& s.aliases@.len() == 0
        &&& s.parameters@.len() == 0
        &&& s.examples@.len() == 0
    } else if k == 39 {
        &&& s.id@ == "drag_and_drop"@
        &&& s.pattern@ == r#"I drag "([^"]+)" to "([^"]+)""#@
        &&& s.category@ == "Interaction"@
        &&& s.description@ == "Drag an element and drop it on another"@
        &&& s.aliases@.len() == 1
        &&& s.aliases@[0]@ == r#"I drag element "([^"]+)" and drop it on "([^"]+)""#@
        &&& s.parameters@.len() == 0
        &&& s.examples@.len() == 0
    } else if k == 40 {
        &&& s.id@ == "drag_by_offset"@
        &&& s.pattern@ == r#"I drag "([^"]+)" by offset (-?\d+),(-?\d+)""#@
        &&& s.category@ == "Other"@
        &&& s.description@ == "Step: drag_by_offset"@
        &&& s.aliases@.len() == 0
        &&& s.parameters@.len() == 0
        &&& s.examples@.len() == 0
    } else if k == 41 {
        &&& s.id@ == "drag_to_coordinates"@
        &&& s.pattern@ == r#"I drag "([^"]+)" to coordinates (\d+),(\d+)""#@
        &&& s.category@ == "Other"@
        &&& s.description@ == "Step: drag_to_coordinates"@
        &&& s.aliases@.len() == 0
        &&& s.parameters@.len() == 0
        &&& s.examples@.len() == 0
    } else if k == 42 {
        &&& s.id@ == "draw_on_canvas"@
        &&& s.pattern@ == r#"I draw on canvas "([^"]+)""#@
        &&& s.category@ == "Other"@
        &&& s.description@ == "Step: draw_on_canvas"@
        &&& s.aliases@.len() == 0
        &&& s.parameters@.len() == 0
        &&& s.examples@.len() == 0
    } else if k == 43 {
        &&& s.id@ == "drop_at"@
        &&& s.pattern@ == r#"I drop "([^"]+)" at "([^"]+)""#@
        &&& s.category@ == "Other"@
        &&& s.description@ == "Step: drop_at"@
        &&& s.aliases@.len() == 0
        &&& s.parameters@.len() == 0
        &&& s.examples@.len() == 0
    } else {
        true
    }
}

/// The fixed table: entry `k` of the catalog, for indexes 44 through 65.
pub open spec fn spec_catalog_entry_c(k: int, s: StepInfo) -> bool {
    if k == 44 {
        &&& s.id@ == "execute_script"@
        &&& s.pattern@ == r#"I execute JavaScript "([^"]+)""#@
        &&& s.category@ == "Other"@
        &&& s.description@ == "Step: execute_script"@
        &&& s.aliases@.len() == 4
        &&& s.aliases@[0]@ == r#"I execute script "([^"]+)""#@
        &&& s.aliases@[1]@ == r#"I run JavaScript "([^"]+)""#@
        &&& s.aliases@[2]@ == r#"I run script "([^"]+)""#@
        &&& s.aliases@[3]@ == r#"I evaluate "([^"]+)""#@
        &&& s.parameters@.len() == 0
        &&& s.examples@.len() == 0
    } else if k == 45 {
        &&& s.id@ == "extract_all_by_selector"@
        &&& s.pattern@ == r#"I extract all "([^"]+)""#@
        &&& s.category@ == "Other"@
        &&& s.description@ == "Step: extract_all_by_selector"@
        &&& s.aliases@.len() == 0
        &&& s.parameters@.len() == 0
        &&& s.examples@.len() == 0
    } else if k == 46 {
        &&& s.id@ == "extract_all_elements"@
        &&& s.pattern@ == r#"I extract all "([^"]+)""#@
        &&& s.category@ == "Other"@
        &&& s.description@ == "Step: extract_all_elements"@
        &&& s.aliases@.len() == 0
        &&& s.parameters@.len() == 0
        &&& s.examples@.len() == 0
    } else if k == 47 {
        &&& s.id@ == "extract_and_store_all"@
        &&& s.pattern@ == r#"I extract all "([^"]+)" and store them as "([^"]+)""#@
        &&& s.category@ == "Other"@
        &&& s.description@ == "Step: extract_and_store_all"@
        &&& s.aliases@.len() == 0
        &&& s.parameters@.len() == 0
        &&& s.examples@.len() == 0
    } else if k == 48 {
        &&& s.id@ == "extract_attribute_from_element"@
        &&& s.pattern@ == r#"I extract "([^"]+)" from "([^"]+)""#@
        &&& s.category@ == "Other"@
        &&& s.description@ == "Step: extract_attribute_from_element"@
        &&& s.aliases@.len() == 1
        &&& s.aliases@[0]@ == r#"I extract the "([^"]+)" attribute from "([^"]+)""#@
        &&& s.parameters@.len() == 0
        &&& s.examples@.len() == 0
    } else if k == 49 {
        &&& s.id@ == "extract_headings_level"@
        &&& s.pattern@ == r#"I extract all h(\d) headings"#@
        &&& s.category@ == "Extraction"@
        &&& s.description@ == "Extract headings by level"@
        &&& s.aliases@.len() == 0
        &&& s.parameters@.len() == 0
        &&& s.examples@.len() == 0
    } else if k == 50 {
        &&& s.id@ == "extract_table"@
        &&& s.pattern@ == r#"I extract table data from "([^"]+)""#@
        &&& s.category@ == "Other"@
        &&& s.description@ == "Step: extract_table"@
        &&& s.aliases@.len() == 1
        &&& s.aliases@[0]@ == r#"I extract the table "([^"]+)""#@
        &&& s.parameters@.len() == 0
        &&& s.examples@.len() == 0
    } else if k == 51 {
        &&& s.id@ == "extract_text_from_element"@
        &&& s.pattern@ == r#"I extract text from "([^"]+)""#@
        &&& s.category@ == "Other"@
        &&& s.description@ == "Step: extract_text_from_element"@
        &&& s.aliases@.len() == 0
        &&& s.parameters@.len() == 0
        &&& s.examples@.len() == 0
    } else if k == 52 {
        &&& s.id@ == "get_canvas_data"@
        &&& s.pattern@ == r#"I get canvas data from "([^"]+)""#@
        &&& s.category@ == "Other"@
        &&& s.description@ == "Step: get_canvas_data"@
        &&& s.aliases@.len() == 0
        &&& s.parameters@.len() == 0
        &&& s.examples@.len() == 0
    } else if k == 53 {
        &&& s.id@ == "get_local_storage"@
        &&& s.pattern@ == r#"I get local storage item "([^"]+)""#@
        &&& s.category@ == "State"@
        &&& s.description@ == "Get local storage value"@
        &&& s.aliases@.len() == 0
        &&& s.parameters@.len() == 0
        &&& s.examples@.len() == 0
    } else if k == 54 {
        &&& s.id@ == "get_session_storage"@
        &&& s.pattern@ == r#"I get session storage item "([^"]+)""#@
        &&& s.category@ == "State"@
        &&& s.description@ == "Get session storage value"@
        &&& s.aliases@.len() == 0
        &&& s.parameters@.len() == 0
        &&& s.examples@.len() == 0
    } else if k == 55 {
        &&& s.id@ == "hold_drag"@
        &&& s.pattern@ == r#"I hold drag on "([^"]+)""#@
        &&& s.category@ == "Other"@
        &&& s.description@ == "Step: hold_drag"@
        &&& s.aliases@.len() == 0
        &&& s.parameters@.len() == 0
        &&& s.examples@.len() == 0
    } else if k == 56 {
        &&& s.id@ == "hover"@
        &&& s.pattern@ == r#"I hover over "([^"]+)""#@
        &&& s.category@ == "Interaction"@
        &&& s.description@ == "Hover over an element"@
        &&& s.aliases@.len() == 2
        &&& s.aliases@[0]@ == r#"I hover "([^"]+)""#@
        &&& s.aliases@[1]@ == r#"I move mouse to "([^"]+)""#@
        &&& s.parameters@.len() == 0
        &&& s.examples@.len() == 0
    } else if k == 57 {
        &&& s.id@ == "hover_show_tooltip"@
        &&& s.pattern@ == r#"I hover over "([^"]+)" to show tooltip"#@
        &&& s.category@ == "Other"@
        &&& s.description@ == "Step: hover_show_tooltip"@
        &&& s.aliases@.len() == 0
        &&& s.parameters@.len() == 0
        &&& s.examples@.len() == 0
    } else if k == 58 {
        &&& s.id@ == "local_storage_should_contain"@
        &&& s.pattern@ == r#"the local storage should contain "([^"]+)""#@
        &&& s.category@ == "Other"@
        &&& s.description@ == "Step: local_storage_should_contain"@
        &&& s.aliases@.len() == 0
        &&& s.parameters@.len() == 0
        &&& s.examples@.len() == 0
    } else if k == 59 {
        &&& s.id@ == "loop_click_each"@
        &&& s.pattern@ == r#"for each "([^"]+)", I click it"#@
        &&& s.category@ == "Other"@
        &&& s.description@ == "Step: loop_click_each"@
        &&& s.aliases@.len() == 0
        &&& s.parameters@.len() == 0
        &&& s.examples@.len() == 0
    } else if k == 60 {
        &&& s.id@ == "manifest_name_check"@
        &&& s.pattern@ == r#"the manifest should have name "([^"]+)""#@
        &&& s.category@ == "Other"@
        &&& s.description@ == "Step: manifest_name_check"@
        &&& s.aliases@.len() == 0
        &&& s.parameters@.len() == 0
        &&& s.examples@.len() == 0
    } else if k == 61 {
        &&& s.id@ == "manifest_short_name_check"@
        &&& s.pattern@ == r#"the manifest should have short name "([^"]+)""#@
        &&& s.category@ == "Other"@
        &&& s.description@ == "Step: manifest_short_name_check"@
        &&& s.aliases@.len() == 0
        &&& s.parameters@.len() == 0
        &&& s.examples@.len() == 0
    } else if k == 62 {
        &&& s.id@ == "meta_description_check"@
        &&& s.pattern@ == r#"the meta description should be "([^"]+)""#@
        &&& s.category@ == "Other"@
        &&& s.description@ == "Step: meta_description_check"@
        &&& s.aliases@.len() == 0
        &&& s.parameters@.len() == 0
        &&& s.examples@.len() == 0
    } else if k == 63 {
        &&& s.id@ == "meta_keywords_check"@
        &&& s.pattern@ == r#"the meta keywords should contain "([^"]+)""#@
        &&& s.category@ == "Other"@
        &&& s.description@ == "Step: meta_keywords_check"@
        &&& s.aliases@.len() == 0
        &&& s.parameters@.len() == 0
        &&& s.examples@.len() == 0
    } else if k == 64 {
        &&& s.id@ == "meta_robots_check"@
        &&& s.pattern@ == r#"the meta robots should be "([^"]+)""#@
        &&& s.category@ == "Other"@
        &&& s.description@ == "Step: meta_robots_check"@
        &&& s.aliases@.len() == 0
        &&& s.parameters@.len() == 0
        &&& s.examples@.len() == 0
    } else if k == 65 {
        &&& s.id@ == "meta_viewport_check"@
        &&& s.pattern@ == r#"the meta viewport should be "([^"]+)""#@
        &&& s.category@ == "Other"@
        &&& s.description@ == "Step: meta_viewport_check"@
        &&& s.aliases@.len() == 0
        &&& s.parameters@.len() == 0
        &&& s.examples@.len() == 0
    } else {
        true
    }
}

/// The fixed table: entry `k` of the catalog, for indexes 66 through 87.
pub open spec fn spec_catalog_entry_d(k: int, s: StepInfo) -> bool {
    if k == 66 {
        &&& s.id@ == "mock_geolocation"@
        &&& s.pattern@ == r#"I mock geolocation to "([^"]+)""#@
        &&& s.category@ == "Other"@
        &&& s.description@ == "Step: mock_geolocation"@
        &&& s.aliases@.len() == 0
        &&& s.parameters@.len() == 0
        &&& s.examples@.len() == 0
    } else if k == 67 {
        &&& s.id@ == "mouse_down"@
        &&& s.pattern@ == r#"I mouse down on "([^"]+)""#@
        &&& s.category@ == "Other"@
        &&& s.description@ == "Step: mouse_down"@
        &&& s.aliases@.len() == 0
        &&& s.parameters@.len() == 0
        &&& s.examples@.len() == 0
    } else if k == 68 {
        &&& s.id@ == "mouse_move_to"@
        &&& s.pattern@ == r#"I mouse move to "([^"]+)""#@
        &&& s.category@ == "Other"@
        &&& s.description@ == "Step: mouse_move_to"@
        &&& s.aliases@.len() == 0
        &&& s.parameters@.len() == 0
        &&& s.examples@.len() == 0
    } else if k == 69 {
        &&& s.id@ == "mouse_out"@
        &&& s.pattern@ == r#"I mouse out of "([^"]+)""#@
        &&& s.category@ == "Other"@
        &&& s.description@ == "Step: mouse_out"@
        &&& s.aliases@.len() == 0
        &&& s.parameters@.len() == 0
        &&& s.examples@.len() == 0
    } else if k == 70 {
        &&& s.id@ == "mouse_over"@
        &&& s.pattern@ == r#"I mouse over "([^"]+)""#@
        &&& s.category@ == "Other"@
        &&& s.description@ == "Step: mouse_over"@
        &&& s.aliases@.len() == 0
        &&& s.parameters@.len() == 0
        &&& s.examples@.len() == 0
    } else if k == 71 {
        &&& s.id@ == "mouse_up"@
        &&& s.pattern@ == r#"I mouse up on "([^"]+)""#@
        &&& s.category@ == "Other"@
        &&& s.description@ == "Step: mouse_up"@
        &&& s.aliases@.len() == 0
        &&& s.parameters@.len() == 0
        &&& s.examples@.len() == 0
    } else if k == 72 {
        &&& s.id@ == "multi_touch"@
        &&& s.pattern@ == r#"I perform multi-touch gesture on "([^"]+)""#@
        &&& s.category@ == "Other"@
        &&& s.description@ == "Step: multi_touch"@
        &&& s.aliases@.len() == 0
        &&& s.parameters@.len() == 0
        &&& s.examples@.len() == 0
    } else if k == 73 {
        &&& s.id@ == "navigate_to"@
        &&& s.pattern@ == r#"I navigate to "([^"]+)""#@
        &&& s.category@ == "Navigation"@
        &&& s.description@ == "Navigate to a specified URL"@
        &&& s.aliases@.len() == 3
        &&& s.aliases@[0]@ == r#"I go to "([^"]+)""#@
        &&& s.aliases@[1]@ == r#"I open "([^"]+)""#@
        &&& s.aliases@[2]@ == r#"I visit "([^"]+)""#@
        &&& s.parameters@.len() == 0
        &&& s.examples@.len() == 0
    } else if k == 74 {
        &&& s.id@ == "paste_into"@
        &&& s.pattern@ == r#"I paste "([^"]+)" into "([^"]+)""#@
        &&& s.category@ == "Other"@
        &&& s.description@ == "Step: paste_into"@
        &&& s.aliases@.len() == 0
        &&& s.parameters@.len() == 0
        &&& s.examples@.len() == 0
    } else if k == 75 {
        &&& s.id@ == "path_should_be"@
        &&& s.pattern@ == r#"the path should be "([^"]+)""#@
        &&& s.category@ == "Verification"@
        &&& s.description@ == "Verify current path"@
        &&& s.aliases@.len() == 0
        &&& s.parameters@.len() == 0
        &&& s.examples@.len() == 0
    } else if k == 76 {
        &&& s.id@ == "path_should_contain"@
        &&& s.pattern@ == r#"the path should contain "([^"]+)""#@
        &&& s.category@ == "Verification"@
        &&& s.description@ == "Verify path contains value"@
        &&& s.aliases@.len() == 0
        &&& s.parameters@.len() == 0
        &&& s.examples@.len() == 0
    } else if k == 77 {
        &&& s.id@ == "pause_animation"@
        &&& s.pattern@ == r#"I pause animation "([^"]+)""#@
        &&& s.category@ == "Other"@
        &&& s.description@ == "Step: pause_animation"@
        &&& s.aliases@.len() == 0
        &&& s.parameters@.len() == 0
        &&& s.examples@.len() == 0
    } else if k == 78 {
        &&& s.id@ == "pinch_zoom"@
        &&& s.pattern@ == r#"I pinch to zoom in on "([^"]+)""#@
        &&& s.category@ == "Other"@
        &&& s.description@ == "Step: pinch_zoom"@
        &&& s.aliases@.len() == 0
        &&& s.parameters@.len() == 0
        &&& s.examples@.len() == 0
    } else if k == 79 {
        &&& s.id@ == "press_enter"@
        &&& s.pattern@ == r#"I press the Enter key"#@
        &&& s.category@ == "Input"@
        &&& s.description@ == "Press the Enter key"@
        &&& s.aliases@.len() == 1
        &&& s.aliases@[0]@ == r#"I press Enter"#@
        &&& s.parameters@.len() == 0
        &&& s.examples@.len() == 0
    } else if k == 80 {
        &&& s.id@ == "press_escape"@
        &&& s.pattern@ == r#"I press Escape key"#@
        &&& s.category@ == "Input"@
        &&& s.description@ == "Press the Escape key"@
        &&& s.aliases@.len() == 1
        &&& s.aliases@[0]@ == r#"I press Escape"#@
        &&& s.parameters@.len() == 0
        &&& s.examples@.len() == 0
    } else if k == 81 {
        &&& s.id@ == "press_key"@
        &&& s.pattern@ == r#"I press "([^"]+)" key"#@
        &&& s.category@ == "Input"@
        &&& s.description@ == "Press a keyboard key"@
        &&& s.aliases@.len() == 0
        &&& s.parameters@.len() == 0
        &&& s.examples@.len() == 0
    } else if k == 82 {
        &&& s.id@ == "press_tab"@
        &&& s.pattern@ == r#"I press Tab key"#@
        &&& s.category@ == "Input"@
        &&& s.description@ == "Press the Tab key"@
        &&& s.aliases@.len() == 1
        &&& s.aliases@[0]@ == r#"I press Tab"#@
        &&& s.parameters@.len() == 0
        &&& s.examples@.len() == 0
    } else if k == 83 {
        &&& s.id@ == "release_drag"@
        &&& s.pattern@ == r#"I release drag on "([^"]+)""#@
        &&& s.category@ == "Other"@
        &&& s.description@ == "Step: release_drag"@
        &&& s.aliases@.len() == 0
        &&& s.parameters@.len() == 0
        &&& s.examples@.len() == 0
    } else if k == 84 {
        &&& s.id@ == "remove_local_storage"@
        &&& s.pattern@ == r#"I remove local storage item "([^"]+)""#@
        &&& s.category@ == "Other"@
        &&& s.description@ == "Step: remove_local_storage"@
        &&& s.aliases@.len() == 0
        &&& s.parameters@.len() == 0
        &&& s.examples@.len() == 0
    } else if k == 85 {
        &&& s.id@ == "remove_session_storage"@
        &&& s.pattern@ == r#"I remove session storage item "([^"]+)""#@
        &&& s.category@ == "Other"@
        &&& s.description@ == "Step: remove_session_storage"@
        &&& s.aliases@.len() == 0
        &&& s.parameters@.len() == 0
        &&& s.examples@.len() == 0
    } else if k == 86 {
        &&& s.id@ == "resume_animation"@
        &&& s.pattern@ == r#"I resume animation "([^"]+)""#@
        &&& s.category@ == "Other"@
        &&& s.description@ == "Step: resume_animation"@
        &&& s.aliases@.len() == 0
        &&& s.parameters@.len() == 0
        &&& s.examples@.len() == 0
    } else if k == 87 {
        &&& s.id@ == "retry_click"@
        &&& s.pattern@ == r#"I retry clicking "([^"]+)" up to (\d+) times"#@
        &&& s.category@ == "Other"@
        &&& s.description@ == "Step: retry_click"@
        &&& s.aliases@.len() == 1
        &&& s.aliases@[0]@ == r#"I retry "([^"]+)" (\d+) times"#@
        &&& s.parameters@.len() == 0
        &&& s.examples@.len() == 0
    } else {
        true
    }
}

/// The fixed table: entry `k` of the catalog, for indexes 88 through 109.
pub open spec fn spec_catalog_entry_e(k: int, s: StepInfo) -> bool {
    if k == 88 {
        &&& s.id@ == "right_click"@
        &&& s.pattern@ == r#"I right click on "([^"]+)""#@
        &&& s.category@ == "Interaction"@
        &&& s.description@ == "Right-click an element"@
        &&& s.aliases@.len() == 2
        &&& s.aliases@[0]@ == r#"I right-click "([^"]+)""#@
        &&& s.aliases@[1]@ == r#"I click the right mouse button on "([^"]+)""#@
        &&& s.parameters@.len() == 0
        &&& s.examples@.len() == 0
    } else if k == 89 {
        &&& s.id@ == "rotate_element"@
        &&& s.pattern@ == r#"I rotate "([^"]+)" by (\d+) degrees?"#@
        &&& s.category@ == "Other"@
        &&& s.description@ == "Step: rotate_element"@
        &&& s.aliases@.len() == 0
        &&& s.parameters@.len() == 0
        &&& s.examples@.len() == 0
    } else if k == 90 {
        &&& s.id@ == "save_file_as"@
        &&& s.pattern@ == r#"I save file as "([^"]+)""#@
        &&& s.category@ == "Other"@
        &&& s.description@ == "Step: save_file_as"@
        &&& s.aliases@.len() == 0
        &&& s.parameters@.len() == 0
        &&& s.examples@.len() == 0
    } else if k == 91 {
        &&& s.id@ == "screenshot"@
        &&& s.pattern@ == r#"I take a screenshot "([^"]+)""#@
        &&& s.category@ == "Extraction"@
        &&& s.description@ == "Take a screenshot"@
        &&& s.aliases@.len() == 1
        &&& s.aliases@[0]@ == r#"I capture screenshot "([^"]+)""#@
        &&& s.parameters@.len() == 0
        &&& s.examples@.len() == 0
    } else if k == 92 {
        &&& s.id@ == "screenshot_element"@
        &&& s.pattern@ == r#"I take screenshot of "([^"]+)""#@
        &&& s.category@ == "Other"@
        &&& s.description@ == "Step: screenshot_element"@
        &&& s.aliases@.len() == 0
        &&& s.parameters@.len() == 0
        &&& s.examples@.len() == 0
    } else if k == 93 {
        &&& s.id@ == "scroll_position_check"@
        &&& s.pattern@ == r#"I should see scroll position (\d+)%"#@
        &&& s.category@ == "Scrolling"@
        &&& s.description@ == "Check scroll position"@
        &&& s.aliases@.len() == 0
        &&& s.parameters@.len() == 0
        &&& s.examples@.len() == 0
    } else if k == 94 {
        &&& s.id@ == "scroll_to_element"@
        &&& s.pattern@ == r#"I scroll to "([^"]+)""#@
        &&& s.category@ == "Scrolling"@
        &&& s.description@ == "Scroll to a specific element"@
        &&& s.aliases@.len() == 0
        &&& s.parameters@.len() == 0
        &&& s.examples@.len() == 0
    } else if k == 95 {
        &&& s.id@ == "scroll_to_percentage"@
        &&& s.pattern@ == r#"I scroll to position (\d+)%"#@
        &&& s.category@ == "Scrolling"@
        &&& s.description@ == "Scroll to percentage"@
        &&& s.aliases@.len() == 0
        &&& s.parameters@.len() == 0
        &&& s.examples@.len() == 0
    } else if k == 96 {
        &&& s.id@ == "select_all"@
        &&& s.pattern@ == r#"I select multiple options from "([^"]+)""#@
        &&& s.category@ == "Input"@
        &&& s.description@ == "Select all options in a multi-select"@
        &&& s.aliases@.len() == 0
        &&& s.parameters@.len() == 0
        &&& s.examples@.len() == 0
    } else if k == 97 {
        &&& s.id@ == "select_all_text_in_element"@
        &&& s.pattern@ == r#"I select all text in "([^"]+)""#@
        &&& s.category@ == "Other"@
        &&& s.description@ == "Step: select_all_text_in_element"@
        &&& s.aliases@.len() == 0
        &&& s.parameters@.len() == 0
        &&& s.examples@.len() == 0
    } else if k == 98 {
        &&& s.id@ == "select_autocomplete_suggestion"@
        &&& s.pattern@ == r#"I select autocomplete suggestion "([^"]+)""#@
        &&& s.category@ == "Other"@
        &&& s.description@ == "Step: select_autocomplete_suggestion"@
        &&& s.aliases@.len() == 0
        &&& s.parameters@.len() == 0
        &&& s.examples@.len() == 0
    } else if k == 99 {
        &&& s.id@ == "select_filter_option"@
        &&& s.pattern@ == r#"I select filter option "([^"]+)""#@
        &&& s.category@ == "Other"@
        &&& s.description@ == "Step: select_filter_option"@
        &&& s.aliases@.len() == 0
        &&& s.parameters@.len() == 0
        &&& s.examples@.len() == 0
    } else if k == 100 {
        &&& s.id@ == "select_multiple"@
        &&& s.pattern@ == r#"I select "([^"]+)", "([^"]+)", and "([^"]+)" from "([^"]+)""#@
        &&& s.category@ == "Input"@
        &&& s.description@ == "Select multiple options"@
        &&& s.aliases@.len() == 0
        &&& s.parameters@.len() == 0
        &&& s.examples@.len() == 0
    } else if k == 101 {
        &&& s.id@ == "select_option"@
        &&& s.pattern@ == r#"I select "([^"]+)" from "([^"]+)""#@
        &&& s.category@ == "Input"@
        &&& s.description@ == "Select an option from a dropdown"@
        &&& s.aliases@.len() == 2
        &&& s.aliases@[0]@ == r#"I choose "([^"]+)" from "([^"]+)""#@
        &&& s.aliases@[1]@ == r#"I pick "([^"]+)" from "([^"]+)""#@
        &&& s.parameters@.len() == 0
        &&& s.examples@.len() == 0
    } else if k == 102 {
        &&& s.id@ == "select_radio"@
        &&& s.pattern@ == r#"I select the "([^"]+)" radio (?:button|option)"#@
        &&& s.category@ == "Input"@
        &&& s.description@ == "Select a radio button option"@
        &&& s.aliases@.len() == 0
        &&& s.parameters@.len() == 0
        &&& s.examples@.len() == 0
    } else if k == 103 {
        &&& s.id@ == "select_text_range"@
        &&& s.pattern@ == r#"I select text from "([^"]+)" to "([^"]+)""#@
        &&& s.category@ == "Other"@
        &&& s.description@ == "Step: select_text_range"@
        &&& s.aliases@.len() == 0
        &&& s.parameters@.len() == 0
        &&& s.examples@.len() == 0
    } else if k == 104 {
        &&& s.id@ == "send_websocket_message"@
        &&& s.pattern@ == r#"I send WebSocket message "([^"]+)""#@
        &&& s.category@ == "Other"@
        &&& s.description@ == "Step: send_websocket_message"@
        &&& s.aliases@.len() == 0
        &&& s.parameters@.len() == 0
        &&& s.examples@.len() == 0
    } else if k == 105 {
        &&& s.id@ == "set_document_lang"@
        &&& s.pattern@ == r#"I set document language to "([^"]+)""#@
        &&& s.category@ == "Other"@
        &&& s.description@ == "Step: set_document_lang"@
        &&& s.aliases@.len() == 0
        &&& s.parameters@.len() == 0
        &&& s.examples@.len() == 0
    } else if k == 106 {
        &&& s.id@ == "set_local_storage"@
        &&& s.pattern@ == r#"I set local storage item "([^"]+)" to "([^"]+)""#@
        &&& s.category@ == "State"@
        &&& s.description@ == "Set local storage value"@
        &&& s.aliases@.len() == 0
        &&& s.parameters@.len() == 0
        &&& s.examples@.len() == 0
    } else if k == 107 {
        &&& s.id@ == "set_print_layout"@
        &&& s.pattern@ == r#"I set print layout to "([^"]+)""#@
        &&& s.category@ == "Other"@
        &&& s.description@ == "Step: set_print_layout"@
        &&& s.aliases@.len() == 0
        &&& s.parameters@.len() == 0
        &&& s.examples@.len() == 0
    } else if k == 108 {
        &&& s.id@ == "set_session_storage"@
        &&& s.pattern@ == r#"I set session storage item "([^"]+)" to "([^"]+)""#@
        &&& s.category@ == "State"@
        &&& s.description@ == "Set session storage value"@
        &&& s.aliases@.len() == 0
        &&& s.parameters@.len() == 0
        &&& s.examples@.len() == 0
    } else if k == 109 {
        &&& s.id@ == "set_user_agent"@
        &&& s.pattern@ == r#"I set user agent to "([^"]+)""#@
        &&& s.category@ == "Other"@
        &&& s.description@ == "Step: set_user_agent"@
        &&& s.aliases@.len() == 0
        &&& s.parameters@.len() == 0
        &&& s.examples@.len() == 0
    } else {
        true
    }
}

/// The fixed table: entry `k` of the catalog, for indexes 110 through 131.
pub open spec fn spec_catalog_entry_f(k: int, s: StepInfo) -> bool {
    if k == 110 {
        &&& s.id@ == "set_webgl_context"@
        &&& s.pattern@ == r#"I set WebGL context to "([^"]+)""#@
        &&& s.category@ == "Other"@
        &&& s.description@ == "Step: set_webgl_context"@
        &&& s.aliases@.len() == 0
        &&& s.parameters@.len() == 0
        &&& s.examples@.len() == 0
    } else if k == 111 {
        &&& s.id@ == "should_be_checked"@
        &&& s.pattern@ == r#"the element "([^"]+)" should be checked"#@
        &&& s.category@ == "Verification"@
        &&& s.description@ == "Verify checkbox is checked"@
        &&& s.aliases@.len() == 0
        &&& s.parameters@.len() == 0
        &&& s.examples@.len() == 0
    } else if k == 112 {
        &&& s.id@ == "should_be_disabled"@
        &&& s.pattern@ == r#"the element "([^"]+)" should be disabled"#@
        &&& s.category@ == "Verification"@
        &&& s.description@ == "Verify element is disabled"@
        &&& s.aliases@.len() == 0
        &&& s.parameters@.len() == 0
        &&& s.examples@.len() == 0
    } else if k == 113 {
        &&& s.id@ == "should_be_enabled"@
        &&& s.pattern@ == r#"the element "([^"]+)" should be enabled"#@
        &&& s.category@ == "Verification"@
        &&& s.description@ == "Verify element is enabled"@
        &&& s.aliases@.len() == 0
        &&& s.parameters@.len() == 0
        &&& s.examples@.len() == 0
    } else if k == 114 {
        &&& s.id@ == "should_be_focused"@
        &&& s.pattern@ == r#"the element "([^"]+)" should be focused"#@
        &&& s.category@ == "Verification"@
        &&& s.description@ == "Verify element has focus"@
        &&& s.aliases@.len() == 0
        &&& s.parameters@.len() == 0
        &&& s.examples@.len() == 0
    } else if k == 115 {
        &&& s.id@ == "should_be_selected"@
        &&& s.pattern@ == r#"the element "([^"]+)" should be selected"#@
        &&& s.category@ == "Verification"@
        &&& s.description@ == "Verify element is selected"@
        &&& s.aliases@.len() == 0
        &&& s.parameters@.len() == 0
        &&& s.examples@.len() == 0
    } else if k == 116 {
        &&& s.id@ == "should_be_sorted_by"@
        &&& s.pattern@ == r#"the items should be sorted by "([^"]+)""#@
        &&& s.category@ == "Other"@
        &&& s.description@ == "Step: should_be_sorted_by"@
        &&& s.aliases@.len() == 0
        &&& s.parameters@.len() == 0
        &&& s.examples@.len() == 0
    } else if k == 117 {
        &&& s.id@ == "should_be_visible"@
        &&& s.pattern@ == r#"the element "([^"]+)" should be visible"#@
        &&& s.category@ == "Verification"@
        &&& s.description@ == "Verify element is visible"@
        &&& s.aliases@.len() == 1
        &&& s.aliases@[0]@ == r#""([^"]+)" should be visible"#@
        &&& s.parameters@.len() == 0
        &&& s.examples@.len() == 0
    } else if k == 118 {
        &&& s.id@ == "should_contain_text"@
        &&& s.pattern@ == r#"the element "([^"]+)" should contain "([^"]+)""#@
        &&& s.category@ == "Verification"@
        &&& s.description@ == "Verify element contains text"@
        &&& s.aliases@.len() == 0
        &&& s.parameters@.len() == 0
        &&& s.examples@.len() == 0
    } else if k == 119 {
        &&& s.id@ == "should_exist"@
        &&& s.pattern@ == r#"the element "([^"]+)" should exist"#@
        &&& s.category@ == "Verification"@
        &&& s.description@ == "Verify element exists"@
        &&& s.aliases@.len() == 0
        &&& s.parameters@.len() == 0
        &&& s.examples@.len() == 0
    } else if k == 120 {
        &&& s.id@ == "should_not_be_checked"@
        &&& s.pattern@ == r#"the element "([^"]+)" should not be checked"#@
        &&& s.category@ == "Verification"@
        &&& s.description@ == "Verify checkbox is not checked"@
        &&& s.aliases@.len() == 0
        &&& s.parameters@.len() == 0
        &&& s.examples@.len() == 0
    } else if k == 121 {
        &&& s.id@ == "should_not_be_visible"@
        &&& s.pattern@ == r#"the element "([^"]+)" should not be visible"#@
        &&& s.category@ == "Verification"@
        &&& s.description@ == "Verify element is not visible"@
        &&& s.aliases@.len() == 1
        &&& s.aliases@[0]@ == r#""([^"]+)" should not be visible"#@
        &&& s.parameters@.len() == 0
        &&& s.examples@.len() == 0
    } else if k == 122 {
        &&& s.id@ == "should_not_contain_text"@
        &&& s.pattern@ == r#"the element "([^"]+)" should not contain "([^"]+)""#@
        &&& s.category@ == "Verification"@
        &&& s.description@ == "Verify element does not contain text"@
        &&& s.aliases@.len() == 0
        &&& s.parameters@.len() == 0
        &&& s.examples@.len() == 0
    } else if k == 123 {
        &&& s.id@ == "should_not_exist"@
        &&& s.pattern@ == r#"the element "([^"]+)" should not exist"#@
        &&& s.category@ == "Verification"@
        &&& s.description@ == "Verify element does not exist"@
        &&& s.aliases@.len() == 0
        &&& s.parameters@.len() == 0
        &&& s.examples@.len() == 0
    } else if k == 124 {
        &&& s.id@ == "should_not_see"@
        &&& s.pattern@ == r#"I should not see "([^"]+)""#@
        &&& s.category@ == "Verification"@
        &&& s.description@ == "Verify an element is not visible"@
        &&& s.aliases@.len() == 1
        &&& s.aliases@[0]@ == r#"I should not see the element "([^"]+)""#@
        &&& s.parameters@.len() == 0
        &&& s.examples@.len() == 0
    } else if k == 125 {
        &&& s.id@ == "should_not_see_text"@
        &&& s.pattern@ == r#"I should not see text "([^"]+)""#@
        &&& s.category@ == "Verification"@
        &&& s.description@ == "Verify text is not on page"@
        &&& s.aliases@.len() == 1
        &&& s.aliases@[0]@ == r#"the page should not contain "([^"]+)""#@
        &&& s.parameters@.len() == 0
        &&& s.examples@.len() == 0
    } else if k == 126 {
        &&& s.id@ == "should_receive_websocket_message"@
        &&& s.pattern@ == r#"I should receive WebSocket message "([^"]+)""#@
        &&& s.category@ == "Other"@
        &&& s.description@ == "Step: should_receive_websocket_message"@
        &&& s.aliases@.len() == 0
        &&& s.parameters@.len() == 0
        &&& s.examples@.len() == 0
    } else if k == 127 {
        &&& s.id@ == "should_see"@
        &&& s.pattern@ == r#"I should see "([^"]+)""#@
        &&& s.category@ == "Verification"@
        &&& s.description@ == "Verify an element is visible"@
        &&& s.aliases@.len() == 1
        &&& s.aliases@[0]@ == r#"I should see the element "([^"]+)""#@
        &&& s.parameters@.len() == 0
        &&& s.examples@.len() == 0
    } else if k == 128 {
        &&& s.id@ == "should_see_active_filter"@
        &&& s.pattern@ == r#"I should see active filter "([^"]+)""#@
        &&& s.category@ == "Other"@
        &&& s.description@ == "Step: should_see_active_filter"@
        &&& s.aliases@.len() == 0
        &&& s.parameters@.len() == 0
        &&& s.examples@.len() == 0
    } else if k == 129 {
        &&& s.id@ == "should_see_active_tab"@
        &&& s.pattern@ == r#"I should see active tab "([^"]+)""#@
        &&& s.category@ == "Other"@
        &&& s.description@ == "Step: should_see_active_tab"@
        &&& s.aliases@.len() == 0
        &&& s.parameters@.len() == 0
        &&& s.examples@.len() == 0
    } else if k == 130 {
        &&& s.id@ == "should_see_animation"@
        &&& s.pattern@ == r#"I should see animation "([^"]+)""#@
        &&& s.category@ == "Other"@
        &&& s.description@ == "Step: should_see_animation"@
        &&& s.aliases@.len() == 0
        &&& s.parameters@.len() == 0
        &&& s.examples@.len() == 0
    } else if k == 131 {
        &&& s.id@ == "should_see_autocomplete"@
        &&& s.pattern@ == r#"I should see autocomplete suggestions for "([^"]+)""#@
        &&& s.category@ == "Other"@
        &&& s.description@ == "Step: should_see_autocomplete"@
        &&& s.aliases@.len() == 0
        &&& s.parameters@.len() == 0
        &&& s.examples@.len() == 0
    } else {
        true
    }
}

/// The fixed table: entry `k` of the catalog, for indexes 132 through 153.
pub open spec fn spec_catalog_entry_g(k: int, s: StepInfo) -> bool {
    if k == 132 {
        &&& s.id@ == "should_see_breadcrumb"@
        &&& s.pattern@ == r#"I should see breadcrumb "([^"]+)""#@
        &&& s.category@ == "Other"@
        &&& s.description@ == "Step: should_see_breadcrumb"@
        &&& s.aliases@.len() == 0
        &&& s.parameters@.len() == 0
        &&& s.examples@.len() == 0
    } else if k == 133 {
        &&& s.id@ == "should_see_exact_count_elements"@
        &&& s.pattern@ == r#"there should be (\d+) "([^"]+)""#@
        &&& s.category@ == "Verification"@
        &&& s.description@ == "Verify exact count of specific elements"@
        &&& s.aliases@.len() == 0
        &&& s.parameters@.len() == 0
        &&& s.examples@.len() == 0
    } else if k == 134 {
        &&& s.id@ == "should_see_notification"@
        &&& s.pattern@ == r#"I should see notification "([^"]+)""#@
        &&& s.category@ == "Other"@
        &&& s.description@ == "Step: should_see_notification"@
        &&& s.aliases@.len() == 0
        &&& s.parameters@.len() == 0
        &&& s.examples@.len() == 0
    } else if k == 135 {
        &&& s.id@ == "should_see_text"@
        &&& s.pattern@ == r#"I should see text "([^"]+)""#@
        &&& s.category@ == "Verification"@
        &&& s.description@ == "Verify text is present on page"@
        &&& s.aliases@.len() == 1
        &&& s.aliases@[0]@ == r#"the page should contain "([^"]+)""#@
        &&& s.parameters@.len() == 0
        &&& s.examples@.len() == 0
    } else if k == 136 {
        &&& s.id@ == "should_see_tooltip"@
        &&& s.pattern@ == r#"I should see tooltip "([^"]+)""#@
        &&& s.category@ == "Other"@
        &&& s.description@ == "Step: should_see_tooltip"@
        &&& s.aliases@.len() == 0
        &&& s.parameters@.len() == 0
        &&& s.examples@.len() == 0
    } else if k == 137 {
        &&& s.id@ == "skip_if_visible"@
        &&& s.pattern@ == r#"skip the rest of the scenario if "([^"]+)" is (visible|present)"#@
        &&& s.category@ == "Other"@
        &&& s.description@ == "Step: skip_if_visible"@
        &&& s.aliases@.len() == 0
        &&& s.parameters@.len() == 0
        &&& s.examples@.len() == 0
    } else if k == 138 {
        &&& s.id@ == "sort_by"@
        &&& s.pattern@ == r#"I sort by "([^"]+)" in (?:ascending|descending) order"#@
        &&& s.category@ == "Other"@
        &&& s.description@ == "Step: sort_by"@
        &&& s.aliases@.len() == 0
        &&& s.parameters@.len() == 0
        &&& s.examples@.len() == 0
    } else if k == 139 {
        &&& s.id@ == "store_value"@
        &&& s.pattern@ == r#"I set "([^"]+)" to "([^"]+)""#@
        &&& s.category@ == "State"@
        &&& s.description@ == "Store value in variable"@
        &&& s.aliases@.len() == 2
        &&& s.aliases@[0]@ == r#"I save "([^"]+)" as "([^"]+)""#@
        &&& s.aliases@[1]@ == r#"I store "([^"]+)" as "([^"]+)""#@
        &&& s.parameters@.len() == 0
        &&& s.examples@.len() == 0
    } else if k == 140 {
        &&& s.id@ == "submit_form"@
        &&& s.pattern@ == r#"I submit the form "([^"]+)""#@
        &&& s.category@ == "Input"@
        &&& s.description@ == "Submit a form"@
        &&& s.aliases@.len() == 1
        &&& s.aliases@[0]@ == r#"I submit "([^"]+)""#@
        &&& s.parameters@.len() == 0
        &&& s.examples@.len() == 0
    } else if k == 141 {
        &&& s.id@ == "swipe_elements"@
        &&& s.pattern@ == r#"I swipe "([^"]+)" to "([^"]+)""#@
        &&& s.category@ == "Other"@
        &&& s.description@ == "Step: swipe_elements"@
        &&& s.aliases@.len() == 0
        &&& s.parameters@.len() == 0
        &&& s.examples@.len() == 0
    } else if k == 142 {
        &&& s.id@ == "switch_to_frame"@
        &&& s.pattern@ == r#"I switch to frame "([^"]+)""#@
        &&& s.category@ == "Navigation"@
        &&& s.description@ == "Switch to an iframe"@
        &&& s.aliases@.len() == 0
        &&& s.parameters@.len() == 0
        &&& s.examples@.len() == 0
    } else if k == 143 {
        &&& s.id@ == "switch_to_window"@
        &&& s.pattern@ == r#"I switch to window "([^"]+)""#@
        &&& s.category@ == "Other"@
        &&& s.description@ == "Step: switch_to_window"@
        &&& s.aliases@.len() == 0
        &&& s.parameters@.len() == 0
        &&& s.examples@.len() == 0
    } else if k == 144 {
        &&& s.id@ == "text_should_be"@
        &&& s.pattern@ == r#"the text of "([^"]+)" should be "([^"]+)""#@
        &&& s.category@ == "Verification"@
        &&& s.description@ == "Verify element text equals value"@
        &&& s.aliases@.len() == 1
        &&& s.aliases@[0]@ == r#"the text of "([^"]+)" should equal "([^"]+)""#@
        &&& s.parameters@.len() == 0
        &&& s.examples@.len() == 0
    } else if k == 145 {
        &&& s.id@ == "text_should_contain"@
        &&& s.pattern@ == r#"the text of "([^"]+)" should contain "([^"]+)""#@
        &&& s.category@ == "Verification"@
        &&& s.description@ == "Verify element text contains value"@
        &&& s.aliases@.len() == 0
        &&& s.parameters@.len() == 0
        &&& s.examples@.len() == 0
    } else if k == 146 {
        &&& s.id@ == "text_should_end"@
        &&& s.pattern@ == r#"the text of "([^"]+)" should end with "([^"]+)""#@
        &&& s.category@ == "Verification"@
        &&& s.description@ == "Verify element text ends with value"@
        &&& s.aliases@.len() == 0
        &&& s.parameters@.len() == 0
        &&& s.examples@.len() == 0
    } else if k == 147 {
        &&& s.id@ == "text_should_match"@
        &&& s.pattern@ == r#"the text of "([^"]+)" should match "([^"]+)""#@
        &&& s.category@ == "Verification"@
        &&& s.description@ == "Verify element text matches pattern"@
        &&& s.aliases@.len() == 0
        &&& s.parameters@.len() == 0
        &&& s.examples@.len() == 0
    } else if k == 148 {
        &&& s.id@ == "text_should_start"@
        &&& s.pattern@ == r#"the text of "([^"]+)" should start with "([^"]+)""#@
        &&& s.category@ == "Verification"@
        &&& s.description@ == "Verify element text starts with value"@
        &&& s.aliases@.len() == 0
        &&& s.parameters@.len() == 0
        &&& s.examples@.len() == 0
    } else if k == 149 {
        &&& s.id@ == "title_should_be"@
        &&& s.pattern@ == r#"the title should be "([^"]+)""#@
        &&& s.category@ == "Verification"@
        &&& s.description@ == "Verify page title"@
        &&& s.aliases@.len() == 0
        &&& s.parameters@.len() == 0
        &&& s.examples@.len() == 0
    } else if k == 150 {
        &&& s.id@ == "title_should_contain"@
        &&& s.pattern@ == r#"the title should contain "([^"]+)""#@
        &&& s.category@ == "Verification"@
        &&& s.description@ == "Verify page title contains value"@
        &&& s.aliases@.len() == 0
        &&& s.parameters@.len() == 0
        &&& s.examples@.len() == 0
    } else if k == 151 {
        &&& s.id@ == "toggle"@
        &&& s.pattern@ == r#"I toggle "([^"]+)""#@
        &&& s.category@ == "Input"@
        &&& s.description@ == "Toggle a checkbox or switch"@
        &&& s.aliases@.len() == 0
        &&& s.parameters@.len() == 0
        &&& s.examples@.len() == 0
    } else if k == 152 {
        &&& s.id@ == "tooltip_should_contain"@
        &&& s.pattern@ == r#"the tooltip should contain "([^"]+)""#@
        &&& s.category@ == "Other"@
        &&& s.description@ == "Step: tooltip_should_contain"@
        &&& s.aliases@.len() == 0
        &&& s.parameters@.len() == 0
        &&& s.examples@.len() == 0
    } else if k == 153 {
        &&& s.id@ == "touch_element"@
        &&& s.pattern@ == r#"I touch "([^"]+)""#@
        &&& s.category@ == "Other"@
        &&& s.description@ == "Step: touch_element"@
        &&& s.aliases@.len() == 0
        &&& s.parameters@.len() == 0
        &&& s.examples@.len() == 0
    } else {
        true
    }
}

/// The fixed table: entry `k` of the catalog, for indexes 154 through 173.
pub open spec fn spec_catalog_entry_h(k: int, s: StepInfo) -> bool {
    if k == 154 {
        &&& s.id@ == "type_in_search_box"@
        &&& s.pattern@ == r#"I type in search box "([^"]+)""#@
        &&& s.category@ == "Other"@
        &&& s.description@ == "Step: type_in_search_box"@
        &&& s.aliases@.len() == 0
        &&& s.parameters@.len() == 0
        &&& s.examples@.len() == 0
    } else if k == 155 {
        &&& s.id@ == "type_into"@
        &&& s.pattern@ == r#"I press "([^"]+)" in "([^"]+)""#@
        &&& s.category@ == "Input"@
        &&& s.description@ == "Type into a specific element"@
        &&& s.aliases@.len() == 0
        &&& s.parameters@.len() == 0
        &&& s.examples@.len() == 0
    } else if k == 156 {
        &&& s.id@ == "type_into_prompt"@
        &&& s.pattern@ == r#"I type "([^"]+)" into the prompt"#@
        &&& s.category@ == "Other"@
        &&& s.description@ == "Step: type_into_prompt"@
        &&& s.aliases@.len() == 0
        &&& s.parameters@.len() == 0
        &&& s.examples@.len() == 0
    } else if k == 157 {
        &&& s.id@ == "type_text"@
        &&& s.pattern@ == r#"I type "([^"]+)" into "([^"]+)""#@
        &&& s.category@ == "Input"@
        &&& s.description@ == "Type text into an input field"@
        &&& s.aliases@.len() == 6
        &&& s.aliases@[0]@ == r#"I enter "([^"]+)" into "([^"]+)""#@
        &&& s.aliases@[1]@ == r#"I type "([^"]+)" (?:in|into) "([^"]+)""#@
        &&& s.aliases@[2]@ == r#"I enter "([^"]+)" (?:in|into) "([^"]+)""#@
        &&& s.aliases@[3]@ == r#"I fill "([^"]+)" with "([^"]+)""#@
        &&& s.aliases@[4]@ == r#"I fill in "([^"]+)" with "([^"]+)""#@
        &&& s.aliases@[5]@ == r#"I input "([^"]+)" (?:in|into) "([^"]+)""#@
        &&& s.parameters@.len() == 0
        &&& s.examples@.len() == 0
    } else if k == 158 {
        &&& s.id@ == "uncheck"@
        &&& s.pattern@ == r#"I uncheck "([^"]+)""#@
        &&& s.category@ == "Input"@
        &&& s.description@ == "Uncheck a checkbox"@
        &&& s.aliases@.len() == 0
        &&& s.parameters@.len() == 0
        &&& s.examples@.len() == 0
    } else if k == 159 {
        &&& s.id@ == "upload_file"@
        &&& s.pattern@ == r#"I upload file "([^"]+)" to "([^"]+)""#@
        &&& s.category@ == "Input"@
        &&& s.description@ == "Upload a file"@
        &&& s.aliases@.len() == 2
        &&& s.aliases@[0]@ == r#"I attach "([^"]+)" to "([^"]+)""#@
        &&& s.aliases@[1]@ == r#"I upload file "([^"]+)" to "([^"]+)""#@
        &&& s.parameters@.len() == 0
        &&& s.examples@.len() == 0
    } else if k == 160 {
        &&& s.id@ == "url_should_be"@
        &&& s.pattern@ == r#"the URL should be "([^"]+)""#@
        &&& s.category@ == "Verification"@
        &&& s.description@ == "Verify current URL"@
        &&& s.aliases@.len() == 1
        &&& s.aliases@[0]@ == r#"the current URL should be "([^"]+)""#@
        &&& s.parameters@.len() == 0
        &&& s.examples@.len() == 0
    } else if k == 161 {
        &&& s.id@ == "url_should_contain"@
        &&& s.pattern@ == r#"the URL should contain "([^"]+)""#@
        &&& s.category@ == "Verification"@
        &&& s.description@ == "Verify URL contains value"@
        &&& s.aliases@.len() == 0
        &&& s.parameters@.len() == 0
        &&& s.examples@.len() == 0
    } else if k == 162 {
        &&& s.id@ == "use_stored_value"@
        &&& s.pattern@ == r#"I use the stored value "([^"]+)""#@
        &&& s.category@ == "Other"@
        &&& s.description@ == "Step: use_stored_value"@
        &&& s.aliases@.len() == 0
        &&& s.parameters@.len() == 0
        &&& s.examples@.len() == 0
    } else if k == 163 {
        &&& s.id@ == "value_should_be"@
        &&& s.pattern@ == r#"the value "([^"]+)" should be "([^"]+)""#@
        &&& s.category@ == "Other"@
        &&& s.description@ == "Step: value_should_be"@
        &&& s.aliases@.len() == 0
        &&& s.parameters@.len() == 0
        &&& s.examples@.len() == 0
    } else if k == 164 {
        &&& s.id@ == "verify_canvas_pixel"@
        &&& s.pattern@ == r#"I verify canvas pixel at "([^"]+)""#@
        &&& s.category@ == "Other"@
        &&& s.description@ == "Step: verify_canvas_pixel"@
        &&& s.aliases@.len() == 0
        &&& s.parameters@.len() == 0
        &&& s.examples@.len() == 0
    } else if k == 165 {
        &&& s.id@ == "verify_download"@
        &&& s.pattern@ == r#"I verify file "([^"]+)" was downloaded"#@
        &&& s.category@ == "Other"@
        &&& s.description@ == "Step: verify_download"@
        &&& s.aliases@.len() == 0
        &&& s.parameters@.len() == 0
        &&& s.examples@.len() == 0
    } else if k == 166 {
        &&& s.id@ == "wait_appear"@
        &&& s.pattern@ == r#"I wait for element "([^"]+)" to appear"#@
        &&& s.category@ == "Waiting"@
        &&& s.description@ == "Wait for an element to appear on the page"@
        &&& s.aliases@.len() == 2
        &&& s.aliases@[0]@ == r#"I wait for "([^"]+)" to appear"#@
        &&& s.aliases@[1]@ == r#"I wait until "([^"]+)" appears"#@
        &&& s.parameters@.len() == 0
        &&& s.examples@.len() == 0
    } else if k == 167 {
        &&& s.id@ == "wait_clickable"@
        &&& s.pattern@ == r#"I wait for element "([^"]+)" to be (?:clickable|enabled)"#@
        &&& s.category@ == "Waiting"@
        &&& s.description@ == "Wait for element to be clickable"@
        &&& s.aliases@.len() == 0
        &&& s.parameters@.len() == 0
        &&& s.examples@.len() == 0
    } else if k == 168 {
        &&& s.id@ == "wait_for_element_text"@
        &&& s.pattern@ == r#"I wait for element "([^"]+)" to contain "([^"]+)""#@
        &&& s.category@ == "Waiting"@
        &&& s.description@ == "Wait for element to contain text"@
        &&& s.aliases@.len() == 0
        &&& s.parameters@.len() == 0
        &&& s.examples@.len() == 0
    } else if k == 169 {
        &&& s.id@ == "wait_for_text"@
        &&& s.pattern@ == r#"I wait for text "([^"]+)" to appear"#@
        &&& s.category@ == "Waiting"@
        &&& s.description@ == "Wait for text to appear"@
        &&& s.aliases@.len() == 0
        &&& s.parameters@.len() == 0
        &&& s.examples@.len() == 0
    } else if k == 170 {
        &&& s.id@ == "wait_hidden"@
        &&& s.pattern@ == r#"I wait for element "([^"]+)" to be hidden"#@
        &&& s.category@ == "Waiting"@
        &&& s.description@ == "Wait for an element to become hidden"@
        &&& s.aliases@.len() == 1
        &&& s.aliases@[0]@ == r#"I wait for "([^"]+)" to disappear"#@
        &&& s.parameters@.len() == 0
        &&& s.examples@.len() == 0
    } else if k == 171 {
        &&& s.id@ == "wait_visible"@
        &&& s.pattern@ == r#"I wait for element "([^"]+)" to be visible"#@
        &&& s.category@ == "Waiting"@
        &&& s.description@ == "Wait for an element to become visible"@
        &&& s.aliases@.len() == 2
        &&& s.aliases@[0]@ == r#"I wait for "([^"]+)" to be visible"#@
        &&& s.aliases@[1]@ == r#"I wait until "([^"]+)" is visible"#@
        &&& s.parameters@.len() == 0
        &&& s.examples@.len() == 0
    } else if k == 172 {
        &&& s.id@ == "wait_with_timeout"@
        &&& s.pattern@ == r#"I wait for "([^"]+)" with timeout of (\d+) seconds"#@
        &&& s.category@ == "Other"@
        &&& s.description@ == "Step: wait_with_timeout"@
        &&& s.aliases@.len() == 0
        &&& s.parameters@.len() == 0
        &&& s.examples@.len() == 0
    } else if k == 173 {
        &&& s.id@ == "webgl_context_check"@
        &&& s.pattern@ == r#"the WebGL should have context "([^"]+)""#@
        &&& s.category@ == "Other"@
        &&& s.description@ == "Step: webgl_context_check"@
        &&& s.aliases@.len() == 0
        &&& s.parameters@.len() == 0
        &&& s.examples@.len() == 0
    } else {
        true
    }
}

/// The fixed table: what the catalog's entry `k` holds.
pub open spec fn spec_catalog_entry(k: int, s: StepInfo) -> bool {
    if k < 22 {
        spec_catalog_entry_a(k, s)
    } else if k < 44 {
        spec_catalog_entry_b(k, s)
    } else if k < 66 {
        spec_catalog_entry_c(k, s)
    } else if k < 88 {
        spec_catalog_entry_d(k, s)
    } else if k < 110 {
        spec_catalog_entry_e(k, s)
    } else if k < 132 {
        spec_catalog_entry_f(k, s)
    } else if k < 154 {
        spec_catalog_entry_g(k, s)
    } else {
        spec_catalog_entry_h(k, s)
    }
}

/// The canonical catalog: well-formed, 174 entries, each the fixed
/// table's entry for its index.  Any two values satisfying this agree on
/// every entry's text fields.
pub open spec fn spec_canonical_catalog(c: StepCatalog) -> bool {
    &&& c.wf()
    &&& c.steps@.len() == 174
    &&& forall|k: int| 0 <= k < 174 ==> spec_catalog_entry(k, #[trigger] c.steps@[k])
}

fn register_steps_a(catalog: &mut StepCatalog)
    requires
        old(catalog).wf(),
        old(catalog).steps@.len() == 0,
    ensures
        final(catalog).wf(),
        final(catalog).steps@.len() == old(catalog).steps@.len() + 22,
        forall|k: int|
            0 <= k < 22 ==> spec_catalog_entry(k, #[trigger] final(catalog).steps@[k]),
        forall|i: int|
            0 <= i < old(catalog).steps@.len() ==> final(catalog).steps@[i] == old(
                catalog,
            ).steps@[i],
        forall|i: int|
            old(catalog).steps@.len() <= i < final(catalog).steps@.len()
                ==> step_entry_named(#[trigger] final(catalog).steps@[i]),
{
    catalog.add_step(StepInfo {
        id: String::from_str("activate_tab"),
        pattern: String::from_str(r#"I activate tab "([^"]+)""#),
        aliases: Vec::new(),
        category: String::from_str("Other"),
        description: String::from_str("Step: activate_tab"),
        parameters: Vec::new(),
        examples: Vec::new(),
    });
    proof {
        reveal_strlit("activate_tab");
        reveal_strlit(r#"I activate tab "([^"]+)""#);
        assert(step_entry_named(catalog.steps@.last()));
        assert(spec_catalog_entry(0, catalog.steps@.last()));
    }

    catalog.add_step(StepInfo {
        id: String::from_str("alert_text_should_be"),
        pattern: String::from_str(r#"the alert text should be "([^"]+)""#),
        aliases: Vec::new(),
        category: String::from_str("Other"),
        description: String::from_str("Step: alert_text_should_be"),
        parameters: Vec::new(),
        examples: Vec::new(),
    });
    proof {
        reveal_strlit("alert_text_should_be");
        reveal_strlit(r#"the alert text should be "([^"]+)""#);
        assert(step_entry_named(catalog.steps@.last()));
        assert(spec_catalog_entry(1, catalog.steps@.last()));
    }

    catalog.add_step(StepInfo {
        id: String::from_str("apply_filter"),
        pattern: String::from_str(r#"I apply filter "([^"]+)""#),
        aliases: Vec::new(),
        category: String::from_str("Other"),
        description: String::from_str("Step: apply_filter"),
        parameters: Vec::new(),
        examples: Vec::new(),
    });
    proof {
        reveal_strlit("apply_filter");
        reveal_strlit(r#"I apply filter "([^"]+)""#);
        assert(step_entry_named(catalog.steps@.last()));
        assert(spec_catalog_entry(2, catalog.steps@.last()));
    }

    catalog.add_step(StepInfo {
        id: String::from_str("attribute_should_be"),
        pattern: String::from_str(r#"the "([^"]+)" attribute of "([^"]+)" should be "([^"]+)""#),
        aliases: vec![
            String::from_str(r#"the element "([^"]+)" should have "([^"]+)" attribute set to "([^"]+)""#),
        ],
        category: String::from_str("Verification"),
        description: String::from_str("Verify element attribute value"),
        parameters: Vec::new(),
        examples: Vec::new(),
    });
    proof {
        reveal_strlit("attribute_should_be");
        reveal_strlit(r#"the "([^"]+)" attribute of "([^"]+)" should be "([^"]+)""#);
        assert(step_entry_named(catalog.steps@.last()));
        assert(spec_catalog_entry(3, catalog.steps@.last()));
    }

    catalog.add_step(StepInfo {
        id: String::from_str("attribute_should_contain"),
        pattern: String::from_str(r#"the "([^"]+)" attribute of "([^"]+)" should contain "([^"]+)""#),
        aliases: Vec::new(),
        category: String::from_str("Verification"),
        description: String::from_str("Verify element attribute contains value"),
        parameters: Vec::new(),
        examples: Vec::new(),
    });
    proof {
        reveal_strlit("attribute_should_contain");
        reveal_strlit(r#"the "([^"]+)" attribute of "([^"]+)" should contain "([^"]+)""#);
        assert(step_entry_named(catalog.steps@.last()));
        assert(spec_catalog_entry(4, catalog.steps@.last()));
    }

    catalog.add_step(StepInfo {
        id: String::from_str("attribute_should_exist"),
        pattern: String::from_str(r#"the "([^"]+)" attribute of "([^"]+)" should exist"#),
        aliases: vec![String::from_str(r#"the element "([^"]+)" should have "([^"]+)" attribute"#)],
        category: String::from_str("Verification"),
        description: String::from_str("Verify element attribute exists"),
        parameters: Vec::new(),
        examples: Vec::new(),
    });
    proof {
        reveal_strlit("attribute_should_exist");
        reveal_strlit(r#"the "([^"]+)" attribute of "([^"]+)" should exist"#);
        assert(step_entry_named(catalog.steps@.last()));
        assert(spec_catalog_entry(5, catalog.steps@.last()));
    }

    catalog.add_step(StepInfo {
        id: String::from_str("background_should_be"),
        pattern: String::from_str(r#"the element "([^"]+)" should have background "([^"]+)""#),
        aliases: Vec::new(),
        category: String::from_str("Verification"),
        description: String::from_str("Verify element background"),
        parameters: Vec::new(),
        examples: Vec::new(),
    });
    proof {
        reveal_strlit("background_should_be");
        reveal_strlit(r#"the element "([^"]+)" should have background "([^"]+)""#);
        assert(step_entry_named(catalog.steps@.last()));
        assert(spec_catalog_entry(6, catalog.steps@.last()));
    }

    catalog.add_step(StepInfo {
        id: String::from_str("cancel_animation"),
        pattern: String::from_str(r#"I cancel animation "([^"]+)""#),
        aliases: Vec::new(),
        category: String::from_str("Other"),
        description: String::from_str("Step: cancel_animation"),
        parameters: Vec::new(),
        examples: Vec::new(),
    });
    proof {
        reveal_strlit("cancel_animation");
        reveal_strlit(r#"I cancel animation "([^"]+)""#);
        assert(step_entry_named(catalog.steps@.last()));
        assert(spec_catalog_entry(7, catalog.steps@.last()));
    }

    catalog.add_step(StepInfo {
        id: String::from_str("canonical_url_check"),
        pattern: String::from_str(r#"the canonical URL should be "([^"]+)""#),
        aliases: Vec::new(),
        category: String::from_str("Other"),
        description: String::from_str("Step: canonical_url_check"),
        parameters: Vec::new(),
        examples: Vec::new(),
    });
    proof {
        reveal_strlit("canonical_url_check");
        reveal_strlit(r#"the canonical URL should be "([^"]+)""#);
        assert(step_entry_named(catalog.steps@.last()));
        assert(spec_catalog_entry(8, catalog.steps@.last()));
    }

    catalog.add_step(StepInfo {
        id: String::from_str("check"),
        pattern: String::from_str(r#"I check "([^"]+)""#),
        aliases: Vec::new(),
        category: String::from_str("Input"),
        description: String::from_str("Check a checkbox"),
        parameters: Vec::new(),
        examples: Vec::new(),
    });
    proof {
        reveal_strlit("check");
        reveal_strlit(r#"I check "([^"]+)""#);
        assert(step_entry_named(catalog.steps@.last()));
        assert(spec_catalog_entry(9, catalog.steps@.last()));
    }

    catalog.add_step(StepInfo {
        id: String::from_str("check_meta_tag"),
        pattern: String::from_str(r#"I check for meta "([^"]+)""#),
        aliases: Vec::new(),
        category: String::from_str("Other"),
        description: String::from_str("Step: check_meta_tag"),
        parameters: Vec::new(),
        examples: Vec::new(),
    });
    proof {
        reveal_strlit("check_meta_tag");
        reveal_strlit(r#"I check for meta "([^"]+)""#);
        assert(step_entry_named(catalog.steps@.last()));
        assert(spec_catalog_entry(10, catalog.steps@.last()));
    }

    catalog.add_step(StepInfo {
        id: String::from_str("check_spelling"),
        pattern: String::from_str(r#"I check spelling of "([^"]+)""#),
        aliases: Vec::new(),
        category: String::from_str("Other"),
        description: String::from_str("Step: check_spelling"),
        parameters: Vec::new(),
        examples: Vec::new(),
    });
    proof {
        reveal_strlit("check_spelling");
        reveal_strlit(r#"I check spelling of "([^"]+)""#);
        assert(step_entry_named(catalog.steps@.last()));
        assert(spec_catalog_entry(11, catalog.steps@.last()));
    }

    catalog.add_step(StepInfo {
        id: String::from_str("clear_canvas"),
        pattern: String::from_str(r#"I clear canvas "([^"]+)""#),
        aliases: Vec::new(),
        category: String::from_str("Other"),
        description: String::from_str("Step: clear_canvas"),
        parameters: Vec::new(),
        examples: Vec::new(),
    });
    proof {
        reveal_strlit("clear_canvas");
        reveal_strlit(r#"I clear canvas "([^"]+)""#);
        assert(step_entry_named(catalog.steps@.last()));
        assert(spec_catalog_entry(12, catalog.steps@.last()));
    }

    catalog.add_step(StepInfo {
        id: String::from_str("clear_selection_in_element"),
        pattern: String::from_str(r#"I clear selection in "([^"]+)""#),
        aliases: Vec::new(),
        category: String::from_str("Other"),
        description: String::from_str("Step: clear_selection_in_element"),
        parameters: Vec::new(),
        examples: Vec::new(),
    });
    proof {
        reveal_strlit("clear_selection_in_element");
        reveal_strlit(r#"I clear selection in "([^"]+)""#);
        assert(step_entry_named(catalog.steps@.last()));
        assert(spec_catalog_entry(13, catalog.steps@.last()));
    }

    catalog.add_step(StepInfo {
        id: String::from_str("clear_text"),
        pattern: String::from_str(r#"I clear "([^"]+)""#),
        aliases: vec![
            String::from_str(r#"I clear the input "([^"]+)""#),
            String::from_str(r#"I clear the field "([^"]+)""#),
        ],
        category: String::from_str("Input"),
        description: String::from_str("Clear the contents of an input field"),
        parameters: Vec::new(),
        examples: Vec::new(),
    });
    proof {
        reveal_strlit("clear_text");
        reveal_strlit(r#"I clear "([^"]+)""#);
        assert(step_entry_named(catalog.steps@.last()));
        assert(spec_catalog_entry(14, catalog.steps@.last()));
    }

    catalog.add_step(StepInfo {
        id: String::from_str("click"),
        pattern: String::from_str(r#"I click on "([^"]+)""#),
        aliases: vec![
            String::from_str(r#"I click "([^"]+)""#),
            String::from_str(r#"I press "([^"]+)""#),
            String::from_str(r#"I tap "([^"]+)""#),
        ],
        category: String::from_str("Interaction"),
        description: String::from_str("Click on an element"),
        parameters: Vec::new(),
        examples: Vec::new(),
    });
    proof {
        reveal_strlit("click");
        reveal_strlit(r#"I click on "([^"]+)""#);
        assert(step_entry_named(catalog.steps@.last()));
        assert(spec_catalog_entry(15, catalog.steps@.last()));
    }

    catalog.add_step(StepInfo {
        id: String::from_str("click_all"),
        pattern: String::from_str(r#"I click all "([^"]+)""#),
        aliases: Vec::new(),
        category: String::from_str("Other"),
        description: String::from_str("Step: click_all"),
        parameters: Vec::new(),
        examples: Vec::new(),
    });
    proof {
        reveal_strlit("click_all");
        reveal_strlit(r#"I click all "([^"]+)""#);
        assert(step_entry_named(catalog.steps@.last()));
        assert(spec_catalog_entry(16, catalog.steps@.last()));
    }

    catalog.add_step(StepInfo {
        id: String::from_str("click_breadcrumb"),
        pattern: String::from_str(r#"I click breadcrumb "([^"]+)""#),
        aliases: Vec::new(),
        category: String::from_str("Other"),
        description: String::from_str("Step: click_breadcrumb"),
        parameters: Vec::new(),
        examples: Vec::new(),
    });
    proof {
        reveal_strlit("click_breadcrumb");
        reveal_strlit(r#"I click breadcrumb "([^"]+)""#);
        assert(step_entry_named(catalog.steps@.last()));
        assert(spec_catalog_entry(17, catalog.steps@.last()));
    }

    catalog.add_step(StepInfo {
        id: String::from_str("click_button"),
        pattern: String::from_str(r#"I click the "([^"]+)" button"#),
        aliases: Vec::new(),
        category: String::from_str("Interaction"),
        description: String::from_str("Click a button element"),
        parameters: Vec::new(),
        examples: Vec::new(),
    });
    proof {
        reveal_strlit("click_button");
        reveal_strlit(r#"I click the "([^"]+)" button"#);
        assert(step_entry_named(catalog.steps@.last()));
        assert(spec_catalog_entry(18, catalog.steps@.last()));
    }

    catalog.add_step(StepInfo {
        id: String::from_str("click_button_or_link"),
        pattern: String::from_str(r#"I click the "([^"]+)" (button|link)"#),
        aliases: Vec::new(),
        category: String::from_str("Interaction"),
        description: String::from_str("Click a button or link"),
        parameters: Vec::new(),
        examples: Vec::new(),
    });
    proof {
        reveal_strlit("click_button_or_link");
        reveal_strlit(r#"I click the "([^"]+)" (button|link)"#);
        assert(step_entry_named(catalog.steps@.last()));
        assert(spec_catalog_entry(19, catalog.steps@.last()));
    }

    catalog.add_step(StepInfo {
        id: String::from_str("click_link"),
        pattern: String::from_str(r#"I click the "([^"]+)" link"#),
        aliases: Vec::new(),
        category: String::from_str("Interaction"),
        description: String::from_str("Click a link element"),
        parameters: Vec::new(),
        examples: Vec::new(),
    });
    proof {
        reveal_strlit("click_link");
        reveal_strlit(r#"I click the "([^"]+)" link"#);
        assert(step_entry_named(catalog.steps@.last()));
        assert(spec_catalog_entry(20, catalog.steps@.last()));
    }

    catalog.add_step(StepInfo {
        id: String::from_str("click_sort_by"),
        pattern: String::from_str(r#"I click sort by "([^"]+)""#),
        aliases: Vec::new(),
        category: String::from_str("Other"),
        description: String::from_str("Step: click_sort_by"),
        parameters: Vec::new(),
        examples: Vec::new(),
    });
    proof {
        reveal_strlit("click_sort_by");
        reveal_strlit(r#"I click sort by "([^"]+)""#);
        assert(step_entry_named(catalog.steps@.last()));
        assert(spec_catalog_entry(21, catalog.steps@.last()));
    }

}

fn register_steps_b(catalog: &mut StepCatalog)
    requires
        old(catalog).wf(),
        old(catalog).steps@.len() == 22,
    ensures
        final(catalog).wf(),
        final(catalog).steps@.len() == old(catalog).steps@.len() + 22,
        forall|k: int|
            22 <= k < 44 ==> spec_catalog_entry(k, #[trigger] final(catalog).steps@[k]),
        forall|i: int|
            0 <= i < old(catalog).steps@.len() ==> final(catalog).steps@[i] == old(
                catalog,
            ).steps@[i],
        forall|i: int|
            old(catalog).steps@.len() <= i < final(catalog).steps@.len()
                ==> step_entry_named(#[trigger] final(catalog).steps@[i]),
{
    catalog.add_step(StepInfo {
        id: String::from_str("clipboard_should_contain"),
        pattern: String::from_str(r#"the clipboard should contain "([^"]+)""#),
        aliases: Vec::new(),
        category: String::from_str("Other"),
        description: String::from_str("Step: clipboard_should_contain"),
        parameters: Vec::new(),
        examples: Vec::new(),
    });
    proof {
        reveal_strlit("clipboard_should_contain");
        reveal_strlit(r#"the clipboard should contain "([^"]+)""#);
        assert(step_entry_named(catalog.steps@.last()));
        assert(spec_catalog_entry(22, catalog.steps@.last()));
    }

    catalog.add_step(StepInfo {
        id: String::from_str("color_should_be"),
        pattern: String::from_str(r#"the element "([^"]+)" should have color "([^"]+)""#),
        aliases: Vec::new(),
        category: String::from_str("Verification"),
        description: String::from_str("Verify element color"),
        parameters: Vec::new(),
        examples: Vec::new(),
    });
    proof {
        reveal_strlit("color_should_be");
        reveal_strlit(r#"the element "([^"]+)" should have color "([^"]+)""#);
        assert(step_entry_named(catalog.steps@.last()));
        assert(spec_catalog_entry(23, catalog.steps@.last()));
    }

    catalog.add_step(StepInfo {
        id: String::from_str("conditional_click_if_visible"),
        pattern: String::from_str(r#"if "([^"]+)" is visible, I click it"#),
        aliases: Vec::new(),
        category: String::from_str("Other"),
        description: String::from_str("Step: conditional_click_if_visible"),
        parameters: Vec::new(),
        examples: Vec::new(),
    });
    proof {
        reveal_strlit("conditional_click_if_visible");
        reveal_strlit(r#"if "([^"]+)" is visible, I click it"#);
        assert(step_entry_named(catalog.steps@.last()));
        assert(spec_catalog_entry(24, catalog.steps@.last()));
    }

    catalog.add_step(StepInfo {
        id: String::from_str("conditional_navigate"),
        pattern: String::from_str(r#"if the page contains "([^"]+)", I navigate to "([^"]+)""#),
        aliases: Vec::new(),
        category: String::from_str("Other"),
        description: String::from_str("Step: conditional_navigate"),
        parameters: Vec::new(),
        examples: Vec::new(),
    });
    proof {
        reveal_strlit("conditional_navigate");
        reveal_strlit(r#"if the page contains "([^"]+)", I navigate to "([^"]+)""#);
        assert(step_entry_named(catalog.steps@.last()));
        assert(spec_catalog_entry(25, catalog.steps@.last()));
    }

    catalog.add_step(StepInfo {
        id: String::from_str("conditional_type_if_exists"),
        pattern: String::from_str(r#"if "([^"]+)" exists, I type "([^"]+)" into it"#),
        aliases: Vec::new(),
        category: String::from_str("Other"),
        description: String::from_str("Step: conditional_type_if_exists"),
        parameters: Vec::new(),
        examples: Vec::new(),
    });
    proof {
        reveal_strlit("conditional_type_if_exists");
        reveal_strlit(r#"if "([^"]+)" exists, I type "([^"]+)" into it"#);
        assert(step_entry_named(catalog.steps@.last()));
        assert(spec_catalog_entry(26, catalog.steps@.last()));
    }

    catalog.add_step(StepInfo {
        id: String::from_str("connect_websocket"),
        pattern: String::from_str(r#"I connect to WebSocket at "([^"]+)""#),
        aliases: Vec::new(),
        category: String::from_str("Other"),
        description: String::from_str("Step: connect_websocket"),
        parameters: Vec::new(),
        examples: Vec::new(),
    });
    proof {
        reveal_strlit("connect_websocket");
        reveal_strlit(r#"I connect to WebSocket at "([^"]+)""#);
        assert(step_entry_named(catalog.steps@.last()));
        assert(spec_catalog_entry(27, catalog.steps@.last()));
    }

    catalog.add_step(StepInfo {
        id: String::from_str("console_should_contain"),
        pattern: String::from_str(r#"I should see console message "([^"]+)""#),
        aliases: Vec::new(),
        category: String::from_str("Other"),
        description: String::from_str("Step: console_should_contain"),
        parameters: Vec::new(),
        examples: Vec::new(),
    });
    proof {
        reveal_strlit("console_should_contain");
        reveal_strlit(r#"I should see console message "([^"]+)""#);
        assert(step_entry_named(catalog.steps@.last()));
        assert(spec_catalog_entry(28, catalog.steps@.last()));
    }

    catalog.add_step(StepInfo {
        id: String::from_str("console_should_not_contain"),
        pattern: String::from_str(r#"I should not see console message "([^"]+)""#),
        aliases: Vec::new(),
        category: String::from_str("Other"),
        description: String::from_str("Step: console_should_not_contain"),
        parameters: Vec::new(),
        examples: Vec::new(),
    });
    proof {
        reveal_strlit("console_should_not_contain");
        reveal_strlit(r#"I should not see console message "([^"]+)""#);
        assert(step_entry_named(catalog.steps@.last()));
        assert(spec_catalog_entry(29, catalog.steps@.last()));
    }

    catalog.add_step(StepInfo {
        id: String::from_str("continue_if_visible"),
        pattern: String::from_str(r#"continue only if "([^"]+)" is (visible|present)"#),
        aliases: Vec::new(),
        category: String::from_str("Other"),
        description: String::from_str("Step: continue_if_visible"),
        parameters: Vec::new(),
        examples: Vec::new(),
    });
    proof {
        reveal_strlit("continue_if_visible");
        reveal_strlit(r#"continue only if "([^"]+)" is (visible|present)"#);
        assert(step_entry_named(catalog.steps@.last()));
        assert(spec_catalog_entry(30, catalog.steps@.last()));
    }

    catalog.add_step(StepInfo {
        id: String::from_str("copy_element_text"),
        pattern: String::from_str(r#"I copy the text of "([^"]+)""#),
        aliases: Vec::new(),
        category: String::from_str("Other"),
        description: String::from_str("Step: copy_element_text"),
        parameters: Vec::new(),
        examples: Vec::new(),
    });
    proof {
        reveal_strlit("copy_element_text");
        reveal_strlit(r#"I copy the text of "([^"]+)""#);
        assert(step_entry_named(catalog.steps@.last()));
        assert(spec_catalog_entry(31, catalog.steps@.last()));
    }

    catalog.add_step(StepInfo {
        id: String::from_str("copy_to_clipboard"),
        pattern: String::from_str(r#"I copy "([^"]+)""#),
        aliases: Vec::new(),
        category: String::from_str("Other"),
        description: String::from_str("Step: copy_to_clipboard"),
        parameters: Vec::new(),
        examples: Vec::new(),
    });
    proof {
        reveal_strlit("copy_to_clipboard");
        reveal_strlit(r#"I copy "([^"]+)""#);
        assert(step_entry_named(catalog.steps@.last()));
        assert(spec_catalog_entry(32, catalog.steps@.last()));
    }

    catalog.add_step(StepInfo {
        id: String::from_str("css_should_be"),
        pattern: String::from_str(r#"the "([^"]+)" CSS property of "([^"]+)" should be "([^"]+)""#),
        aliases: vec![
            String::from_str(r#"the element "([^"]+)" should have "([^"]+)" CSS value of "([^"]+)""#),
        ],
        category: String::from_str("Verification"),
        description: String::from_str("Verify CSS property value"),
        parameters: Vec::new(),
        examples: Vec::new(),
    });
    proof {
        reveal_strlit("css_should_be");
        reveal_strlit(r#"the "([^"]+)" CSS property of "([^"]+)" should be "([^"]+)""#);
        assert(step_entry_named(catalog.steps@.last()));
        assert(spec_catalog_entry(33, catalog.steps@.last()));
    }

    catalog.add_step(StepInfo {
        id: String::from_str("deactivate_tab"),
        pattern: String::from_str(r#"I deactivate tab "([^"]+)""#),
        aliases: Vec::new(),
        category: String::from_str("Other"),
        description: String::from_str("Step: deactivate_tab"),
        parameters: Vec::new(),
        examples: Vec::new(),
    });
    proof {
        reveal_strlit("deactivate_tab");
        reveal_strlit(r#"I deactivate tab "([^"]+)""#);
        assert(step_entry_named(catalog.steps@.last()));
        assert(spec_catalog_entry(34, catalog.steps@.last()));
    }

    catalog.add_step(StepInfo {
        id: String::from_str("deselect_all"),
        pattern: String::from_str(r#"I deselect all from "([^"]+)""#),
        aliases: Vec::new(),
        category: String::from_str("Input"),
        description: String::from_str("Deselect all options in a multi-select"),
        parameters: Vec::new(),
        examples: Vec::new(),
    });
    proof {
        reveal_strlit("deselect_all");
        reveal_strlit(r#"I deselect all from "([^"]+)""#);
        assert(step_entry_named(catalog.steps@.last()));
        assert(spec_catalog_entry(35, catalog.steps@.last()));
    }

    catalog.add_step(StepInfo {
        id: String::from_str("double_click"),
        pattern: String::from_str(r#"I double click on "([^"]+)""#),
        aliases: vec![String::from_str(r#"I double-click "([^"]+)""#)],
        category: String::from_str("Interaction"),
        description: String::from_str("Double-click an element"),
        parameters: Vec::new(),
        examples: Vec::new(),
    });
    proof {
        reveal_strlit("double_click");
        reveal_strlit(r#"I double click on "([^"]+)""#);
        assert(step_entry_named(catalog.steps@.last()));
        assert(spec_catalog_entry(36, catalog.steps@.last()));
    }

    catalog.add_step(StepInfo {
        id: String::from_str("download_file"),
        pattern: String::from_str(r#"I download file from "([^"]+)""#),
        aliases: Vec::new(),
        category: String::from_str("Other"),
        description: String::from_str("Step: download_file"),
        parameters: Vec::new(),
        examples: Vec::new(),
    });
    proof {
        reveal_strlit("download_file");
        reveal_strlit(r#"I download file from "([^"]+)""#);
        assert(step_entry_named(catalog.steps@.last()));
        assert(spec_catalog_entry(37, catalog.steps@.last()));
    }

    catalog.add_step(StepInfo {
        id: String::from_str("download_filename_should_be"),
        pattern: String::from_str(r#"the downloaded file should be named "([^"]+)""#),
        aliases: Vec::new(),
        category: String::from_str("Other"),
        description: String::from_str("Step: download_filename_should_be"),
        parameters: Vec::new(),
        examples: Vec::new(),
    });
    proof {
        reveal_strlit("download_filename_should_be");
        reveal_strlit(r#"the downloaded file should be named "([^"]+)""#);
        assert(step_entry_named(catalog.steps@.last()));
        assert(spec_catalog_entry(38, catalog.steps@.last()));
    }

    catalog.add_step(StepInfo {
        id: String::from_str("drag_and_drop"),
        pattern: String::from_str(r#"I drag "([^"]+)" to "([^"]+)""#),
        aliases: vec![String::from_str(r#"I drag element "([^"]+)" and drop it on "([^"]+)""#)],
        category: String::from_str("Interaction"),
        description: String::from_str("Drag an element and drop it on another"),
        parameters: Vec::new(),
        examples: Vec::new(),
    });
    proof {
        reveal_strlit("drag_and_drop");
        reveal_strlit(r#"I drag "([^"]+)" to "([^"]+)""#);
        assert(step_entry_named(catalog.steps@.last()));
        assert(spec_catalog_entry(39, catalog.steps@.last()));
    }

    catalog.add_step(StepInfo {
        id: String::from_str("drag_by_offset"),
        pattern: String::from_str(r#"I drag "([^"]+)" by offset (-?\d+),(-?\d+)""#),
        aliases: Vec::new(),
        category: String::from_str("Other"),
        description: String::from_str("Step: drag_by_offset"),
        parameters: Vec::new(),
        examples: Vec::new(),
    });
    proof {
        reveal_strlit("drag_by_offset");
        reveal_strlit(r#"I drag "([^"]+)" by offset (-?\d+),(-?\d+)""#);
        assert(step_entry_named(catalog.steps@.last()));
        assert(spec_catalog_entry(40, catalog.steps@.last()));
    }

    catalog.add_step(StepInfo {
        id: String::from_str("drag_to_coordinates"),
        pattern: String::from_str(r#"I drag "([^"]+)" to coordinates (\d+),(\d+)""#),
        aliases: Vec::new(),
        category: String::from_str("Other"),
        description: String::from_str("Step: drag_to_coordinates"),
        parameters: Vec::new(),
        examples: Vec::new(),
    });
    proof {
        reveal_strlit("drag_to_coordinates");
        reveal_strlit(r#"I drag "([^"]+)" to coordinates (\d+),(\d+)""#);
        assert(step_entry_named(catalog.steps@.last()));
        assert(spec_catalog_entry(41, catalog.steps@.last()));
    }

    catalog.add_step(StepInfo {
        id: String::from_str("draw_on_canvas"),
        pattern: String::from_str(r#"I draw on canvas "([^"]+)""#),
        aliases: Vec::new(),
        category: String::from_str("Other"),
        description: String::from_str("Step: draw_on_canvas"),
        parameters: Vec::new(),
        examples: Vec::new(),
    });
    proof {
        reveal_strlit("draw_on_canvas");
        reveal_strlit(r#"I draw on canvas "([^"]+)""#);
        assert(step_entry_named(catalog.steps@.last()));
        assert(spec_catalog_entry(42, catalog.steps@.last()));
    }

    catalog.add_step(StepInfo {
        id: String::from_str("drop_at"),
        pattern: String::from_str(r#"I drop "([^"]+)" at "([^"]+)""#),
        aliases: Vec::new(),
        category: String::from_str("Other"),
        description: String::from_str("Step: drop_at"),
        parameters: Vec::new(),
        examples: Vec::new(),
    });
    proof {
        reveal_strlit("drop_at");
        reveal_strlit(r#"I drop "([^"]+)" at "([^"]+)""#);
        assert(step_entry_named(catalog.steps@.last()));
        assert(spec_catalog_entry(43, catalog.steps@.last()));
    }

}

fn register_steps_c(catalog: &mut StepCatalog)
    requires
        old(catalog).wf(),
        old(catalog).steps@.len() == 44,
    ensures
        final(catalog).wf(),
        final(catalog).steps@.len() == old(catalog).steps@.len() + 22,
        forall|k: int|
            44 <= k < 66 ==> spec_catalog_entry(k, #[trigger] final(catalog).steps@[k]),
        forall|i: int|
            0 <= i < old(catalog).steps@.len() ==> final(catalog).steps@[i] == old(
                catalog,
            ).steps@[i],
        forall|i: int|
            old(catalog).steps@.len() <= i < final(catalog).steps@.len()
                ==> step_entry_named(#[trigger] final(catalog).steps@[i]),
{
    catalog.add_step(StepInfo {
        id: String::from_str("execute_script"),
        pattern: String::from_str(r#"I execute JavaScript "([^"]+)""#),
        aliases: vec![
            String::from_str(r#"I execute script "([^"]+)""#),
            String::from_str(r#"I run JavaScript "([^"]+)""#),
            String::from_str(r#"I run script "([^"]+)""#),
            String::from_str(r#"I evaluate "([^"]+)""#),
        ],
        category: String::from_str("Other"),
        description: String::from_str("Step: execute_script"),
        parameters: Vec::new(),
        examples: Vec::new(),
    });
    proof {
        reveal_strlit("execute_script");
        reveal_strlit(r#"I execute JavaScript "([^"]+)""#);
        assert(step_entry_named(catalog.steps@.last()));
        assert(spec_catalog_entry(44, catalog.steps@.last()));
    }

    catalog.add_step(StepInfo {
        id: String::from_str("extract_all_by_selector"),
        pattern: String::from_str(r#"I extract all "([^"]+)""#),
        aliases: Vec::new(),
        category: String::from_str("Other"),
        description: String::from_str("Step: extract_all_by_selector"),
        parameters: Vec::new(),
        examples: Vec::new(),
    });
    proof {
        reveal_strlit("extract_all_by_selector");
        reveal_strlit(r#"I extract all "([^"]+)""#);
        assert(step_entry_named(catalog.steps@.last()));
        assert(spec_catalog_entry(45, catalog.steps@.last()));
    }

    catalog.add_step(StepInfo {
        id: String::from_str("extract_all_elements"),
        pattern: String::from_str(r#"I extract all "([^"]+)""#),
        aliases: Vec::new(),
        category: String::from_str("Other"),
        description: String::from_str("Step: extract_all_elements"),
        parameters: Vec::new(),
        examples: Vec::new(),
    });
    proof {
        reveal_strlit("extract_all_elements");
        reveal_strlit(r#"I extract all "([^"]+)""#);
        assert(step_entry_named(catalog.steps@.last()));
        assert(spec_catalog_entry(46, catalog.steps@.last()));
    }

    catalog.add_step(StepInfo {
        id: String::from_str("extract_and_store_all"),
        pattern: String::from_str(r#"I extract all "([^"]+)" and store them as "([^"]+)""#),
        aliases: Vec::new(),
        category: String::from_str("Other"),
        description: String::from_str("Step: extract_and_store_all"),
        parameters: Vec::new(),
        examples: Vec::new(),
    });
    proof {
        reveal_strlit("extract_and_store_all");
        reveal_strlit(r#"I extract all "([^"]+)" and store them as "([^"]+)""#);
        assert(step_entry_named(catalog.steps@.last()));
        assert(spec_catalog_entry(47, catalog.steps@.last()));
    }

    catalog.add_step(StepInfo {
        id: String::from_str("extract_attribute_from_element"),
        pattern: String::from_str(r#"I extract "([^"]+)" from "([^"]+)""#),
        aliases: vec![String::from_str(r#"I extract the "([^"]+)" attribute from "([^"]+)""#)],
        category: String::from_str("Other"),
        description: String::from_str("Step: extract_attribute_from_element"),
        parameters: Vec::new(),
        examples: Vec::new(),
    });
    proof {
        reveal_strlit("extract_attribute_from_element");
        reveal_strlit(r#"I extract "([^"]+)" from "([^"]+)""#);
        assert(step_entry_named(catalog.steps@.last()));
        assert(spec_catalog_entry(48, catalog.steps@.last()));
    }

    catalog.add_step(StepInfo {
        id: String::from_str("extract_headings_level"),
        pattern: String::from_str(r#"I extract all h(\d) headings"#),
        aliases: Vec::new(),
        category: String::from_str("Extraction"),
        description: String::from_str("Extract headings by level"),
        parameters: Vec::new(),
        examples: Vec::new(),
    });
    proof {
        reveal_strlit("extract_headings_level");
        reveal_strlit(r#"I extract all h(\d) headings"#);
        assert(step_entry_named(catalog.steps@.last()));
        assert(spec_catalog_entry(49, catalog.steps@.last()));
    }

    catalog.add_step(StepInfo {
        id: String::from_str("extract_table"),
        pattern: String::from_str(r#"I extract table data from "([^"]+)""#),
        aliases: vec![String::from_str(r#"I extract the table "([^"]+)""#)],
        category: String::from_str("Other"),
        description: String::from_str("Step: extract_table"),
        parameters: Vec::new(),
        examples: Vec::new(),
    });
    proof {
        reveal_strlit("extract_table");
        reveal_strlit(r#"I extract table data from "([^"]+)""#);
        assert(step_entry_named(catalog.steps@.last()));
        assert(spec_catalog_entry(50, catalog.steps@.last()));
    }

    catalog.add_step(StepInfo {
        id: String::from_str("extract_text_from_element"),
        pattern: String::from_str(r#"I extract text from "([^"]+)""#),
        aliases: Vec::new(),
        category: String::from_str("Other"),
        description: String::from_str("Step: extract_text_from_element"),
        parameters: Vec::new(),
        examples: Vec::new(),
    });
    proof {
        reveal_strlit("extract_text_from_element");
        reveal_strlit(r#"I extract text from "([^"]+)""#);
        assert(step_entry_named(catalog.steps@.last()));
        assert(spec_catalog_entry(51, catalog.steps@.last()));
    }

    catalog.add_step(StepInfo {
        id: String::from_str("get_canvas_data"),
        pattern: String::from_str(r#"I get canvas data from "([^"]+)""#),
        aliases: Vec::new(),
        category: String::from_str("Other"),
        description: String::from_str("Step: get_canvas_data"),
        parameters: Vec::new(),
        examples: Vec::new(),
    });
    proof {
        reveal_strlit("get_canvas_data");
        reveal_strlit(r#"I get canvas data from "([^"]+)""#);
        assert(step_entry_named(catalog.steps@.last()));
        assert(spec_catalog_entry(52, catalog.steps@.last()));
    }

    catalog.add_step(StepInfo {
        id: String::from_str("get_local_storage"),
        pattern: String::from_str(r#"I get local storage item "([^"]+)""#),
        aliases: Vec::new(),
        category: String::from_str("State"),
        description: String::from_str("Get local storage value"),
        parameters: Vec::new(),
        examples: Vec::new(),
    });
    proof {
        reveal_strlit("get_local_storage");
        reveal_strlit(r#"I get local storage item "([^"]+)""#);
        assert(step_entry_named(catalog.steps@.last()));
        assert(spec_catalog_entry(53, catalog.steps@.last()));
    }

    catalog.add_step(StepInfo {
        id: String::from_str("get_session_storage"),
        pattern: String::from_str(r#"I get session storage item "([^"]+)""#),
        aliases: Vec::new(),
        category: String::from_str("State"),
        description: String::from_str("Get session storage value"),
        parameters: Vec::new(),
        examples: Vec::new(),
    });
    proof {
        reveal_strlit("get_session_storage");
        reveal_strlit(r#"I get session storage item "([^"]+)""#);
        assert(step_entry_named(catalog.steps@.last()));
        assert(spec_catalog_entry(54, catalog.steps@.last()));
    }

    catalog.add_step(StepInfo {
        id: String::from_str("hold_drag"),
        pattern: String::from_str(r#"I hold drag on "([^"]+)""#),
        aliases: Vec::new(),
        category: String::from_str("Other"),
        description: String::from_str("Step: hold_drag"),
        parameters: Vec::new(),
        examples: Vec::new(),
    });
    proof {
        reveal_strlit("hold_drag");
        reveal_strlit(r#"I hold drag on "([^"]+)""#);
        assert(step_entry_named(catalog.steps@.last()));
        assert(spec_catalog_entry(55, catalog.steps@.last()));
    }

    catalog.add_step(StepInfo {
        id: String::from_str("hover"),
        pattern: String::from_str(r#"I hover over "([^"]+)""#),
        aliases: vec![
            String::from_str(r#"I hover "([^"]+)""#),
            String::from_str(r#"I move mouse to "([^"]+)""#),
        ],
        category: String::from_str("Interaction"),
        description: String::from_str("Hover over an element"),
        parameters: Vec::new(),
        examples: Vec::new(),
    });
    proof {
        reveal_strlit("hover");
        reveal_strlit(r#"I hover over "([^"]+)""#);
        assert(step_entry_named(catalog.steps@.last()));
        assert(spec_catalog_entry(56, catalog.steps@.last()));
    }

    catalog.add_step(StepInfo {
        id: String::from_str("hover_show_tooltip"),
        pattern: String::from_str(r#"I hover over "([^"]+)" to show tooltip"#),
        aliases: Vec::new(),
        category: String::from_str("Other"),
        description: String::from_str("Step: hover_show_tooltip"),
        parameters: Vec::new(),
        examples: Vec::new(),
    });
    proof {
        reveal_strlit("hover_show_tooltip");
        reveal_strlit(r#"I hover over "([^"]+)" to show tooltip"#);
        assert(step_entry_named(catalog.steps@.last()));
        assert(spec_catalog_entry(57, catalog.steps@.last()));
    }

    catalog.add_step(StepInfo {
        id: String::from_str("local_storage_should_contain"),
        pattern: String::from_str(r#"the local storage should contain "([^"]+)""#),
        aliases: Vec::new(),
        category: String::from_str("Other"),
        description: String::from_str("Step: local_storage_should_contain"),
        parameters: Vec::new(),
        examples: Vec::new(),
    });
    proof {
        reveal_strlit("local_storage_should_contain");
        reveal_strlit(r#"the local storage should contain "([^"]+)""#);
        assert(step_entry_named(catalog.steps@.last()));
        assert(spec_catalog_entry(58, catalog.steps@.last()));
    }

    catalog.add_step(StepInfo {
        id: String::from_str("loop_click_each"),
        pattern: String::from_str(r#"for each "([^"]+)", I click it"#),
        aliases: Vec::new(),
        category: String::from_str("Other"),
        description: String::from_str("Step: loop_click_each"),
        parameters: Vec::new(),
        examples: Vec::new(),
    });
    proof {
        reveal_strlit("loop_click_each");
        reveal_strlit(r#"for each "([^"]+)", I click it"#);
        assert(step_entry_named(catalog.steps@.last()));
        assert(spec_catalog_entry(59, catalog.steps@.last()));
    }

    catalog.add_step(StepInfo {
        id: String::from_str("manifest_name_check"),
        pattern: String::from_str(r#"the manifest should have name "([^"]+)""#),
        aliases: Vec::new(),
        category: String::from_str("Other"),
        description: String::from_str("Step: manifest_name_check"),
        parameters: Vec::new(),
        examples: Vec::new(),
    });
    proof {
        reveal_strlit("manifest_name_check");
        reveal_strlit(r#"the manifest should have name "([^"]+)""#);
        assert(step_entry_named(catalog.steps@.last()));
        assert(spec_catalog_entry(60, catalog.steps@.last()));
    }

    catalog.add_step(StepInfo {
        id: String::from_str("manifest_short_name_check"),
        pattern: String::from_str(r#"the manifest should have short name "([^"]+)""#),
        aliases: Vec::new(),
        category: String::from_str("Other"),
        description: String::from_str("Step: manifest_short_name_check"),
        parameters: Vec::new(),
        examples: Vec::new(),
    });
    proof {
        reveal_strlit("manifest_short_name_check");
        reveal_strlit(r#"the manifest should have short name "([^"]+)""#);
        assert(step_entry_named(catalog.steps@.last()));
        assert(spec_catalog_entry(61, catalog.steps@.last()));
    }

    catalog.add_step(StepInfo {
        id: String::from_str("meta_description_check"),
        pattern: String::from_str(r#"the meta description should be "([^"]+)""#),
        aliases: Vec::new(),
        category: String::from_str("Other"),
        description: String::from_str("Step: meta_description_check"),
        parameters: Vec::new(),
        examples: Vec::new(),
    });
    proof {
        reveal_strlit("meta_description_check");
        reveal_strlit(r#"the meta description should be "([^"]+)""#);
        assert(step_entry_named(catalog.steps@.last()));
        assert(spec_catalog_entry(62, catalog.steps@.last()));
    }

    catalog.add_step(StepInfo {
        id: String::from_str("meta_keywords_check"),
        pattern: String::from_str(r#"the meta keywords should contain "([^"]+)""#),
        aliases: Vec::new(),
        category: String::from_str("Other"),
        description: String::from_str("Step: meta_keywords_check"),
        parameters: Vec::new(),
        examples: Vec::new(),
    });
    proof {
        reveal_strlit("meta_keywords_check");
        reveal_strlit(r#"the meta keywords should contain "([^"]+)""#);
        assert(step_entry_named(catalog.steps@.last()));
        assert(spec_catalog_entry(63, catalog.steps@.last()));
    }

    catalog.add_step(StepInfo {
        id: String::from_str("meta_robots_check"),
        pattern: String::from_str(r#"the meta robots should be "([^"]+)""#),
        aliases: Vec::new(),
        category: String::from_str("Other"),
        description: String::from_str("Step: meta_robots_check"),
        parameters: Vec::new(),
        examples: Vec::new(),
    });
    proof {
        reveal_strlit("meta_robots_check");
        reveal_strlit(r#"the meta robots should be "([^"]+)""#);
        assert(step_entry_named(catalog.steps@.last()));
        assert(spec_catalog_entry(64, catalog.steps@.last()));
    }

    catalog.add_step(StepInfo {
        id: String::from_str("meta_viewport_check"),
        pattern: String::from_str(r#"the meta viewport should be "([^"]+)""#),
        aliases: Vec::new(),
        category: String::from_str("Other"),
        description: String::from_str("Step: meta_viewport_check"),
        parameters: Vec::new(),
        examples: Vec::new(),
    });
    proof {
        reveal_strlit("meta_viewport_check");
        reveal_strlit(r#"the meta viewport should be "([^"]+)""#);
        assert(step_entry_named(catalog.steps@.last()));
        assert(spec_catalog_entry(65, catalog.steps@.last()));
    }

}

fn register_steps_d(catalog: &mut StepCatalog)
    requires
        old(catalog).wf(),
        old(catalog).steps@.len() == 66,
    ensures
        final(catalog).wf(),
        final(catalog).steps@.len() == old(catalog).steps@.len() + 22,
        forall|k: int|
            66 <= k < 88 ==> spec_catalog_entry(k, #[trigger] final(catalog).steps@[k]),
        forall|i: int|
            0 <= i < old(catalog).steps@.len() ==> final(catalog).steps@[i] == old(
                catalog,
            ).steps@[i],
        forall|i: int|
            old(catalog).steps@.len() <= i < final(catalog).steps@.len()
                ==> step_entry_named(#[trigger] final(catalog).steps@[i]),
{
    catalog.add_step(StepInfo {
        id: String::from_str("mock_geolocation"),
        pattern: String::from_str(r#"I mock geolocation to "([^"]+)""#),
        aliases: Vec::new(),
        category: String::from_str("Other"),
        description: String::from_str("Step: mock_geolocation"),
        parameters: Vec::new(),
        examples: Vec::new(),
    });
    proof {
        reveal_strlit("mock_geolocation");
        reveal_strlit(r#"I mock geolocation to "([^"]+)""#);
        assert(step_entry_named(catalog.steps@.last()));
        assert(spec_catalog_entry(66, catalog.steps@.last()));
    }

    catalog.add_step(StepInfo {
        id: String::from_str("mouse_down"),
        pattern: String::from_str(r#"I mouse down on "([^"]+)""#),
        aliases: Vec::new(),
        category: String::from_str("Other"),
        description: String::from_str("Step: mouse_down"),
        parameters: Vec::new(),
        examples: Vec::new(),
    });
    proof {
        reveal_strlit("mouse_down");
        reveal_strlit(r#"I mouse down on "([^"]+)""#);
        assert(step_entry_named(catalog.steps@.last()));
        assert(spec_catalog_entry(67, catalog.steps@.last()));
    }

    catalog.add_step(StepInfo {
        id: String::from_str("mouse_move_to"),
        pattern: String::from_str(r#"I mouse move to "([^"]+)""#),
        aliases: Vec::new(),
        category: String::from_str("Other"),
        description: String::from_str("Step: mouse_move_to"),
        parameters: Vec::new(),
        examples: Vec::new(),
    });
    proof {
        reveal_strlit("mouse_move_to");
        reveal_strlit(r#"I mouse move to "([^"]+)""#);
        assert(step_entry_named(catalog.steps@.last()));
        assert(spec_catalog_entry(68, catalog.steps@.last()));
    }

    catalog.add_step(StepInfo {
        id: String::from_str("mouse_out"),
        pattern: String::from_str(r#"I mouse out of "([^"]+)""#),
        aliases: Vec::new(),
        category: String::from_str("Other"),
        description: String::from_str("Step: mouse_out"),
        parameters: Vec::new(),
        examples: Vec::new(),
    });
    proof {
        reveal_strlit("mouse_out");
        reveal_strlit(r#"I mouse out of "([^"]+)""#);
        assert(step_entry_named(catalog.steps@.last()));
        assert(spec_catalog_entry(69, catalog.steps@.last()));
    }

    catalog.add_step(StepInfo {
        id: String::from_str("mouse_over"),
        pattern: String::from_str(r#"I mouse over "([^"]+)""#),
        aliases: Vec::new(),
        category: String::from_str("Other"),
        description: String::from_str("Step: mouse_over"),
        parameters: Vec::new(),
        examples: Vec::new(),
    });
    proof {
        reveal_strlit("mouse_over");
        reveal_strlit(r#"I mouse over "([^"]+)""#);
        assert(step_entry_named(catalog.steps@.last()));
        assert(spec_catalog_entry(70, catalog.steps@.last()));
    }

    catalog.add_step(StepInfo {
        id: String::from_str("mouse_up"),
        pattern: String::from_str(r#"I mouse up on "([^"]+)""#),
        aliases: Vec::new(),
        category: String::from_str("Other"),
        description: String::from_str("Step: mouse_up"),
        parameters: Vec::new(),
        examples: Vec::new(),
    });
    proof {
        reveal_strlit("mouse_up");
        reveal_strlit(r#"I mouse up on "([^"]+)""#);
        assert(step_entry_named(catalog.steps@.last()));
        assert(spec_catalog_entry(71, catalog.steps@.last()));
    }

    catalog.add_step(StepInfo {
        id: String::from_str("multi_touch"),
        pattern: String::from_str(r#"I perform multi-touch gesture on "([^"]+)""#),
        aliases: Vec::new(),
        category: String::from_str("Other"),
        description: String::from_str("Step: multi_touch"),
        parameters: Vec::new(),
        examples: Vec::new(),
    });
    proof {
        reveal_strlit("multi_touch");
        reveal_strlit(r#"I perform multi-touch gesture on "([^"]+)""#);
        assert(step_entry_named(catalog.steps@.last()));
        assert(spec_catalog_entry(72, catalog.steps@.last()));
    }

    catalog.add_step(StepInfo {
        id: String::from_str("navigate_to"),
        pattern: String::from_str(r#"I navigate to "([^"]+)""#),
        aliases: vec![
            String::from_str(r#"I go to "([^"]+)""#),
            String::from_str(r#"I open "([^"]+)""#),
            String::from_str(r#"I visit "([^"]+)""#),
        ],
        category: String::from_str("Navigation"),
        description: String::from_str("Navigate to a specified URL"),
        parameters: Vec::new(),
        examples: Vec::new(),
    });
    proof {
        reveal_strlit("navigate_to");
        reveal_strlit(r#"I navigate to "([^"]+)""#);
        assert(step_entry_named(catalog.steps@.last()));
        assert(spec_catalog_entry(73, catalog.steps@.last()));
    }

    catalog.add_step(StepInfo {
        id: String::from_str("paste_into"),
        pattern: String::from_str(r#"I paste "([^"]+)" into "([^"]+)""#),
        aliases: Vec::new(),
        category: String::from_str("Other"),
        description: String::from_str("Step: paste_into"),
        parameters: Vec::new(),
        examples: Vec::new(),
    });
    proof {
        reveal_strlit("paste_into");
        reveal_strlit(r#"I paste "([^"]+)" into "([^"]+)""#);
        assert(step_entry_named(catalog.steps@.last()));
        assert(spec_catalog_entry(74, catalog.steps@.last()));
    }

    catalog.add_step(StepInfo {
        id: String::from_str("path_should_be"),
        pattern: String::from_str(r#"the path should be "([^"]+)""#),
        aliases: Vec::new(),
        category: String::from_str("Verification"),
        description: String::from_str("Verify current path"),
        parameters: Vec::new(),
        examples: Vec::new(),
    });
    proof {
        reveal_strlit("path_should_be");
        reveal_strlit(r#"the path should be "([^"]+)""#);
        assert(step_entry_named(catalog.steps@.last()));
        assert(spec_catalog_entry(75, catalog.steps@.last()));
    }

    catalog.add_step(StepInfo {
        id: String::from_str("path_should_contain"),
        pattern: String::from_str(r#"the path should contain "([^"]+)""#),
        aliases: Vec::new(),
        category: String::from_str("Verification"),
        description: String::from_str("Verify path contains value"),
        parameters: Vec::new(),
        examples: Vec::new(),
    });
    proof {
        reveal_strlit("path_should_contain");
        reveal_strlit(r#"the path should contain "([^"]+)""#);
        assert(step_entry_named(catalog.steps@.last()));
        assert(spec_catalog_entry(76, catalog.steps@.last()));
    }

    catalog.add_step(StepInfo {
        id: String::from_str("pause_animation"),
        pattern: String::from_str(r#"I pause animation "([^"]+)""#),
        aliases: Vec::new(),
        category: String::from_str("Other"),
        description: String::from_str("Step: pause_animation"),
        parameters: Vec::new(),
        examples: Vec::new(),
    });
    proof {
        reveal_strlit("pause_animation");
        reveal_strlit(r#"I pause animation "([^"]+)""#);
        assert(step_entry_named(catalog.steps@.last()));
        assert(spec_catalog_entry(77, catalog.steps@.last()));
    }

    catalog.add_step(StepInfo {
        id: String::from_str("pinch_zoom"),
        pattern: String::from_str(r#"I pinch to zoom in on "([^"]+)""#),
        aliases: Vec::new(),
        category: String::from_str("Other"),
        description: String::from_str("Step: pinch_zoom"),
        parameters: Vec::new(),
        examples: Vec::new(),
    });
    proof {
        reveal_strlit("pinch_zoom");
        reveal_strlit(r#"I pinch to zoom in on "([^"]+)""#);
        assert(step_entry_named(catalog.steps@.last()));
        assert(spec_catalog_entry(78, catalog.steps@.last()));
    }

    catalog.add_step(StepInfo {
        id: String::from_str("press_enter"),
        pattern: String::from_str(r#"I press the Enter key"#),
        aliases: vec![String::from_str(r#"I press Enter"#)],
        category: String::from_str("Input"),
        description: String::from_str("Press the Enter key"),
        parameters: Vec::new(),
        examples: Vec::new(),
    });
    proof {
        reveal_strlit("press_enter");
        reveal_strlit(r#"I press the Enter key"#);
        assert(step_entry_named(catalog.steps@.last()));
        assert(spec_catalog_entry(79, catalog.steps@.last()));
    }

    catalog.add_step(StepInfo {
        id: String::from_str("press_escape"),
        pattern: String::from_str(r#"I press Escape key"#),
        aliases: vec![String::from_str(r#"I press Escape"#)],
        category: String::from_str("Input"),
        description: String::from_str("Press the Escape key"),
        parameters: Vec::new(),
        examples: Vec::new(),
    });
    proof {
        reveal_strlit("press_escape");
        reveal_strlit(r#"I press Escape key"#);
        assert(step_entry_named(catalog.steps@.last()));
        assert(spec_catalog_entry(80, catalog.steps@.last()));
    }

    catalog.add_step(StepInfo {
        id: String::from_str("press_key"),
        pattern: String::from_str(r#"I press "([^"]+)" key"#),
        aliases: Vec::new(),
        category: String::from_str("Input"),
        description: String::from_str("Press a keyboard key"),
        parameters: Vec::new(),
        examples: Vec::new(),
    });
    proof {
        reveal_strlit("press_key");
        reveal_strlit(r#"I press "([^"]+)" key"#);
        assert(step_entry_named(catalog.steps@.last()));
        assert(spec_catalog_entry(81, catalog.steps@.last()));
    }

    catalog.add_step(StepInfo {
        id: String::from_str("press_tab"),
        pattern: String::from_str(r#"I press Tab key"#),
        aliases: vec![String::from_str(r#"I press Tab"#)],
        category: String::from_str("Input"),
        description: String::from_str("Press the Tab key"),
        parameters: Vec::new(),
        examples: Vec::new(),
    });
    proof {
        reveal_strlit("press_tab");
        reveal_strlit(r#"I press Tab key"#);
        assert(step_entry_named(catalog.steps@.last()));
        assert(spec_catalog_entry(82, catalog.steps@.last()));
    }

    catalog.add_step(StepInfo {
        id: String::from_str("release_drag"),
        pattern: String::from_str(r#"I release drag on "([^"]+)""#),
        aliases: Vec::new(),
        category: String::from_str("Other"),
        description: String::from_str("Step: release_drag"),
        parameters: Vec::new(),
        examples: Vec::new(),
    });
    proof {
        reveal_strlit("release_drag");
        reveal_strlit(r#"I release drag on "([^"]+)""#);
        assert(step_entry_named(catalog.steps@.last()));
        assert(spec_catalog_entry(83, catalog.steps@.last()));
    }

    catalog.add_step(StepInfo {
        id: String::from_str("remove_local_storage"),
        pattern: String::from_str(r#"I remove local storage item "([^"]+)""#),
        aliases: Vec::new(),
        category: String::from_str("Other"),
        description: String::from_str("Step: remove_local_storage"),
        parameters: Vec::new(),
        examples: Vec::new(),
    });
    proof {
        reveal_strlit("remove_local_storage");
        reveal_strlit(r#"I remove local storage item "([^"]+)""#);
        assert(step_entry_named(catalog.steps@.last()));
        assert(spec_catalog_entry(84, catalog.steps@.last()));
    }

    catalog.add_step(StepInfo {
        id: String::from_str("remove_session_storage"),
        pattern: String::from_str(r#"I remove session storage item "([^"]+)""#),
        aliases: Vec::new(),
        category: String::from_str("Other"),
        description: String::from_str("Step: remove_session_storage"),
        parameters: Vec::new(),
        examples: Vec::new(),
    });
    proof {
        reveal_strlit("remove_session_storage");
        reveal_strlit(r#"I remove session storage item "([^"]+)""#);
        assert(step_entry_named(catalog.steps@.last()));
        assert(spec_catalog_entry(85, catalog.steps@.last()));
    }

    catalog.add_step(StepInfo {
        id: String::from_str("resume_animation"),
        pattern: String::from_str(r#"I resume animation "([^"]+)""#),
        aliases: Vec::new(),
        category: String::from_str("Other"),
        description: String::from_str("Step: resume_animation"),
        parameters: Vec::new(),
        examples: Vec::new(),
    });
    proof {
        reveal_strlit("resume_animation");
        reveal_strlit(r#"I resume animation "([^"]+)""#);
        assert(step_entry_named(catalog.steps@.last()));
        assert(spec_catalog_entry(86, catalog.steps@.last()));
    }

    catalog.add_step(StepInfo {
        id: String::from_str("retry_click"),
        pattern: String::from_str(r#"I retry clicking "([^"]+)" up to (\d+) times"#),
        aliases: vec![String::from_str(r#"I retry "([^"]+)" (\d+) times"#)],
        category: String::from_str("Other"),
        description: String::from_str("Step: retry_click"),
        parameters: Vec::new(),
        examples: Vec::new(),
    });
    proof {
        reveal_strlit("retry_click");
        reveal_strlit(r#"I retry clicking "([^"]+)" up to (\d+) times"#);
        assert(step_entry_named(catalog.steps@.last()));
        assert(spec_catalog_entry(87, catalog.steps@.last()));
    }

}

fn register_steps_e(catalog: &mut StepCatalog)
    requires
        old(catalog).wf(),
        old(catalog).steps@.len() == 88,
    ensures
        final(catalog).wf(),
        final(catalog).steps@.len() == old(catalog).steps@.len() + 22,
        forall|k: int|
            88 <= k < 110 ==> spec_catalog_entry(k, #[trigger] final(catalog).steps@[k]),
        forall|i: int|
            0 <= i < old(catalog).steps@.len() ==> final(catalog).steps@[i] == old(
                catalog,
            ).steps@[i],
        forall|i: int|
            old(catalog).steps@.len() <= i < final(catalog).steps@.len()
                ==> step_entry_named(#[trigger] final(catalog).steps@[i]),
{
    catalog.add_step(StepInfo {
        id: String::from_str("right_click"),
        pattern: String::from_str(r#"I right click on "([^"]+)""#),
        aliases: vec![
            String::from_str(r#"I right-click "([^"]+)""#),
            String::from_str(r#"I click the right mouse button on "([^"]+)""#),
        ],
        category: String::from_str("Interaction"),
        description: String::from_str("Right-click an element"),
        parameters: Vec::new(),
        examples: Vec::new(),
    });
    proof {
        reveal_strlit("right_click");
        reveal_strlit(r#"I right click on "([^"]+)""#);
        assert(step_entry_named(catalog.steps@.last()));
        assert(spec_catalog_entry(88, catalog.steps@.last()));
    }

    catalog.add_step(StepInfo {
        id: String::from_str("rotate_element"),
        pattern: String::from_str(r#"I rotate "([^"]+)" by (\d+) degrees?"#),
        aliases: Vec::new(),
        category: String::from_str("Other"),
        description: String::from_str("Step: rotate_element"),
        parameters: Vec::new(),
        examples: Vec::new(),
    });
    proof {
        reveal_strlit("rotate_element");
        reveal_strlit(r#"I rotate "([^"]+)" by (\d+) degrees?"#);
        assert(step_entry_named(catalog.steps@.last()));
        assert(spec_catalog_entry(89, catalog.steps@.last()));
    }

    catalog.add_step(StepInfo {
        id: String::from_str("save_file_as"),
        pattern: String::from_str(r#"I save file as "([^"]+)""#),
        aliases: Vec::new(),
        category: String::from_str("Other"),
        description: String::from_str("Step: save_file_as"),
        parameters: Vec::new(),
        examples: Vec::new(),
    });
    proof {
        reveal_strlit("save_file_as");
        reveal_strlit(r#"I save file as "([^"]+)""#);
        assert(step_entry_named(catalog.steps@.last()));
        assert(spec_catalog_entry(90, catalog.steps@.last()));
    }

    catalog.add_step(StepInfo {
        id: String::from_str("screenshot"),
        pattern: String::from_str(r#"I take a screenshot "([^"]+)""#),
        aliases: vec![String::from_str(r#"I capture screenshot "([^"]+)""#)],
        category: String::from_str("Extraction"),
        description: String::from_str("Take a screenshot"),
        parameters: Vec::new(),
        examples: Vec::new(),
    });
    proof {
        reveal_strlit("screenshot");
        reveal_strlit(r#"I take a screenshot "([^"]+)""#);
        assert(step_entry_named(catalog.steps@.last()));
        assert(spec_catalog_entry(91, catalog.steps@.last()));
    }

    catalog.add_step(StepInfo {
        id: String::from_str("screenshot_element"),
        pattern: String::from_str(r#"I take screenshot of "([^"]+)""#),
        aliases: Vec::new(),
        category: String::from_str("Other"),
        description: String::from_str("Step: screenshot_element"),
        parameters: Vec::new(),
        examples: Vec::new(),
    });
    proof {
        reveal_strlit("screenshot_element");
        reveal_strlit(r#"I take screenshot of "([^"]+)""#);
        assert(step_entry_named(catalog.steps@.last()));
        assert(spec_catalog_entry(92, catalog.steps@.last()));
    }

    catalog.add_step(StepInfo {
        id: String::from_str("scroll_position_check"),
        pattern: String::from_str(r#"I should see scroll position (\d+)%"#),
        aliases: Vec::new(),
        category: String::from_str("Scrolling"),
        description: String::from_str("Check scroll position"),
        parameters: Vec::new(),
        examples: Vec::new(),
    });
    proof {
        reveal_strlit("scroll_position_check");
        reveal_strlit(r#"I should see scroll position (\d+)%"#);
        assert(step_entry_named(catalog.steps@.last()));
        assert(spec_catalog_entry(93, catalog.steps@.last()));
    }

    catalog.add_step(StepInfo {
        id: String::from_str("scroll_to_element"),
        pattern: String::from_str(r#"I scroll to "([^"]+)""#),
        aliases: Vec::new(),
        category: String::from_str("Scrolling"),
        description: String::from_str("Scroll to a specific element"),
        parameters: Vec::new(),
        examples: Vec::new(),
    });
    proof {
        reveal_strlit("scroll_to_element");
        reveal_strlit(r#"I scroll to "([^"]+)""#);
        assert(step_entry_named(catalog.steps@.last()));
        assert(spec_catalog_entry(94, catalog.steps@.last()));
    }

    catalog.add_step(StepInfo {
        id: String::from_str("scroll_to_percentage"),
        pattern: String::from_str(r#"I scroll to position (\d+)%"#),
        aliases: Vec::new(),
        category: String::from_str("Scrolling"),
        description: String::from_str("Scroll to percentage"),
        parameters: Vec::new(),
        examples: Vec::new(),
    });
    proof {
        reveal_strlit("scroll_to_percentage");
        reveal_strlit(r#"I scroll to position (\d+)%"#);
        assert(step_entry_named(catalog.steps@.last()));
        assert(spec_catalog_entry(95, catalog.steps@.last()));
    }

    catalog.add_step(StepInfo {
        id: String::from_str("select_all"),
        pattern: String::from_str(r#"I select multiple options from "([^"]+)""#),
        aliases: Vec::new(),
        category: String::from_str("Input"),
        description: String::from_str("Select all options in a multi-select"),
        parameters: Vec::new(),
        examples: Vec::new(),
    });
    proof {
        reveal_strlit("select_all");
        reveal_strlit(r#"I select multiple options from "([^"]+)""#);
        assert(step_entry_named(catalog.steps@.last()));
        assert(spec_catalog_entry(96, catalog.steps@.last()));
    }

    catalog.add_step(StepInfo {
        id: String::from_str("select_all_text_in_element"),
        pattern: String::from_str(r#"I select all text in "([^"]+)""#),
        aliases: Vec::new(),
        category: String::from_str("Other"),
        description: String::from_str("Step: select_all_text_in_element"),
        parameters: Vec::new(),
        examples: Vec::new(),
    });
    proof {
        reveal_strlit("select_all_text_in_element");
        reveal_strlit(r#"I select all text in "([^"]+)""#);
        assert(step_entry_named(catalog.steps@.last()));
        assert(spec_catalog_entry(97, catalog.steps@.last()));
    }

    catalog.add_step(StepInfo {
        id: String::from_str("select_autocomplete_suggestion"),
        pattern: String::from_str(r#"I select autocomplete suggestion "([^"]+)""#),
        aliases: Vec::new(),
        category: String::from_str("Other"),
        description: String::from_str("Step: select_autocomplete_suggestion"),
        parameters: Vec::new(),
        examples: Vec::new(),
    });
    proof {
        reveal_strlit("select_autocomplete_suggestion");
        reveal_strlit(r#"I select autocomplete suggestion "([^"]+)""#);
        assert(step_entry_named(catalog.steps@.last()));
        assert(spec_catalog_entry(98, catalog.steps@.last()));
    }

    catalog.add_step(StepInfo {
        id: String::from_str("select_filter_option"),
        pattern: String::from_str(r#"I select filter option "([^"]+)""#),
        aliases: Vec::new(),
        category: String::from_str("Other"),
        description: String::from_str("Step: select_filter_option"),
        parameters: Vec::new(),
        examples: Vec::new(),
    });
    proof {
        reveal_strlit("select_filter_option");
        reveal_strlit(r#"I select filter option "([^"]+)""#);
        assert(step_entry_named(catalog.steps@.last()));
        assert(spec_catalog_entry(99, catalog.steps@.last()));
    }

    catalog.add_step(StepInfo {
        id: String::from_str("select_multiple"),
        pattern: String::from_str(r#"I select "([^"]+)", "([^"]+)", and "([^"]+)" from "([^"]+)""#),
        aliases: Vec::new(),
        category: String::from_str("Input"),
        description: String::from_str("Select multiple options"),
        parameters: Vec::new(),
        examples: Vec::new(),
    });
    proof {
        reveal_strlit("select_multiple");
        reveal_strlit(r#"I select "([^"]+)", "([^"]+)", and "([^"]+)" from "([^"]+)""#);
        assert(step_entry_named(catalog.steps@.last()));
        assert(spec_catalog_entry(100, catalog.steps@.last()));
    }

    catalog.add_step(StepInfo {
        id: String::from_str("select_option"),
        pattern: String::from_str(r#"I select "([^"]+)" from "([^"]+)""#),
        aliases: vec![
            String::from_str(r#"I choose "([^"]+)" from "([^"]+)""#),
            String::from_str(r#"I pick "([^"]+)" from "([^"]+)""#),
        ],
        category: String::from_str("Input"),
        description: String::from_str("Select an option from a dropdown"),
        parameters: Vec::new(),
        examples: Vec::new(),
    });
    proof {
        reveal_strlit("select_option");
        reveal_strlit(r#"I select "([^"]+)" from "([^"]+)""#);
        assert(step_entry_named(catalog.steps@.last()));
        assert(spec_catalog_entry(101, catalog.steps@.last()));
    }

    catalog.add_step(StepInfo {
        id: String::from_str("select_radio"),
        pattern: String::from_str(r#"I select the "([^"]+)" radio (?:button|option)"#),
        aliases: Vec::new(),
        category: String::from_str("Input"),
        description: String::from_str("Select a radio button option"),
        parameters: Vec::new(),
        examples: Vec::new(),
    });
    proof {
        reveal_strlit("select_radio");
        reveal_strlit(r#"I select the "([^"]+)" radio (?:button|option)"#);
        assert(step_entry_named(catalog.steps@.last()));
        assert(spec_catalog_entry(102, catalog.steps@.last()));
    }

    catalog.add_step(StepInfo {
        id: String::from_str("select_text_range"),
        pattern: String::from_str(r#"I select text from "([^"]+)" to "([^"]+)""#),
        aliases: Vec::new(),
        category: String::from_str("Other"),
        description: String::from_str("Step: select_text_range"),
        parameters: Vec::new(),
        examples: Vec::new(),
    });
    proof {
        reveal_strlit("select_text_range");
        reveal_strlit(r#"I select text from "([^"]+)" to "([^"]+)""#);
        assert(step_entry_named(catalog.steps@.last()));
        assert(spec_catalog_entry(103, catalog.steps@.last()));
    }

    catalog.add_step(StepInfo {
        id: String::from_str("send_websocket_message"),
        pattern: String::from_str(r#"I send WebSocket message "([^"]+)""#),
        aliases: Vec::new(),
        category: String::from_str("Other"),
        description: String::from_str("Step: send_websocket_message"),
        parameters: Vec::new(),
        examples: Vec::new(),
    });
    proof {
        reveal_strlit("send_websocket_message");
        reveal_strlit(r#"I send WebSocket message "([^"]+)""#);
        assert(step_entry_named(catalog.steps@.last()));
        assert(spec_catalog_entry(104, catalog.steps@.last()));
    }

    catalog.add_step(StepInfo {
        id: String::from_str("set_document_lang"),
        pattern: String::from_str(r#"I set document language to "([^"]+)""#),
        aliases: Vec::new(),
        category: String::from_str("Other"),
        description: String::from_str("Step: set_document_lang"),
        parameters: Vec::new(),
        examples: Vec::new(),
    });
    proof {
        reveal_strlit("set_document_lang");
        reveal_strlit(r#"I set document language to "([^"]+)""#);
        assert(step_entry_named(catalog.steps@.last()));
        assert(spec_catalog_entry(105, catalog.steps@.last()));
    }

    catalog.add_step(StepInfo {
        id: String::from_str("set_local_storage"),
        pattern: String::from_str(r#"I set local storage item "([^"]+)" to "([^"]+)""#),
        aliases: Vec::new(),
        category: String::from_str("State"),
        description: String::from_str("Set local storage value"),
        parameters: Vec::new(),
        examples: Vec::new(),
    });
    proof {
        reveal_strlit("set_local_storage");
        reveal_strlit(r#"I set local storage item "([^"]+)" to "([^"]+)""#);
        assert(step_entry_named(catalog.steps@.last()));
        assert(spec_catalog_entry(106, catalog.steps@.last()));
    }

    catalog.add_step(StepInfo {
        id: String::from_str("set_print_layout"),
        pattern: String::from_str(r#"I set print layout to "([^"]+)""#),
        aliases: Vec::new(),
        category: String::from_str("Other"),
        description: String::from_str("Step: set_print_layout"),
        parameters: Vec::new(),
        examples: Vec::new(),
    });
    proof {
        reveal_strlit("set_print_layout");
        reveal_strlit(r#"I set print layout to "([^"]+)""#);
        assert(step_entry_named(catalog.steps@.last()));
        assert(spec_catalog_entry(107, catalog.steps@.last()));
    }

    catalog.add_step(StepInfo {
        id: String::from_str("set_session_storage"),
        pattern: String::from_str(r#"I set session storage item "([^"]+)" to "([^"]+)""#),
        aliases: Vec::new(),
        category: String::from_str("State"),
        description: String::from_str("Set session storage value"),
        parameters: Vec::new(),
        examples: Vec::new(),
    });
    proof {
        reveal_strlit("set_session_storage");
        reveal_strlit(r#"I set session storage item "([^"]+)" to "([^"]+)""#);
        assert(step_entry_named(catalog.steps@.last()));
        assert(spec_catalog_entry(108, catalog.steps@.last()));
    }

    catalog.add_step(StepInfo {
        id: String::from_str("set_user_agent"),
        pattern: String::from_str(r#"I set user agent to "([^"]+)""#),
        aliases: Vec::new(),
        category: String::from_str("Other"),
        description: String::from_str("Step: set_user_agent"),
        parameters: Vec::new(),
        examples: Vec::new(),
    });
    proof {
        reveal_strlit("set_user_agent");
        reveal_strlit(r#"I set user agent to "([^"]+)""#);
        assert(step_entry_named(catalog.steps@.last()));
        assert(spec_catalog_entry(109, catalog.steps@.last()));
    }

}

fn register_steps_f(catalog: &mut StepCatalog)
    requires
        old(catalog).wf(),
        old(catalog).steps@.len() == 110,
    ensures
        final(catalog).wf(),
        final(catalog).steps@.len() == old(catalog).steps@.len() + 22,
        forall|k: int|
            110 <= k < 132 ==> spec_catalog_entry(k, #[trigger] final(catalog).steps@[k]),
        forall|i: int|
            0 <= i < old(catalog).steps@.len() ==> final(catalog).steps@[i] == old(
                catalog,
            ).steps@[i],
        forall|i: int|
            old(catalog).steps@.len() <= i < final(catalog).steps@.len()
                ==> step_entry_named(#[trigger] final(catalog).steps@[i]),
{
    catalog.add_step(StepInfo {
        id: String::from_str("set_webgl_context"),
        pattern: String::from_str(r#"I set WebGL context to "([^"]+)""#),
        aliases: Vec::new(),
        category: String::from_str("Other"),
        description: String::from_str("Step: set_webgl_context"),
        parameters: Vec::new(),
        examples: Vec::new(),
    });
    proof {
        reveal_strlit("set_webgl_context");
        reveal_strlit(r#"I set WebGL context to "([^"]+)""#);
        assert(step_entry_named(catalog.steps@.last()));
        assert(spec_catalog_entry(110, catalog.steps@.last()));
    }

    catalog.add_step(StepInfo {
        id: String::from_str("should_be_checked"),
        pattern: String::from_str(r#"the element "([^"]+)" should be checked"#),
        aliases: Vec::new(),
        category: String::from_str("Verification"),
        description: String::from_str("Verify checkbox is checked"),
        parameters: Vec::new(),
        examples: Vec::new(),
    });
    proof {
        reveal_strlit("should_be_checked");
        reveal_strlit(r#"the element "([^"]+)" should be checked"#);
        assert(step_entry_named(catalog.steps@.last()));
        assert(spec_catalog_entry(111, catalog.steps@.last()));
    }

    catalog.add_step(StepInfo {
        id: String::from_str("should_be_disabled"),
        pattern: String::from_str(r#"the element "([^"]+)" should be disabled"#),
        aliases: Vec::new(),
        category: String::from_str("Verification"),
        description: String::from_str("Verify element is disabled"),
        parameters: Vec::new(),
        examples: Vec::new(),
    });
    proof {
        reveal_strlit("should_be_disabled");
        reveal_strlit(r#"the element "([^"]+)" should be disabled"#);
        assert(step_entry_named(catalog.steps@.last()));
        assert(spec_catalog_entry(112, catalog.steps@.last()));
    }

    catalog.add_step(StepInfo {
        id: String::from_str("should_be_enabled"),
        pattern: String::from_str(r#"the element "([^"]+)" should be enabled"#),
        aliases: Vec::new(),
        category: String::from_str("Verification"),
        description: String::from_str("Verify element is enabled"),
        parameters: Vec::new(),
        examples: Vec::new(),
    });
    proof {
        reveal_strlit("should_be_enabled");
        reveal_strlit(r#"the element "([^"]+)" should be enabled"#);
        assert(step_entry_named(catalog.steps@.last()));
        assert(spec_catalog_entry(113, catalog.steps@.last()));
    }

    catalog.add_step(StepInfo {
        id: String::from_str("should_be_focused"),
        pattern: String::from_str(r#"the element "([^"]+)" should be focused"#),
        aliases: Vec::new(),
        category: String::from_str("Verification"),
        description: String::from_str("Verify element has focus"),
        parameters: Vec::new(),
        examples: Vec::new(),
    });
    proof {
        reveal_strlit("should_be_focused");
        reveal_strlit(r#"the element "([^"]+)" should be focused"#);
        assert(step_entry_named(catalog.steps@.last()));
        assert(spec_catalog_entry(114, catalog.steps@.last()));
    }

    catalog.add_step(StepInfo {
        id: String::from_str("should_be_selected"),
        pattern: String::from_str(r#"the element "([^"]+)" should be selected"#),
        aliases: Vec::new(),
        category: String::from_str("Verification"),
        description: String::from_str("Verify element is selected"),
        parameters: Vec::new(),
        examples: Vec::new(),
    });
    proof {
        reveal_strlit("should_be_selected");
        reveal_strlit(r#"the element "([^"]+)" should be selected"#);
        assert(step_entry_named(catalog.steps@.last()));
        assert(spec_catalog_entry(115, catalog.steps@.last()));
    }

    catalog.add_step(StepInfo {
        id: String::from_str("should_be_sorted_by"),
        pattern: String::from_str(r#"the items should be sorted by "([^"]+)""#),
        aliases: Vec::new(),
        category: String::from_str("Other"),
        description: String::from_str("Step: should_be_sorted_by"),
        parameters: Vec::new(),
        examples: Vec::new(),
    });
    proof {
        reveal_strlit("should_be_sorted_by");
        reveal_strlit(r#"the items should be sorted by "([^"]+)""#);
        assert(step_entry_named(catalog.steps@.last()));
        assert(spec_catalog_entry(116, catalog.steps@.last()));
    }

    catalog.add_step(StepInfo {
        id: String::from_str("should_be_visible"),
        pattern: String::from_str(r#"the element "([^"]+)" should be visible"#),
        aliases: vec![String::from_str(r#""([^"]+)" should be visible"#)],
        category: String::from_str("Verification"),
        description: String::from_str("Verify element is visible"),
        parameters: Vec::new(),
        examples: Vec::new(),
    });
    proof {
        reveal_strlit("should_be_visible");
        reveal_strlit(r#"the element "([^"]+)" should be visible"#);
        assert(step_entry_named(catalog.steps@.last()));
        assert(spec_catalog_entry(117, catalog.steps@.last()));
    }

    catalog.add_step(StepInfo {
        id: String::from_str("should_contain_text"),
        pattern: String::from_str(r#"the element "([^"]+)" should contain "([^"]+)""#),
        aliases: Vec::new(),
        category: String::from_str("Verification"),
        description: String::from_str("Verify element contains text"),
        parameters: Vec::new(),
        examples: Vec::new(),
    });
    proof {
        reveal_strlit("should_contain_text");
        reveal_strlit(r#"the element "([^"]+)" should contain "([^"]+)""#);
        assert(step_entry_named(catalog.steps@.last()));
        assert(spec_catalog_entry(118, catalog.steps@.last()));
    }

    catalog.add_step(StepInfo {
        id: String::from_str("should_exist"),
        pattern: String::from_str(r#"the element "([^"]+)" should exist"#),
        aliases: Vec::new(),
        category: String::from_str("Verification"),
        description: String::from_str("Verify element exists"),
        parameters: Vec::new(),
        examples: Vec::new(),
    });
    proof {
        reveal_strlit("should_exist");
        reveal_strlit(r#"the element "([^"]+)" should exist"#);
        assert(step_entry_named(catalog.steps@.last()));
        assert(spec_catalog_entry(119, catalog.steps@.last()));
    }

    catalog.add_step(StepInfo {
        id: String::from_str("should_not_be_checked"),
        pattern: String::from_str(r#"the element "([^"]+)" should not be checked"#),
        aliases: Vec::new(),
        category: String::from_str("Verification"),
        description: String::from_str("Verify checkbox is not checked"),
        parameters: Vec::new(),
        examples: Vec::new(),
    });
    proof {
        reveal_strlit("should_not_be_checked");
        reveal_strlit(r#"the element "([^"]+)" should not be checked"#);
        assert(step_entry_named(catalog.steps@.last()));
        assert(spec_catalog_entry(120, catalog.steps@.last()));
    }

    catalog.add_step(StepInfo {
        id: String::from_str("should_not_be_visible"),
        pattern: String::from_str(r#"the element "([^"]+)" should not be visible"#),
        aliases: vec![String::from_str(r#""([^"]+)" should not be visible"#)],
        category: String::from_str("Verification"),
        description: String::from_str("Verify element is not visible"),
        parameters: Vec::new(),
        examples: Vec::new(),
    });
    proof {
        reveal_strlit("should_not_be_visible");
        reveal_strlit(r#"the element "([^"]+)" should not be visible"#);
        assert(step_entry_named(catalog.steps@.last()));
        assert(spec_catalog_entry(121, catalog.steps@.last()));
    }

    catalog.add_step(StepInfo {
        id: String::from_str("should_not_contain_text"),
        pattern: String::from_str(r#"the element "([^"]+)" should not contain "([^"]+)""#),
        aliases: Vec::new(),
        category: String::from_str("Verification"),
        description: String::from_str("Verify element does not contain text"),
        parameters: Vec::new(),
        examples: Vec::new(),
    });
    proof {
        reveal_strlit("should_not_contain_text");
        reveal_strlit(r#"the element "([^"]+)" should not contain "([^"]+)""#);
        assert(step_entry_named(catalog.steps@.last()));
        assert(spec_catalog_entry(122, catalog.steps@.last()));
    }

    catalog.add_step(StepInfo {
        id: String::from_str("should_not_exist"),
        pattern: String::from_str(r#"the element "([^"]+)" should not exist"#),
        aliases: Vec::new(),
        category: String::from_str("Verification"),
        description: String::from_str("Verify element does not exist"),
        parameters: Vec::new(),
        examples: Vec::new(),
    });
    proof {
        reveal_strlit("should_not_exist");
        reveal_strlit(r#"the element "([^"]+)" should not exist"#);
        assert(step_entry_named(catalog.steps@.last()));
        assert(spec_catalog_entry(123, catalog.steps@.last()));
    }

    catalog.add_step(StepInfo {
        id: String::from_str("should_not_see"),
        pattern: String::from_str(r#"I should not see "([^"]+)""#),
        aliases: vec![String::from_str(r#"I should not see the element "([^"]+)""#)],
        category: String::from_str("Verification"),
        description: String::from_str("Verify an element is not visible"),
        parameters: Vec::new(),
        examples: Vec::new(),
    });
    proof {
        reveal_strlit("should_not_see");
        reveal_strlit(r#"I should not see "([^"]+)""#);
        assert(step_entry_named(catalog.steps@.last()));
        assert(spec_catalog_entry(124, catalog.steps@.last()));
    }

    catalog.add_step(StepInfo {
        id: String::from_str("should_not_see_text"),
        pattern: String::from_str(r#"I should not see text "([^"]+)""#),
        aliases: vec![String::from_str(r#"the page should not contain "([^"]+)""#)],
        category: String::from_str("Verification"),
        description: String::from_str("Verify text is not on page"),
        parameters: Vec::new(),
        examples: Vec::new(),
    });
    proof {
        reveal_strlit("should_not_see_text");
        reveal_strlit(r#"I should not see text "([^"]+)""#);
        assert(step_entry_named(catalog.steps@.last()));
        assert(spec_catalog_entry(125, catalog.steps@.last()));
    }

    catalog.add_step(StepInfo {
        id: String::from_str("should_receive_websocket_message"),
        pattern: String::from_str(r#"I should receive WebSocket message "([^"]+)""#),
        aliases: Vec::new(),
        category: String::from_str("Other"),
        description: String::from_str("Step: should_receive_websocket_message"),
        parameters: Vec::new(),
        examples: Vec::new(),
    });
    proof {
        reveal_strlit("should_receive_websocket_message");
        reveal_strlit(r#"I should receive WebSocket message "([^"]+)""#);
        assert(step_entry_named(catalog.steps@.last()));
        assert(spec_catalog_entry(126, catalog.steps@.last()));
    }

    catalog.add_step(StepInfo {
        id: String::from_str("should_see"),
        pattern: String::from_str(r#"I should see "([^"]+)""#),
        aliases: vec![String::from_str(r#"I should see the element "([^"]+)""#)],
        category: String::from_str("Verification"),
        description: String::from_str("Verify an element is visible"),
        parameters: Vec::new(),
        examples: Vec::new(),
    });
    proof {
        reveal_strlit("should_see");
        reveal_strlit(r#"I should see "([^"]+)""#);
        assert(step_entry_named(catalog.steps@.last()));
        assert(spec_catalog_entry(127, catalog.steps@.last()));
    }

    catalog.add_step(StepInfo {
        id: String::from_str("should_see_active_filter"),
        pattern: String::from_str(r#"I should see active filter "([^"]+)""#),
        aliases: Vec::new(),
        category: String::from_str("Other"),
        description: String::from_str("Step: should_see_active_filter"),
        parameters: Vec::new(),
        examples: Vec::new(),
    });
    proof {
        reveal_strlit("should_see_active_filter");
        reveal_strlit(r#"I should see active filter "([^"]+)""#);
        assert(step_entry_named(catalog.steps@.last()));
        assert(spec_catalog_entry(128, catalog.steps@.last()));
    }

    catalog.add_step(StepInfo {
        id: String::from_str("should_see_active_tab"),
        pattern: String::from_str(r#"I should see active tab "([^"]+)""#),
        aliases: Vec::new(),
        category: String::from_str("Other"),
        description: String::from_str("Step: should_see_active_tab"),
        parameters: Vec::new(),
        examples: Vec::new(),
    });
    proof {
        reveal_strlit("should_see_active_tab");
        reveal_strlit(r#"I should see active tab "([^"]+)""#);
        assert(step_entry_named(catalog.steps@.last()));
        assert(spec_catalog_entry(129, catalog.steps@.last()));
    }

    catalog.add_step(StepInfo {
        id: String::from_str("should_see_animation"),
        pattern: String::from_str(r#"I should see animation "([^"]+)""#),
        aliases: Vec::new(),
        category: String::from_str("Other"),
        description: String::from_str("Step: should_see_animation"),
        parameters: Vec::new(),
        examples: Vec::new(),
    });
    proof {
        reveal_strlit("should_see_animation");
        reveal_strlit(r#"I should see animation "([^"]+)""#);
        assert(step_entry_named(catalog.steps@.last()));
        assert(spec_catalog_entry(130, catalog.steps@.last()));
    }

    catalog.add_step(StepInfo {
        id: String::from_str("should_see_autocomplete"),
        pattern: String::from_str(r#"I should see autocomplete suggestions for "([^"]+)""#),
        aliases: Vec::new(),
        category: String::from_str("Other"),
        description: String::from_str("Step: should_see_autocomplete"),
        parameters: Vec::new(),
        examples: Vec::new(),
    });
    proof {
        reveal_strlit("should_see_autocomplete");
        reveal_strlit(r#"I should see autocomplete suggestions for "([^"]+)""#);
        assert(step_entry_named(catalog.steps@.last()));
        assert(spec_catalog_entry(131, catalog.steps@.last()));
    }

}

fn register_steps_g(catalog: &mut StepCatalog)
    requires
        old(catalog).wf(),
        old(catalog).steps@.len() == 132,
    ensures
        final(catalog).wf(),
        final(catalog).steps@.len() == old(catalog).steps@.len() + 22,
        forall|k: int|
            132 <= k < 154 ==> spec_catalog_entry(k, #[trigger] final(catalog).steps@[k]),
        forall|i: int|
            0 <= i < old(catalog).steps@.len() ==> final(catalog).steps@[i] == old(
                catalog,
            ).steps@[i],
        forall|i: int|
            old(catalog).steps@.len() <= i < final(catalog).steps@.len()
                ==> step_entry_named(#[trigger] final(catalog).steps@[i]),
{
    catalog.add_step(StepInfo {
        id: String::from_str("should_see_breadcrumb"),
        pattern: String::from_str(r#"I should see breadcrumb "([^"]+)""#),
        aliases: Vec::new(),
        category: String::from_str("Other"),
        description: String::from_str("Step: should_see_breadcrumb"),
        parameters: Vec::new(),
        examples: Vec::new(),
    });
    proof {
        reveal_strlit("should_see_breadcrumb");
        reveal_strlit(r#"I should see breadcrumb "([^"]+)""#);
        assert(step_entry_named(catalog.steps@.last()));
        assert(spec_catalog_entry(132, catalog.steps@.last()));
    }

    catalog.add_step(StepInfo {
        id: String::from_str("should_see_exact_count_elements"),
        pattern: String::from_str(r#"there should be (\d+) "([^"]+)""#),
        aliases: Vec::new(),
        category: String::from_str("Verification"),
        description: String::from_str("Verify exact count of specific elements"),
        parameters: Vec::new(),
        examples: Vec::new(),
    });
    proof {
        reveal_strlit("should_see_exact_count_elements");
        reveal_strlit(r#"there should be (\d+) "([^"]+)""#);
        assert(step_entry_named(catalog.steps@.last()));
        assert(spec_catalog_entry(133, catalog.steps@.last()));
    }

    catalog.add_step(StepInfo {
        id: String::from_str("should_see_notification"),
        pattern: String::from_str(r#"I should see notification "([^"]+)""#),
        aliases: Vec::new(),
        category: String::from_str("Other"),
        description: String::from_str("Step: should_see_notification"),
        parameters: Vec::new(),
        examples: Vec::new(),
    });
    proof {
        reveal_strlit("should_see_notification");
        reveal_strlit(r#"I should see notification "([^"]+)""#);
        assert(step_entry_named(catalog.steps@.last()));
        assert(spec_catalog_entry(134, catalog.steps@.last()));
    }

    catalog.add_step(StepInfo {
        id: String::from_str("should_see_text"),
        pattern: String::from_str(r#"I should see text "([^"]+)""#),
        aliases: vec![String::from_str(r#"the page should contain "([^"]+)""#)],
        category: String::from_str("Verification"),
        description: String::from_str("Verify text is present on page"),
        parameters: Vec::new(),
        examples: Vec::new(),
    });
    proof {
        reveal_strlit("should_see_text");
        reveal_strlit(r#"I should see text "([^"]+)""#);
        assert(step_entry_named(catalog.steps@.last()));
        assert(spec_catalog_entry(135, catalog.steps@.last()));
    }

    catalog.add_step(StepInfo {
        id: String::from_str("should_see_tooltip"),
        pattern: String::from_str(r#"I should see tooltip "([^"]+)""#),
        aliases: Vec::new(),
        category: String::from_str("Other"),
        description: String::from_str("Step: should_see_tooltip"),
        parameters: Vec::new(),
        examples: Vec::new(),
    });
    proof {
        reveal_strlit("should_see_tooltip");
        reveal_strlit(r#"I should see tooltip "([^"]+)""#);
        assert(step_entry_named(catalog.steps@.last()));
        assert(spec_catalog_entry(136, catalog.steps@.last()));
    }

    catalog.add_step(StepInfo {
        id: String::from_str("skip_if_visible"),
        pattern: String::from_str(r#"skip the rest of the scenario if "([^"]+)" is (visible|present)"#),
        aliases: Vec::new(),
        category: String::from_str("Other"),
        description: String::from_str("Step: skip_if_visible"),
        parameters: Vec::new(),
        examples: Vec::new(),
    });
    proof {
        reveal_strlit("skip_if_visible");
        reveal_strlit(r#"skip the rest of the scenario if "([^"]+)" is (visible|present)"#);
        assert(step_entry_named(catalog.steps@.last()));
        assert(spec_catalog_entry(137, catalog.steps@.last()));
    }

    catalog.add_step(StepInfo {
        id: String::from_str("sort_by"),
        pattern: String::from_str(r#"I sort by "([^"]+)" in (?:ascending|descending) order"#),
        aliases: Vec::new(),
        category: String::from_str("Other"),
        description: String::from_str("Step: sort_by"),
        parameters: Vec::new(),
        examples: Vec::new(),
    });
    proof {
        reveal_strlit("sort_by");
        reveal_strlit(r#"I sort by "([^"]+)" in (?:ascending|descending) order"#);
        assert(step_entry_named(catalog.steps@.last()));
        assert(spec_catalog_entry(138, catalog.steps@.last()));
    }

    catalog.add_step(StepInfo {
        id: String::from_str("store_value"),
        pattern: String::from_str(r#"I set "([^"]+)" to "([^"]+)""#),
        aliases: vec![
            String::from_str(r#"I save "([^"]+)" as "([^"]+)""#),
            String::from_str(r#"I store "([^"]+)" as "([^"]+)""#),
        ],
        category: String::from_str("State"),
        description: String::from_str("Store value in variable"),
        parameters: Vec::new(),
        examples: Vec::new(),
    });
    proof {
        reveal_strlit("store_value");
        reveal_strlit(r#"I set "([^"]+)" to "([^"]+)""#);
        assert(step_entry_named(catalog.steps@.last()));
        assert(spec_catalog_entry(139, catalog.steps@.last()));
    }

    catalog.add_step(StepInfo {
        id: String::from_str("submit_form"),
        pattern: String::from_str(r#"I submit the form "([^"]+)""#),
        aliases: vec![String::from_str(r#"I submit "([^"]+)""#)],
        category: String::from_str("Input"),
        description: String::from_str("Submit a form"),
        parameters: Vec::new(),
        examples: Vec::new(),
    });
    proof {
        reveal_strlit("submit_form");
        reveal_strlit(r#"I submit the form "([^"]+)""#);
        assert(step_entry_named(catalog.steps@.last()));
        assert(spec_catalog_entry(140, catalog.steps@.last()));
    }

    catalog.add_step(StepInfo {
        id: String::from_str("swipe_elements"),
        pattern: String::from_str(r#"I swipe "([^"]+)" to "([^"]+)""#),
        aliases: Vec::new(),
        category: String::from_str("Other"),
        description: String::from_str("Step: swipe_elements"),
        parameters: Vec::new(),
        examples: Vec::new(),
    });
    proof {
        reveal_strlit("swipe_elements");
        reveal_strlit(r#"I swipe "([^"]+)" to "([^"]+)""#);
        assert(step_entry_named(catalog.steps@.last()));
        assert(spec_catalog_entry(141, catalog.steps@.last()));
    }

    catalog.add_step(StepInfo {
        id: String::from_str("switch_to_frame"),
        pattern: String::from_str(r#"I switch to frame "([^"]+)""#),
        aliases: Vec::new(),
        category: String::from_str("Navigation"),
        description: String::from_str("Switch to an iframe"),
        parameters: Vec::new(),
        examples: Vec::new(),
    });
    proof {
        reveal_strlit("switch_to_frame");
        reveal_strlit(r#"I switch to frame "([^"]+)""#);
        assert(step_entry_named(catalog.steps@.last()));
        assert(spec_catalog_entry(142, catalog.steps@.last()));
    }

    catalog.add_step(StepInfo {
        id: String::from_str("switch_to_window"),
        pattern: String::from_str(r#"I switch to window "([^"]+)""#),
        aliases: Vec::new(),
        category: String::from_str("Other"),
        description: String::from_str("Step: switch_to_window"),
        parameters: Vec::new(),
        examples: Vec::new(),
    });
    proof {
        reveal_strlit("switch_to_window");
        reveal_strlit(r#"I switch to window "([^"]+)""#);
        assert(step_entry_named(catalog.steps@.last()));
        assert(spec_catalog_entry(143, catalog.steps@.last()));
    }

    catalog.add_step(StepInfo {
        id: String::from_str("text_should_be"),
        pattern: String::from_str(r#"the text of "([^"]+)" should be "([^"]+)""#),
        aliases: vec![String::from_str(r#"the text of "([^"]+)" should equal "([^"]+)""#)],
        category: String::from_str("Verification"),
        description: String::from_str("Verify element text equals value"),
        parameters: Vec::new(),
        examples: Vec::new(),
    });
    proof {
        reveal_strlit("text_should_be");
        reveal_strlit(r#"the text of "([^"]+)" should be "([^"]+)""#);
        assert(step_entry_named(catalog.steps@.last()));
        assert(spec_catalog_entry(144, catalog.steps@.last()));
    }

    catalog.add_step(StepInfo {
        id: String::from_str("text_should_contain"),
        pattern: String::from_str(r#"the text of "([^"]+)" should contain "([^"]+)""#),
        aliases: Vec::new(),
        category: String::from_str("Verification"),
        description: String::from_str("Verify element text contains value"),
        parameters: Vec::new(),
        examples: Vec::new(),
    });
    proof {
        reveal_strlit("text_should_contain");
        reveal_strlit(r#"the text of "([^"]+)" should contain "([^"]+)""#);
        assert(step_entry_named(catalog.steps@.last()));
        assert(spec_catalog_entry(145, catalog.steps@.last()));
    }

    catalog.add_step(StepInfo {
        id: String::from_str("text_should_end"),
        pattern: String::from_str(r#"the text of "([^"]+)" should end with "([^"]+)""#),
        aliases: Vec::new(),
        category: String::from_str("Verification"),
        description: String::from_str("Verify element text ends with value"),
        parameters: Vec::new(),
        examples: Vec::new(),
    });
    proof {
        reveal_strlit("text_should_end");
        reveal_strlit(r#"the text of "([^"]+)" should end with "([^"]+)""#);
        assert(step_entry_named(catalog.steps@.last()));
        assert(spec_catalog_entry(146, catalog.steps@.last()));
    }

    catalog.add_step(StepInfo {
        id: String::from_str("text_should_match"),
        pattern: String::from_str(r#"the text of "([^"]+)" should match "([^"]+)""#),
        aliases: Vec::new(),
        category: String::from_str("Verification"),
        description: String::from_str("Verify element text matches pattern"),
        parameters: Vec::new(),
        examples: Vec::new(),
    });
    proof {
        reveal_strlit("text_should_match");
        reveal_strlit(r#"the text of "([^"]+)" should match "([^"]+)""#);
        assert(step_entry_named(catalog.steps@.last()));
        assert(spec_catalog_entry(147, catalog.steps@.last()));
    }

    catalog.add_step(StepInfo {
        id: String::from_str("text_should_start"),
        pattern: String::from_str(r#"the text of "([^"]+)" should start with "([^"]+)""#),
        aliases: Vec::new(),
        category: String::from_str("Verification"),
        description: String::from_str("Verify element text starts with value"),
        parameters: Vec::new(),
        examples: Vec::new(),
    });
    proof {
        reveal_strlit("text_should_start");
        reveal_strlit(r#"the text of "([^"]+)" should start with "([^"]+)""#);
        assert(step_entry_named(catalog.steps@.last()));
        assert(spec_catalog_entry(148, catalog.steps@.last()));
    }

    catalog.add_step(StepInfo {
        id: String::from_str("title_should_be"),
        pattern: String::from_str(r#"the title should be "([^"]+)""#),
        aliases: Vec::new(),
        category: String::from_str("Verification"),
        description: String::from_str("Verify page title"),
        parameters: Vec::new(),
        examples: Vec::new(),
    });
    proof {
        reveal_strlit("title_should_be");
        reveal_strlit(r#"the title should be "([^"]+)""#);
        assert(step_entry_named(catalog.steps@.last()));
        assert(spec_catalog_entry(149, catalog.steps@.last()));
    }

    catalog.add_step(StepInfo {
        id: String::from_str("title_should_contain"),
        pattern: String::from_str(r#"the title should contain "([^"]+)""#),
        aliases: Vec::new(),
        category: String::from_str("Verification"),
        description: String::from_str("Verify page title contains value"),
        parameters: Vec::new(),
        examples: Vec::new(),
    });
    proof {
        reveal_strlit("title_should_contain");
        reveal_strlit(r#"the title should contain "([^"]+)""#);
        assert(step_entry_named(catalog.steps@.last()));
        assert(spec_catalog_entry(150, catalog.steps@.last()));
    }

    catalog.add_step(StepInfo {
        id: String::from_str("toggle"),
        pattern: String::from_str(r#"I toggle "([^"]+)""#),
        aliases: Vec::new(),
        category: String::from_str("Input"),
        description: String::from_str("Toggle a checkbox or switch"),
        parameters: Vec::new(),
        examples: Vec::new(),
    });
    proof {
        reveal_strlit("toggle");
        reveal_strlit(r#"I toggle "([^"]+)""#);
        assert(step_entry_named(catalog.steps@.last()));
        assert(spec_catalog_entry(151, catalog.steps@.last()));
    }

    catalog.add_step(StepInfo {
        id: String::from_str("tooltip_should_contain"),
        pattern: String::from_str(r#"the tooltip should contain "([^"]+)""#),
        aliases: Vec::new(),
        category: String::from_str("Other"),
        description: String::from_str("Step: tooltip_should_contain"),
        parameters: Vec::new(),
        examples: Vec::new(),
    });
    proof {
        reveal_strlit("tooltip_should_contain");
        reveal_strlit(r#"the tooltip should contain "([^"]+)""#);
        assert(step_entry_named(catalog.steps@.last()));
        assert(spec_catalog_entry(152, catalog.steps@.last()));
    }

    catalog.add_step(StepInfo {
        id: String::from_str("touch_element"),
        pattern: String::from_str(r#"I touch "([^"]+)""#),
        aliases: Vec::new(),
        category: String::from_str("Other"),
        description: String::from_str("Step: touch_element"),
        parameters: Vec::new(),
        examples: Vec::new(),
    });
    proof {
        reveal_strlit("touch_element");
        reveal_strlit(r#"I touch "([^"]+)""#);
        assert(step_entry_named(catalog.steps@.last()));
        assert(spec_catalog_entry(153, catalog.steps@.last()));
    }

}

fn register_steps_h(catalog: &mut StepCatalog)
    requires
        old(catalog).wf(),
        old(catalog).steps@.len() == 154,
    ensures
        final(catalog).wf(),
        final(catalog).steps@.len() == old(catalog).steps@.len() + 20,
        forall|k: int|
            154 <= k < 174 ==> spec_catalog_entry(k, #[trigger] final(catalog).steps@[k]),
        forall|i: int|
            0 <= i < old(catalog).steps@.len() ==> final(catalog).steps@[i] == old(
                catalog,
            ).steps@[i],
        forall|i: int|
            old(catalog).steps@.len() <= i < final(catalog).steps@.len()
                ==> step_entry_named(#[trigger] final(catalog).steps@[i]),
{
    catalog.add_step(StepInfo {
        id: String::from_str("type_in_search_box"),
        pattern: String::from_str(r#"I type in search box "([^"]+)""#),
        aliases: Vec::new(),
        category: String::from_str("Other"),
        description: String::from_str("Step: type_in_search_box"),
        parameters: Vec::new(),
        examples: Vec::new(),
    });
    proof {
        reveal_strlit("type_in_search_box");
        reveal_strlit(r#"I type in search box "([^"]+)""#);
        assert(step_entry_named(catalog.steps@.last()));
        assert(spec_catalog_entry(154, catalog.steps@.last()));
    }

    catalog.add_step(StepInfo {
        id: String::from_str("type_into"),
        pattern: String::from_str(r#"I press "([^"]+)" in "([^"]+)""#),
        aliases: Vec::new(),
        category: String::from_str("Input"),
        description: String::from_str("Type into a specific element"),
        parameters: Vec::new(),
        examples: Vec::new(),
    });
    proof {
        reveal_strlit("type_into");
        reveal_strlit(r#"I press "([^"]+)" in "([^"]+)""#);
        assert(step_entry_named(catalog.steps@.last()));
        assert(spec_catalog_entry(155, catalog.steps@.last()));
    }

    catalog.add_step(StepInfo {
        id: String::from_str("type_into_prompt"),
        pattern: String::from_str(r#"I type "([^"]+)" into the prompt"#),
        aliases: Vec::new(),
        category: String::from_str("Other"),
        description: String::from_str("Step: type_into_prompt"),
        parameters: Vec::new(),
        examples: Vec::new(),
    });
    proof {
        reveal_strlit("type_into_prompt");
        reveal_strlit(r#"I type "([^"]+)" into the prompt"#);
        assert(step_entry_named(catalog.steps@.last()));
        assert(spec_catalog_entry(156, catalog.steps@.last()));
    }

    catalog.add_step(StepInfo {
        id: String::from_str("type_text"),
        pattern: String::from_str(r#"I type "([^"]+)" into "([^"]+)""#),
        aliases: vec![
            String::from_str(r#"I enter "([^"]+)" into "([^"]+)""#),
            String::from_str(r#"I type "([^"]+)" (?:in|into) "([^"]+)""#),
            String::from_str(r#"I enter "([^"]+)" (?:in|into) "([^"]+)""#),
            String::from_str(r#"I fill "([^"]+)" with "([^"]+)""#),
            String::from_str(r#"I fill in "([^"]+)" with "([^"]+)""#),
            String::from_str(r#"I input "([^"]+)" (?:in|into) "([^"]+)""#),
        ],
        category: String::from_str("Input"),
        description: String::from_str("Type text into an input field"),
        parameters: Vec::new(),
        examples: Vec::new(),
    });
    proof {
        reveal_strlit("type_text");
        reveal_strlit(r#"I type "([^"]+)" into "([^"]+)""#);
        assert(step_entry_named(catalog.steps@.last()));
        assert(spec_catalog_entry(157, catalog.steps@.last()));
    }

    catalog.add_step(StepInfo {
        id: String::from_str("uncheck"),
        pattern: String::from_str(r#"I uncheck "([^"]+)""#),
        aliases: Vec::new(),
        category: String::from_str("Input"),
        description: String::from_str("Uncheck a checkbox"),
        parameters: Vec::new(),
        examples: Vec::new(),
    });
    proof {
        reveal_strlit("uncheck");
        reveal_strlit(r#"I uncheck "([^"]+)""#);
        assert(step_entry_named(catalog.steps@.last()));
        assert(spec_catalog_entry(158, catalog.steps@.last()));
    }

    catalog.add_step(StepInfo {
        id: String::from_str("upload_file"),
        pattern: String::from_str(r#"I upload file "([^"]+)" to "([^"]+)""#),
        aliases: vec![
            String::from_str(r#"I attach "([^"]+)" to "([^"]+)""#),
            String::from_str(r#"I upload file "([^"]+)" to "([^"]+)""#),
        ],
        category: String::from_str("Input"),
        description: String::from_str("Upload a file"),
        parameters: Vec::new(),
        examples: Vec::new(),
    });
    proof {
        reveal_strlit("upload_file");
        reveal_strlit(r#"I upload file "([^"]+)" to "([^"]+)""#);
        assert(step_entry_named(catalog.steps@.last()));
        assert(spec_catalog_entry(159, catalog.steps@.last()));
    }

    catalog.add_step(StepInfo {
        id: String::from_str("url_should_be"),
        pattern: String::from_str(r#"the URL should be "([^"]+)""#),
        aliases: vec![String::from_str(r#"the current URL should be "([^"]+)""#)],
        category: String::from_str("Verification"),
        description: String::from_str("Verify current URL"),
        parameters: Vec::new(),
        examples: Vec::new(),
    });
    proof {
        reveal_strlit("url_should_be");
        reveal_strlit(r#"the URL should be "([^"]+)""#);
        assert(step_entry_named(catalog.steps@.last()));
        assert(spec_catalog_entry(160, catalog.steps@.last()));
    }

    catalog.add_step(StepInfo {
        id: String::from_str("url_should_contain"),
        pattern: String::from_str(r#"the URL should contain "([^"]+)""#),
        aliases: Vec::new(),
        category: String::from_str("Verification"),
        description: String::from_str("Verify URL contains value"),
        parameters: Vec::new(),
        examples: Vec::new(),
    });
    proof {
        reveal_strlit("url_should_contain");
        reveal_strlit(r#"the URL should contain "([^"]+)""#);
        assert(step_entry_named(catalog.steps@.last()));
        assert(spec_catalog_entry(161, catalog.steps@.last()));
    }

    catalog.add_step(StepInfo {
        id: String::from_str("use_stored_value"),
        pattern: String::from_str(r#"I use the stored value "([^"]+)""#),
        aliases: Vec::new(),
        category: String::from_str("Other"),
        description: String::from_str("Step: use_stored_value"),
        parameters: Vec::new(),
        examples: Vec::new(),
    });
    proof {
        reveal_strlit("use_stored_value");
        reveal_strlit(r#"I use the stored value "([^"]+)""#);
        assert(step_entry_named(catalog.steps@.last()));
        assert(spec_catalog_entry(162, catalog.steps@.last()));
    }

    catalog.add_step(StepInfo {
        id: String::from_str("value_should_be"),
        pattern: String::from_str(r#"the value "([^"]+)" should be "([^"]+)""#),
        aliases: Vec::new(),
        category: String::from_str("Other"),
        description: String::from_str("Step: value_should_be"),
        parameters: Vec::new(),
        examples: Vec::new(),
    });
    proof {
        reveal_strlit("value_should_be");
        reveal_strlit(r#"the value "([^"]+)" should be "([^"]+)""#);
        assert(step_entry_named(catalog.steps@.last()));
        assert(spec_catalog_entry(163, catalog.steps@.last()));
    }

    catalog.add_step(StepInfo {
        id: String::from_str("verify_canvas_pixel"),
        pattern: String::from_str(r#"I verify canvas pixel at "([^"]+)""#),
        aliases: Vec::new(),
        category: String::from_str("Other"),
        description: String::from_str("Step: verify_canvas_pixel"),
        parameters: Vec::new(),
        examples: Vec::new(),
    });
    proof {
        reveal_strlit("verify_canvas_pixel");
        reveal_strlit(r#"I verify canvas pixel at "([^"]+)""#);
        assert(step_entry_named(catalog.steps@.last()));
        assert(spec_catalog_entry(164, catalog.steps@.last()));
    }

    catalog.add_step(StepInfo {
        id: String::from_str("verify_download"),
        pattern: String::from_str(r#"I verify file "([^"]+)" was downloaded"#),
        aliases: Vec::new(),
        category: String::from_str("Other"),
        description: String::from_str("Step: verify_download"),
        parameters: Vec::new(),
        examples: Vec::new(),
    });
    proof {
        reveal_strlit("verify_download");
        reveal_strlit(r#"I verify file "([^"]+)" was downloaded"#);
        assert(step_entry_named(catalog.steps@.last()));
        assert(spec_catalog_entry(165, catalog.steps@.last()));
    }

    catalog.add_step(StepInfo {
        id: String::from_str("wait_appear"),
        pattern: String::from_str(r#"I wait for element "([^"]+)" to appear"#),
        aliases: vec![
            String::from_str(r#"I wait for "([^"]+)" to appear"#),
            String::from_str(r#"I wait until "([^"]+)" appears"#),
        ],
        category: String::from_str("Waiting"),
        description: String::from_str("Wait for an element to appear on the page"),
        parameters: Vec::new(),
        examples: Vec::new(),
    });
    proof {
        reveal_strlit("wait_appear");
        reveal_strlit(r#"I wait for element "([^"]+)" to appear"#);
        assert(step_entry_named(catalog.steps@.last()));
        assert(spec_catalog_entry(166, catalog.steps@.last()));
    }

    catalog.add_step(StepInfo {
        id: String::from_str("wait_clickable"),
        pattern: String::from_str(r#"I wait for element "([^"]+)" to be (?:clickable|enabled)"#),
        aliases: Vec::new(),
        category: String::from_str("Waiting"),
        description: String::from_str("Wait for element to be clickable"),
        parameters: Vec::new(),
        examples: Vec::new(),
    });
    proof {
        reveal_strlit("wait_clickable");
        reveal_strlit(r#"I wait for element "([^"]+)" to be (?:clickable|enabled)"#);
        assert(step_entry_named(catalog.steps@.last()));
        assert(spec_catalog_entry(167, catalog.steps@.last()));
    }

    catalog.add_step(StepInfo {
        id: String::from_str("wait_for_element_text"),
        pattern: String::from_str(r#"I wait for element "([^"]+)" to contain "([^"]+)""#),
        aliases: Vec::new(),
        category: String::from_str("Waiting"),
        description: String::from_str("Wait for element to contain text"),
        parameters: Vec::new(),
        examples: Vec::new(),
    });
    proof {
        reveal_strlit("wait_for_element_text");
        reveal_strlit(r#"I wait for element "([^"]+)" to contain "([^"]+)""#);
        assert(step_entry_named(catalog.steps@.last()));
        assert(spec_catalog_entry(168, catalog.steps@.last()));
    }

    catalog.add_step(StepInfo {
        id: String::from_str("wait_for_text"),
        pattern: String::from_str(r#"I wait for text "([^"]+)" to appear"#),
        aliases: Vec::new(),
        category: String::from_str("Waiting"),
        description: String::from_str("Wait for text to appear"),
        parameters: Vec::new(),
        examples: Vec::new(),
    });
    proof {
        reveal_strlit("wait_for_text");
        reveal_strlit(r#"I wait for text "([^"]+)" to appear"#);
        assert(step_entry_named(catalog.steps@.last()));
        assert(spec_catalog_entry(169, catalog.steps@.last()));
    }

    catalog.add_step(StepInfo {
        id: String::from_str("wait_hidden"),
        pattern: String::from_str(r#"I wait for element "([^"]+)" to be hidden"#),
        aliases: vec![String::from_str(r#"I wait for "([^"]+)" to disappear"#)],
        category: String::from_str("Waiting"),
        description: String::from_str("Wait for an element to become hidden"),
        parameters: Vec::new(),
        examples: Vec::new(),
    });
    proof {
        reveal_strlit("wait_hidden");
        reveal_strlit(r#"I wait for element "([^"]+)" to be hidden"#);
        assert(step_entry_named(catalog.steps@.last()));
        assert(spec_catalog_entry(170, catalog.steps@.last()));
    }

    catalog.add_step(StepInfo {
        id: String::from_str("wait_visible"),
        pattern: String::from_str(r#"I wait for element "([^"]+)" to be visible"#),
        aliases: vec![
            String::from_str(r#"I wait for "([^"]+)" to be visible"#),
            String::from_str(r#"I wait until "([^"]+)" is visible"#),
        ],
        category: String::from_str("Waiting"),
        description: String::from_str("Wait for an element to become visible"),
        parameters: Vec::new(),
        examples: Vec::new(),
    });
    proof {
        reveal_strlit("wait_visible");
        reveal_strlit(r#"I wait for element "([^"]+)" to be visible"#);
        assert(step_entry_named(catalog.steps@.last()));
        assert(spec_catalog_entry(171, catalog.steps@.last()));
    }

    catalog.add_step(StepInfo {
        id: String::from_str("wait_with_timeout"),
        pattern: String::from_str(r#"I wait for "([^"]+)" with timeout of (\d+) seconds"#),
        aliases: Vec::new(),
        category: String::from_str("Other"),
        description: String::from_str("Step: wait_with_timeout"),
        parameters: Vec::new(),
        examples: Vec::new(),
    });
    proof {
        reveal_strlit("wait_with_timeout");
        reveal_strlit(r#"I wait for "([^"]+)" with timeout of (\d+) seconds"#);
        assert(step_entry_named(catalog.steps@.last()));
        assert(spec_catalog_entry(172, catalog.steps@.last()));
    }

    catalog.add_step(StepInfo {
        id: String::from_str("webgl_context_check"),
        pattern: String::from_str(r#"the WebGL should have context "([^"]+)""#),
        aliases: Vec::new(),
        category: String::from_str("Other"),
        description: String::from_str("Step: webgl_context_check"),
        parameters: Vec::new(),
        examples: Vec::new(),
    });
    proof {
        reveal_strlit("webgl_context_check");
        reveal_strlit(r#"the WebGL should have context "([^"]+)""#);
        assert(step_entry_named(catalog.steps@.last()));
        assert(spec_catalog_entry(173, catalog.steps@.last()));
    }

    }

/// Register the full step catalog, in its canonical order.  The catalog
/// is the fixed table: 174 entries, each index pinned to its identifier,
/// pattern, aliases, category and description, every identifier and
/// pattern nonempty.
pub fn build_step_catalog() -> (catalog: StepCatalog)
    ensures
        spec_canonical_catalog(catalog),
        catalog.wf(),
        catalog.steps@.len() == 174,
        forall|i: int|
            0 <= i < catalog.steps@.len() ==> step_entry_named(#[trigger] catalog.steps@[i]),
{
    let mut catalog = StepCatalog::new();
    register_steps_a(&mut catalog);
    proof {
        assert(forall|i: int|
            0 <= i < catalog.steps@.len() ==> step_entry_named(#[trigger] catalog.steps@[i]));
        assert(forall|k: int|
            0 <= k < 22 ==> spec_catalog_entry(k, #[trigger] catalog.steps@[k]));
    }
    register_steps_b(&mut catalog);
    proof {
        assert(forall|i: int|
            0 <= i < catalog.steps@.len() ==> step_entry_named(#[trigger] catalog.steps@[i]));
        assert(forall|k: int|
            0 <= k < 44 ==> spec_catalog_entry(k, #[trigger] catalog.steps@[k]));
    }
    register_steps_c(&mut catalog);
    proof {
        assert(forall|i: int|
            0 <= i < catalog.steps@.len() ==> step_entry_named(#[trigger] catalog.steps@[i]));
        assert(forall|k: int|
            0 <= k < 66 ==> spec_catalog_entry(k, #[trigger] catalog.steps@[k]));
    }
    register_steps_d(&mut catalog);
    proof {
        assert(forall|i: int|
            0 <= i < catalog.steps@.len() ==> step_entry_named(#[trigger] catalog.steps@[i]));
        assert(forall|k: int|
            0 <= k < 88 ==> spec_catalog_entry(k, #[trigger] catalog.steps@[k]));
    }
    register_steps_e(&mut catalog);
    proof {
        assert(forall|i: int|
            0 <= i < catalog.steps@.len() ==> step_entry_named(#[trigger] catalog.steps@[i]));
        assert(forall|k: int|
            0 <= k < 110 ==> spec_catalog_entry(k, #[trigger] catalog.steps@[k]));
    }
    register_steps_f(&mut catalog);
    proof {
        assert(forall|i: int|
            0 <= i < catalog.steps@.len() ==> step_entry_named(#[trigger] catalog.steps@[i]));
        assert(forall|k: int|
            0 <= k < 132 ==> spec_catalog_entry(k, #[trigger] catalog.steps@[k]));
    }
    register_steps_g(&mut catalog);
    proof {
        assert(forall|i: int|
            0 <= i < catalog.steps@.len() ==> step_entry_named(#[trigger] catalog.steps@[i]));
        assert(forall|k: int|
            0 <= k < 154 ==> spec_catalog_entry(k, #[trigger] catalog.steps@[k]));
    }
    register_steps_h(&mut catalog);
    proof {
        assert(forall|i: int|
            0 <= i < catalog.steps@.len() ==> step_entry_named(#[trigger] catalog.steps@[i]));
        assert(forall|k: int|
            0 <= k < 174 ==> spec_catalog_entry(k, #[trigger] catalog.steps@[k]));
    }
    catalog
}

} // verus!
