//! The exportable image of the step catalog: metadata plus every step,
//! ready for the surrounding program to serialise.

use vstd::prelude::*;
use vstd::string::StringExecFns;
use crate::discovery::catalog::StepCatalog;
use crate::clock::now_iso_millis;

verus! {

/// The catalog as an interchange document.
#[derive(Debug)]
pub struct SchemaExport {
    pub metadata: SchemaMetadata,
    pub categories: Vec<String>,
    pub steps: Vec<ExportedStepInfo>,
}

/// Header data of an export.
#[derive(Debug)]
pub struct SchemaMetadata {
    pub version: String,
    pub generated_at: String,
    pub total_steps: usize,
    pub total_categories: usize,
}

/// One exported step.
#[derive(Debug)]
pub struct ExportedStepInfo {
    pub id: String,
    pub pattern: String,
    pub aliases: Vec<String>,
    pub category: String,
    pub description: String,
    pub parameters: Vec<ExportedParameterInfo>,
    pub examples: Vec<String>,
}

/// One exported parameter.
#[derive(Debug)]
pub struct ExportedParameterInfo {
    pub name: String,
    pub param_type: String,
    pub required: bool,
    pub description: String,
}

/// The exported step's aliases, parameters and examples mirror the
/// catalog step's, element by element.
pub open spec fn exported_step_lists_match(
    e: ExportedStepInfo,
    s: crate::discovery::catalog::StepInfo,
) -> bool {
    &&& e.aliases@.len() == s.aliases@.len()
    &&& forall|j: int|
        0 <= j < e.aliases@.len() ==> (#[trigger] e.aliases@[j])@ == s.aliases@[j]@
    &&& e.examples@.len() == s.examples@.len()
    &&& forall|j: int|
        0 <= j < e.examples@.len() ==> (#[trigger] e.examples@[j])@ == s.examples@[j]@
    &&& e.parameters@.len() == s.parameters@.len()
    &&& forall|j: int|
        0 <= j < e.parameters@.len() ==> {
            &&& (#[trigger] e.parameters@[j]).name@ == s.parameters@[j].name@
            &&& e.parameters@[j].param_type@ == s.parameters@[j].param_type@
            &&& e.parameters@[j].required == s.parameters@[j].required
            &&& e.parameters@[j].description@ == s.parameters@[j].description@
        }
}

impl SchemaExport {
    /// Mirror the catalog into an export, stamped with the current time.
    pub fn from_catalog(catalog: &StepCatalog) -> (r: SchemaExport)
        ensures
            r.metadata.version@ == "0.1.0"@,
            r.metadata.total_steps == catalog.steps@.len(),
            r.metadata.total_categories == catalog.categories@.len(),
            r.categories@.len() == catalog.categories@.len(),
            forall|i: int|
                0 <= i < r.categories@.len() ==> (#[trigger] r.categories@[i])@
                    == catalog.categories@[i]@,
            r.steps@.len() == catalog.steps@.len(),
            forall|i: int|
                0 <= i < r.steps@.len() ==> {
                    &&& (#[trigger] r.steps@[i]).id@ == catalog.steps@[i].id@
                    &&& r.steps@[i].pattern@ == catalog.steps@[i].pattern@
                    &&& r.steps@[i].category@ == catalog.steps@[i].category@
                    &&& r.steps@[i].description@ == catalog.steps@[i].description@
                    &&& exported_step_lists_match(r.steps@[i], catalog.steps@[i])
                },
    {
        let mut steps: Vec<ExportedStepInfo> = Vec::new();
        let n = catalog.steps.len();
        for i in 0..n
            invariant
                n == catalog.steps@.len(),
                steps@.len() == i,
                forall|k: int|
                    0 <= k < i ==> {
                        &&& (#[trigger] steps@[k]).id@ == catalog.steps@[k].id@
                        &&& steps@[k].pattern@ == catalog.steps@[k].pattern@
                        &&& steps@[k].category@ == catalog.steps@[k].category@
                        &&& steps@[k].description@ == catalog.steps@[k].description@
                        &&& exported_step_lists_match(steps@[k], catalog.steps@[k])
                    },
        {
            let s = &catalog.steps[i];
            let mut aliases: Vec<String> = Vec::new();
            let an = s.aliases.len();
            for j in 0..an
                invariant
                    an == s.aliases@.len(),
                    aliases@.len() == j,
                    forall|t: int|
                        0 <= t < j ==> (#[trigger] aliases@[t])@ == s.aliases@[t]@,
            {
                aliases.push(s.aliases[j].clone());
            }
            let mut parameters: Vec<ExportedParameterInfo> = Vec::new();
            let pn = s.parameters.len();
            for j in 0..pn
                invariant
                    pn == s.parameters@.len(),
                    parameters@.len() == j,
                    forall|t: int|
                        0 <= t < j ==> {
                            &&& (#[trigger] parameters@[t]).name@ == s.parameters@[t].name@
                            &&& parameters@[t].param_type@ == s.parameters@[t].param_type@
                            &&& parameters@[t].required == s.parameters@[t].required
                            &&& parameters@[t].description@ == s.parameters@[t].description@
                        },
            {
                let p = &s.parameters[j];
                parameters.push(
                    ExportedParameterInfo {
                        name: p.name.clone(),
                        param_type: p.param_type.clone(),
                        required: p.required,
                        description: p.description.clone(),
                    },
                );
            }
            let mut examples: Vec<String> = Vec::new();
            let en = s.examples.len();
            for j in 0..en
                invariant
                    en == s.examples@.len(),
                    examples@.len() == j,
                    forall|t: int|
                        0 <= t < j ==> (#[trigger] examples@[t])@ == s.examples@[t]@,
            {
                examples.push(s.examples[j].clone());
            }
            steps.push(
                ExportedStepInfo {
                    id: s.id.clone(),
                    pattern: s.pattern.clone(),
                    aliases,
                    category: s.category.clone(),
                    description: s.description.clone(),
                    parameters,
                    examples,
                },
            );
        }
        let mut categories: Vec<String> = Vec::new();
        let cn = catalog.categories.len();
        for i in 0..cn
            invariant
                cn == catalog.categories@.len(),
                categories@.len() == i,
                forall|k: int|
                    0 <= k < i ==> (#[trigger] categories@[k])@ == catalog.categories@[k]@,
        {
            categories.push(catalog.categories[i].clone());
        }
        SchemaExport {
            metadata: SchemaMetadata {
                version: String::from_str("0.1.0"),
                generated_at: now_iso_millis(),
                total_steps: catalog.total_steps(),
                total_categories: catalog.categories.len(),
            },
            categories,
            steps,
        }
    }
}

} // verus!
