//! Validation outcomes: errors, warnings and the collecting result.

use vstd::prelude::*;
use vstd::string::StringExecFns;

verus! {

/// One validation error, with its position and its suggestions.
#[derive(Debug)]
pub struct ValidationError {
    pub step_number: Option<usize>,
    pub step_text: Option<String>,
    pub error_type: String,
    pub message: String,
    pub suggestions: Vec<String>,
}

/// One validation warning.
#[derive(Debug)]
pub struct ValidationWarning {
    pub step_number: Option<usize>,
    pub step_text: Option<String>,
    pub warning_type: String,
    pub message: String,
}

/// The collected outcome of validating one feature text.  `valid` holds
/// exactly while no error has been added; warnings do not spoil it.
#[derive(Debug)]
pub struct ValidationResult {
    pub valid: bool,
    pub errors: Vec<ValidationError>,
    pub warnings: Vec<ValidationWarning>,
}

impl ValidationResult {
    pub open spec fn wf(self) -> bool {
        self.valid <==> self.errors@.len() == 0
    }

    pub fn new() -> (r: ValidationResult)
        ensures
            r.valid,
            r.errors@.len() == 0,
            r.warnings@.len() == 0,
            r.wf(),
    {
        ValidationResult { valid: true, errors: Vec::new(), warnings: Vec::new() }
    }

    /// Record an error; the result is no longer valid.
    pub fn add_error(&mut self, error: ValidationError)
        ensures
            !final(self).valid,
            final(self).errors@ == old(self).errors@.push(error),
            final(self).warnings == old(self).warnings,
            final(self).wf(),
    {
        self.valid = false;
        self.errors.push(error);
    }

    /// Record a warning; validity is untouched.
    pub fn add_warning(&mut self, warning: ValidationWarning)
        ensures
            final(self).valid == old(self).valid,
            final(self).errors == old(self).errors,
            final(self).warnings@ == old(self).warnings@.push(warning),
            old(self).wf() ==> final(self).wf(),
    {
        self.warnings.push(warning);
    }

    pub fn is_valid(&self) -> (r: bool)
        ensures
            r == self.valid,
    {
        self.valid
    }

    pub fn error_count(&self) -> (n: usize)
        ensures
            n == self.errors@.len(),
    {
        self.errors.len()
    }

    pub fn warning_count(&self) -> (n: usize)
        ensures
            n == self.warnings@.len(),
    {
        self.warnings.len()
    }
}

impl Default for ValidationResult {
    fn default() -> (r: ValidationResult)
        ensures
            r.valid,
            r.errors@.len() == 0,
            r.warnings@.len() == 0,
    {
        ValidationResult::new()
    }
}

impl ValidationError {
    pub fn new(error_type: &str, message: &str) -> (r: ValidationError)
        ensures
            r.step_number is None,
            r.step_text is None,
            r.error_type@ == error_type@,
            r.message@ == message@,
            r.suggestions@.len() == 0,
    {
        ValidationError {
            step_number: None,
            step_text: None,
            error_type: String::from_str(error_type),
            message: String::from_str(message),
            suggestions: Vec::new(),
        }
    }

    pub fn with_step(self, step_number: usize, step_text: String) -> (r: ValidationError)
        ensures
            r == (ValidationError {
                step_number: Some(step_number),
                step_text: Some(step_text),
                ..self
            }),
    {
        ValidationError { step_number: Some(step_number), step_text: Some(step_text), ..self }
    }

    pub fn with_suggestion(self, suggestion: &str) -> (r: ValidationError)
        ensures
            r.step_number == self.step_number,
            r.step_text == self.step_text,
            r.error_type == self.error_type,
            r.message == self.message,
            r.suggestions@.len() == self.suggestions@.len() + 1,
            r.suggestions@.last()@ == suggestion@,
            r.suggestions@.drop_last() == self.suggestions@,
    {
        let mut e = self;
        e.suggestions.push(String::from_str(suggestion));
        proof {
            assert(e.suggestions@.drop_last() =~= self.suggestions@);
        }
        e
    }

    pub fn with_suggestions(self, suggestions: Vec<String>) -> (r: ValidationError)
        ensures
            r.step_number == self.step_number,
            r.step_text == self.step_text,
            r.error_type == self.error_type,
            r.message == self.message,
            r.suggestions@ == self.suggestions@ + suggestions@,
    {
        let mut e = self;
        let mut more = suggestions;
        e.suggestions.append(&mut more);
        e
    }
}

impl ValidationWarning {
    pub fn new(warning_type: &str, message: &str) -> (r: ValidationWarning)
        ensures
            r.step_number is None,
            r.step_text is None,
            r.warning_type@ == warning_type@,
            r.message@ == message@,
    {
        ValidationWarning {
            step_number: None,
            step_text: None,
            warning_type: String::from_str(warning_type),
            message: String::from_str(message),
        }
    }

    pub fn with_step(self, step_number: usize, step_text: String) -> (r: ValidationWarning)
        ensures
            r == (ValidationWarning {
                step_number: Some(step_number),
                step_text: Some(step_text),
                ..self
            }),
    {
        ValidationWarning { step_number: Some(step_number), step_text: Some(step_text), ..self }
    }
}

} // verus!
