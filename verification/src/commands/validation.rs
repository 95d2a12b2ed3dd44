//! Outcome of validating a command before it runs.

use vstd::prelude::*;

verus! {

#[derive(Debug, Clone, Copy, PartialEq, Eq, Structural)]
pub enum ValidationSeverity {
    Info,
    Warning,
    Error,
    Fatal,
}

#[derive(Debug)]
pub struct ValidationWarning {
    pub code: String,
    pub message: String,
    pub severity: ValidationSeverity,
}

#[derive(Debug)]
pub struct ValidationResult {
    pub valid: bool,
    pub warnings: Vec<ValidationWarning>,
}

/// Whether a warning blocks the command (severity `Error` or `Fatal`).
pub open spec fn is_blocking(w: ValidationWarning) -> bool {
    w.severity == ValidationSeverity::Error || w.severity == ValidationSeverity::Fatal
}

/// Index of the first blocking warning in `ws`, if any.
pub open spec fn first_blocking_index(ws: Seq<ValidationWarning>) -> Option<int>
    decreases ws.len(),
{
    if ws.len() == 0 {
        None
    } else if is_blocking(ws[0]) {
        Some(0)
    } else {
        match first_blocking_index(ws.drop_first()) {
            Some(i) => Some(i + 1),
            None => None,
        }
    }
}

/// The message of the first blocking warning in `ws`, if any.
pub open spec fn first_error_message_of(ws: Seq<ValidationWarning>) -> Option<Seq<char>> {
    match first_blocking_index(ws) {
        Some(i) => Some(ws[i].message@),
        None => None,
    }
}

proof fn lemma_first_blocking_index_bounds(ws: Seq<ValidationWarning>)
    ensures
        first_blocking_index(ws) matches Some(i) ==> 0 <= i < ws.len() && is_blocking(ws[i])
            && forall|j: int| 0 <= j < i ==> !is_blocking(#[trigger] ws[j]),
        first_blocking_index(ws) is None ==> forall|j: int|
            0 <= j < ws.len() ==> !is_blocking(#[trigger] ws[j]),
    decreases ws.len(),
{
    if ws.len() > 0 {
        lemma_first_blocking_index_bounds(ws.drop_first());
        assert forall|j: int| 1 <= j < ws.len() implies ws[j] == ws.drop_first()[j - 1] by {}
    }
}

impl ValidationResult {
    /// Holds exactly when the result is valid and carries no warnings.
    pub open spec fn is_clean(&self) -> bool {
        self.valid && self.warnings@.len() == 0
    }

    /// Holds exactly when the result is invalid and carries the single
    /// error warning `code` / `message`.
    pub open spec fn is_error(&self, code: Seq<char>, message: Seq<char>) -> bool {
        &&& !self.valid
        &&& self.warnings@.len() == 1
        &&& self.warnings@[0].code@ == code
        &&& self.warnings@[0].message@ == message
        &&& self.warnings@[0].severity == ValidationSeverity::Error
    }

    pub fn valid() -> (r: ValidationResult)
        ensures
            r.is_clean(),
    {
        ValidationResult { valid: true, warnings: Vec::new() }
    }

    pub fn error(code: String, message: String) -> (r: ValidationResult)
        ensures
            r.is_error(code@, message@),
    {
        let mut warnings = Vec::new();
        warnings.push(ValidationWarning { code, message, severity: ValidationSeverity::Error });
        ValidationResult { valid: false, warnings }
    }

    /// Valid only if both are; warnings of `self` then of `other`.
    pub fn merge(self, other: ValidationResult) -> (r: ValidationResult)
        ensures
            r.valid == (self.valid && other.valid),
            r.warnings@ == self.warnings@ + other.warnings@,
    {
        let mut out = self;
        let mut rest = other;
        out.valid = out.valid && rest.valid;
        out.warnings.append(&mut rest.warnings);
        out
    }

    /// Message of the first warning whose severity is `Error` or `Fatal`.
    pub fn first_error_message(&self) -> (m: Option<String>)
        ensures
            m matches Some(s) ==> first_error_message_of(self.warnings@) == Some(s@),
            m is None ==> first_error_message_of(self.warnings@) is None,
    {
        proof {
            lemma_first_blocking_index_bounds(self.warnings@);
        }
        let mut i: usize = 0;
        while i < self.warnings.len()
            invariant
                i <= self.warnings@.len(),
                forall|j: int| 0 <= j < i ==> !is_blocking(#[trigger] self.warnings@[j]),
                first_blocking_index(self.warnings@) matches Some(k) ==> 0 <= k < self.warnings@.len()
                    && is_blocking(self.warnings@[k]) && forall|j: int|
                    0 <= j < k ==> !is_blocking(#[trigger] self.warnings@[j]),
                first_blocking_index(self.warnings@) is None ==> forall|j: int|
                    0 <= j < self.warnings@.len() ==> !is_blocking(#[trigger] self.warnings@[j]),
            decreases self.warnings.len() - i,
        {
            let w = &self.warnings[i];
            if w.severity == ValidationSeverity::Error || w.severity == ValidationSeverity::Fatal {
                assert(is_blocking(self.warnings@[i as int]));
                assert(first_blocking_index(self.warnings@) == Some(i as int));
                return Some(w.message.clone());
            }
            i = i + 1;
        }
        None
    }
}

impl Default for ValidationResult {
    fn default() -> (r: ValidationResult)
        ensures
            r.is_clean(),
    {
        ValidationResult::valid()
    }
}

} // verus!
