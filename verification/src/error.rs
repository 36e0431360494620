//! Error taxonomy of the rule engine.

use vstd::prelude::*;

verus! {

/// Failure reported by an evaluator about one rule; the engine wraps it
/// as [`SageXError::EvaluationFailure`].
#[derive(Debug, PartialEq, Eq)]
pub struct EvaluationError {
    /// Human-readable detail supplied by the evaluator.
    pub detail: String,
}

impl EvaluationError {
    /// Builds an evaluator failure carrying `detail`.
    pub fn new(detail: &str) -> (e: EvaluationError)
        ensures
            e.detail@ == detail@,
    {
        EvaluationError { detail: String::from_str(detail) }
    }
}

/// Everything that can go wrong inside the engine.
#[derive(Debug, PartialEq, Eq)]
pub enum SageXError {
    /// No rule set is registered under the given name.
    RuleSetNotFound(String),
    /// No evaluator is registered for the rule's resolved type; carries the
    /// label of that type.
    UnsupportedRuleType(String),
    /// The evaluator took longer than the configured bound.
    EvaluationTimeout,
    /// The evaluator itself reported a failure; carries its detail.
    EvaluationFailure(String),
    /// A rule with the given id is already present in the rule set.
    DuplicateRuleId(String),
    /// The rule was never attempted because an earlier rule of the batch
    /// failed and the batch does not continue on failure.
    Skipped,
}

/// Mathematical model of a [`SageXError`]: text payloads as character
/// sequences.
pub enum ErrorView {
    RuleSetNotFound(Seq<char>),
    UnsupportedRuleType(Seq<char>),
    EvaluationTimeout,
    EvaluationFailure(Seq<char>),
    DuplicateRuleId(Seq<char>),
    Skipped,
}

impl View for SageXError {
    type V = ErrorView;

    open spec fn view(&self) -> ErrorView {
        match self {
            SageXError::RuleSetNotFound(name) => ErrorView::RuleSetNotFound(name@),
            SageXError::UnsupportedRuleType(label) => ErrorView::UnsupportedRuleType(label@),
            SageXError::EvaluationTimeout => ErrorView::EvaluationTimeout,
            SageXError::EvaluationFailure(detail) => ErrorView::EvaluationFailure(detail@),
            SageXError::DuplicateRuleId(id) => ErrorView::DuplicateRuleId(id@),
            SageXError::Skipped => ErrorView::Skipped,
        }
    }
}

/// Text of the message that [`SageXError::message`] renders for an error.
pub open spec fn error_text(e: ErrorView) -> Seq<char> {
    match e {
        ErrorView::RuleSetNotFound(name) => "Rule set not found: "@ + name,
        ErrorView::UnsupportedRuleType(label) => "Unsupported rule type: "@ + label,
        ErrorView::EvaluationTimeout => "Rule evaluation timed out"@,
        ErrorView::EvaluationFailure(detail) => "Rule evaluation failed: "@ + detail,
        ErrorView::DuplicateRuleId(id) => "Duplicate rule id: "@ + id,
        ErrorView::Skipped => "Rule skipped after an earlier failure"@,
    }
}

impl SageXError {
    /// Renders the error as a message for people.
    pub fn message(&self) -> (text: String)
        ensures
            text@ == error_text(self@),
    {
        match self {
            SageXError::RuleSetNotFound(name) => String::from_str("Rule set not found: ").concat(
                name.as_str(),
            ),
            SageXError::UnsupportedRuleType(label) => String::from_str(
                "Unsupported rule type: ",
            ).concat(label.as_str()),
            SageXError::EvaluationTimeout => String::from_str("Rule evaluation timed out"),
            SageXError::EvaluationFailure(detail) => String::from_str(
                "Rule evaluation failed: ",
            ).concat(detail.as_str()),
            SageXError::DuplicateRuleId(id) => String::from_str("Duplicate rule id: ").concat(
                id.as_str(),
            ),
            SageXError::Skipped => String::from_str("Rule skipped after an earlier failure"),
        }
    }
}

impl Clone for EvaluationError {
    fn clone(&self) -> (copy: EvaluationError)
        ensures
            copy.detail@ == self.detail@,
    {
        EvaluationError { detail: self.detail.clone() }
    }
}

impl Clone for SageXError {
    fn clone(&self) -> (copy: SageXError)
        ensures
            copy@ == self@,
    {
        match self {
            SageXError::RuleSetNotFound(name) => SageXError::RuleSetNotFound(name.clone()),
            SageXError::UnsupportedRuleType(label) => SageXError::UnsupportedRuleType(
                label.clone(),
            ),
            SageXError::EvaluationTimeout => SageXError::EvaluationTimeout,
            SageXError::EvaluationFailure(detail) => SageXError::EvaluationFailure(detail.clone()),
            SageXError::DuplicateRuleId(id) => SageXError::DuplicateRuleId(id.clone()),
            SageXError::Skipped => SageXError::Skipped,
        }
    }
}

} // verus!
