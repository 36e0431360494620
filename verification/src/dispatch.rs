//! How one rule is dispatched and how its evaluation is settled: the rule
//! type that a rule resolves to, the outcomes that each registered
//! strategy admits, and the decision between the evaluator's answer and
//! the timeout.

use vstd::prelude::*;
use crate::config::RuleEngineConfig;
use crate::error::{ErrorView, EvaluationError, SageXError};
use crate::evaluators::{occurs_in, regex_matches, regex_report, regex_valid, text_pattern_report};
use crate::registry::{evaluator_for, has_evaluator, EvaluatorKind, RegistrationView};
use crate::rule_types::{
    outcome_of, type_label, OutcomeView, ResultView, RuleTypeView, RuleView,
};

verus! {

/// The rule type that one of the fixed metadata tags names, if `tag` is
/// one of them.
pub open spec fn known_tag(tag: Seq<char>) -> Option<RuleTypeView> {
    if tag == "regex"@ {
        Some(RuleTypeView::Regex)
    } else if tag == "javascript"@ {
        Some(RuleTypeView::JavaScript)
    } else if tag == "python"@ {
        Some(RuleTypeView::Python)
    } else if tag == "json"@ {
        Some(RuleTypeView::JsonPath)
    } else if tag == "conditional"@ {
        Some(RuleTypeView::Conditional)
    } else {
        None
    }
}

/// The rule type that `rule` is dispatched under. A fixed tag names its
/// type. Any other tag names a custom type where an evaluator is
/// registered for it. A rule without a tag, or with a tag that nothing
/// claims, is a text pattern.
pub open spec fn resolved_type(rule: RuleView, entries: Seq<RegistrationView>) -> RuleTypeView {
    match rule.type_tag() {
        None => RuleTypeView::TextPattern,
        Some(tag) => match known_tag(tag) {
            Some(rule_type) => rule_type,
            None => if has_evaluator(entries, RuleTypeView::Custom(tag)) {
                RuleTypeView::Custom(tag)
            } else {
                RuleTypeView::TextPattern
            },
        },
    }
}

/// The outcomes that a strategy of kind `kind` can have on `rule` and
/// `context` when it answers in time. A text pattern has exactly one. A
/// regular expression has its report, or a failure where it did not
/// compile; one of invalid syntax always fails. Of a custom evaluator
/// only the shape is known: an output, or a failure of its own.
pub open spec fn evaluator_admits(
    kind: EvaluatorKind,
    rule: RuleView,
    context: Seq<char>,
    outcome: OutcomeView,
) -> bool {
    match kind {
        EvaluatorKind::TextPattern => outcome == OutcomeView::Success(
            text_pattern_report(rule.content, occurs_in(rule.content, context)),
        ),
        EvaluatorKind::Regex => (outcome matches OutcomeView::Failure(
            ErrorView::EvaluationFailure(_),
        )) || (regex_valid(rule.content) && outcome == OutcomeView::Success(
            regex_report(rule.content, regex_matches(rule.content, context)),
        )),
        EvaluatorKind::Custom => outcome is Success || (outcome matches OutcomeView::Failure(
            ErrorView::EvaluationFailure(_),
        )),
    }
}

/// The outcome of a single evaluation that took `elapsed_us`
/// microseconds: unsupported where no evaluator is registered for the
/// resolved type, a timeout where the evaluation exceeded the configured
/// bound, else what the registered strategy admits.
pub open spec fn timed_admits(
    entries: Seq<RegistrationView>,
    config: RuleEngineConfig,
    rule: RuleView,
    context: Seq<char>,
    outcome: OutcomeView,
    elapsed_us: u64,
) -> bool {
    let rule_type = resolved_type(rule, entries);
    match evaluator_for(entries, rule_type) {
        None => outcome == OutcomeView::Failure(
            ErrorView::UnsupportedRuleType(type_label(rule_type)),
        ),
        Some(kind) => if config.exceeded_by(elapsed_us) {
            outcome == OutcomeView::Failure(ErrorView::EvaluationTimeout)
        } else {
            evaluator_admits(kind, rule, context, outcome)
        },
    }
}

/// The outcome of a single evaluation, whatever time it took.
pub open spec fn admits(
    entries: Seq<RegistrationView>,
    config: RuleEngineConfig,
    rule: RuleView,
    context: Seq<char>,
    outcome: OutcomeView,
) -> bool {
    exists|elapsed_us: u64| timed_admits(entries, config, rule, context, outcome, elapsed_us)
}

/// What the engine makes of an evaluator's answer that came after
/// `elapsed_us` microseconds.
pub open spec fn settled(
    returned: Result<String, EvaluationError>,
    elapsed_us: u64,
    config: RuleEngineConfig,
) -> OutcomeView {
    if config.exceeded_by(elapsed_us) {
        OutcomeView::Failure(ErrorView::EvaluationTimeout)
    } else {
        match returned {
            Ok(output) => OutcomeView::Success(output@),
            Err(error) => OutcomeView::Failure(ErrorView::EvaluationFailure(error.detail@)),
        }
    }
}

/// Decides what an evaluation amounts to once the evaluator has answered:
/// an answer that came too late is a timeout, whatever it says; an
/// answer in time is passed on, a failure wrapped as an evaluation
/// failure.
pub fn settle(
    returned: Result<String, EvaluationError>,
    elapsed_us: u64,
    config: &RuleEngineConfig,
) -> (result: Result<String, SageXError>)
    ensures
        outcome_of(result) == settled(returned, elapsed_us, *config),
{
    let elapsed: u128 = elapsed_us as u128;
    let allowed: u128 = (config.evaluation_timeout_ms as u128) * 1000;
    if elapsed > allowed {
        Err(SageXError::EvaluationTimeout)
    } else {
        match returned {
            Ok(output) => Ok(output),
            Err(error) => Err(SageXError::EvaluationFailure(error.detail)),
        }
    }
}

/// The duration under which an evaluation is recorded that was abandoned
/// after `waited_us` microseconds: the time waited where that exceeds the
/// configured bound, and else the least duration that does.
pub open spec fn abandoned_duration(config: RuleEngineConfig, waited_us: u64) -> int {
    if config.exceeded_by(waited_us) {
        waited_us as int
    } else {
        config.evaluation_timeout_ms as int * 1000 + 1
    }
}

/// What is recorded of a rule whose evaluator was abandoned after
/// `waited_us` microseconds: an unsupported type where no evaluator is
/// registered for the rule's type, else a timeout under the duration
/// above, and nothing where that duration cannot be recorded.
pub open spec fn abandoned_record(
    entries: Seq<RegistrationView>,
    config: RuleEngineConfig,
    rule: RuleView,
    waited_us: u64,
) -> Option<ResultView> {
    let rule_type = resolved_type(rule, entries);
    if !has_evaluator(entries, rule_type) {
        Some(
            ResultView {
                rule_id: rule.id,
                outcome: OutcomeView::Failure(
                    ErrorView::UnsupportedRuleType(type_label(rule_type)),
                ),
                duration_us: waited_us,
            },
        )
    } else if abandoned_duration(config, waited_us) <= u64::MAX {
        Some(
            ResultView {
                rule_id: rule.id,
                outcome: OutcomeView::Failure(ErrorView::EvaluationTimeout),
                duration_us: abandoned_duration(config, waited_us) as u64,
            },
        )
    } else {
        None
    }
}

/// Decides what an evaluation under a hard deadline amounts to: the
/// answer where one came before the deadline, and a timeout where the
/// evaluator was abandoned without one.
pub fn settle_deadline(answer: Option<Result<String, SageXError>>) -> (result: Result<
    String,
    SageXError,
>)
    ensures
        outcome_of(result) == match answer {
            Some(returned) => outcome_of(returned),
            None => OutcomeView::Failure(ErrorView::EvaluationTimeout),
        },
{
    match answer {
        Some(returned) => returned,
        None => Err(SageXError::EvaluationTimeout),
    }
}

/// Timeout determinism: an answer that took longer than the configured
/// bound settles as a timeout and never as a success, whatever the
/// evaluator returned.
pub proof fn lemma_late_answer_is_timeout(
    returned: Result<String, EvaluationError>,
    elapsed_us: u64,
    config: RuleEngineConfig,
)
    requires
        elapsed_us as int > config.evaluation_timeout_ms as int * 1000,
    ensures
        settled(returned, elapsed_us, config) == OutcomeView::Failure(ErrorView::EvaluationTimeout),
        !(settled(returned, elapsed_us, config) is Success),
{
}

/// Unknown type: a rule whose tag is one of the fixed tags, and for whose
/// type no evaluator is registered, evaluates to an unsupported-type
/// failure that carries the label of the type.
pub proof fn lemma_unregistered_type_is_unsupported(
    entries: Seq<RegistrationView>,
    config: RuleEngineConfig,
    rule: RuleView,
    context: Seq<char>,
    outcome: OutcomeView,
    tag: Seq<char>,
)
    requires
        rule.type_tag() == Some(tag),
        known_tag(tag) matches Some(rule_type) && !has_evaluator(entries, rule_type),
        admits(entries, config, rule, context, outcome),
    ensures
        outcome == OutcomeView::Failure(
            ErrorView::UnsupportedRuleType(type_label(known_tag(tag)->Some_0)),
        ),
{
}

} // verus!
