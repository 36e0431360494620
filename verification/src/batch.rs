//! What a batch evaluation returns: one result per collected rule, in
//! collection order, with every rule attempted up to the end of the first
//! wave that holds a failure where the batch does not continue on failure.

use vstd::prelude::*;
use vstd::arithmetic::div_mod::{
    lemma_div_is_ordered, lemma_div_multiples_vanish, lemma_fundamental_div_mod,
    lemma_fundamental_div_mod_converse,
};
use vstd::arithmetic::mul::{lemma_mul_inequality, lemma_mul_is_commutative};
use crate::config::RuleEngineConfig;
use crate::dispatch::{known_tag, resolved_type, timed_admits};
use crate::error::ErrorView;
use crate::registry::{has_evaluator, RegistrationView};
use crate::rule_types::{type_label, OutcomeView, ResultView, RuleEvaluationResult, RuleView};

verus! {

/// The models of a sequence of results.
pub open spec fn result_views(results: Seq<RuleEvaluationResult>) -> Seq<ResultView> {
    Seq::new(results.len(), |i: int| results[i]@)
}

/// First position of the wave that position `index` belongs to, for
/// waves of `width` rules.
pub open spec fn wave_start(index: int, width: int) -> int {
    (index / width) * width
}

/// Whether the batch had stopped attempting rules before the wave of
/// position `index` began: it does not continue on failure, and a rule
/// of an earlier wave was attempted and failed.
pub open spec fn halted_before(
    config: RuleEngineConfig,
    results: Seq<ResultView>,
    index: int,
) -> bool {
    !config.continue_on_failure && exists|j: int|
        0 <= j < wave_start(index, config.wave_width()) && j < results.len() && (
        #[trigger] results[j]).is_failed_attempt()
}

/// `result` records a single evaluation of `rule`: it carries the rule's
/// id and an outcome that the evaluation admits for the recorded time.
pub open spec fn attempt_of(
    entries: Seq<RegistrationView>,
    config: RuleEngineConfig,
    rule: RuleView,
    context: Seq<char>,
    result: ResultView,
) -> bool {
    &&& result.rule_id == rule.id
    &&& timed_admits(entries, config, rule, context, result.outcome, result.duration_us)
}

/// `result` records that `rule` was skipped.
pub open spec fn skip_of(rule: RuleView, result: ResultView) -> bool {
    &&& result.rule_id == rule.id
    &&& result.is_skipped()
    &&& result.duration_us == 0
}

/// The result at position `index` is the one owed to the rule at that
/// position: it carries the rule's id; it is a skip of no duration where
/// the batch had halted before the rule's wave, and else the outcome of a
/// single evaluation that took the recorded time.
pub open spec fn entry_admitted(
    entries: Seq<RegistrationView>,
    config: RuleEngineConfig,
    rules: Seq<RuleView>,
    context: Seq<char>,
    results: Seq<ResultView>,
    index: int,
) -> bool {
    if halted_before(config, results, index) {
        skip_of(rules[index], results[index])
    } else {
        attempt_of(entries, config, rules[index], context, results[index])
    }
}

/// `results` is what a batch over `rules` returns: exactly one result per
/// rule, in the order of the rules.
pub open spec fn batch_admits(
    entries: Seq<RegistrationView>,
    config: RuleEngineConfig,
    rules: Seq<RuleView>,
    context: Seq<char>,
    results: Seq<ResultView>,
) -> bool {
    &&& results.len() == rules.len()
    &&& forall|i: int|
        0 <= i < rules.len() ==> #[trigger] entry_admitted(
            entries,
            config,
            rules,
            context,
            results,
            i,
        )
}

/// Where the waves of a position lie, for a position at or after the
/// beginning of wave number `waves`.
pub proof fn lemma_wave_start(index: int, width: int, waves: int)
    requires
        width >= 1,
        waves >= 0,
        waves * width <= index,
    ensures
        0 <= wave_start(index, width) <= index,
        waves * width <= wave_start(index, width),
        index < waves * width + width ==> wave_start(index, width) == waves * width,
{
    lemma_fundamental_div_mod(index, width);
    lemma_mul_is_commutative(width, index / width);
    lemma_div_multiples_vanish(waves, width);
    lemma_mul_is_commutative(width, waves);
    lemma_div_is_ordered(waves * width, index, width);
    lemma_mul_inequality(waves, index / width, width);
    assert(0 <= waves * width) by (nonlinear_arith)
        requires
            waves >= 0,
            width >= 1,
    ;
    if index < waves * width + width {
        lemma_fundamental_div_mod_converse(index, width, waves, index - waves * width);
    }
}

/// An outcome of a single evaluation is never a skip.
pub proof fn lemma_attempt_is_no_skip(
    entries: Seq<RegistrationView>,
    config: RuleEngineConfig,
    rule: RuleView,
    context: Seq<char>,
    result: ResultView,
)
    requires
        timed_admits(entries, config, rule, context, result.outcome, result.duration_us),
    ensures
        !result.is_skipped(),
{
}

/// One more wave: where `before` holds the results owed to the first
/// `before.len()` rules of a batch that has no cause to halt, and `wave`
/// holds attempts of the rules of the next wave, the two together hold
/// the results owed to all of these rules.
pub proof fn lemma_wave_extends_batch(
    entries: Seq<RegistrationView>,
    config: RuleEngineConfig,
    rules: Seq<RuleView>,
    context: Seq<char>,
    before: Seq<ResultView>,
    wave: Seq<ResultView>,
    waves: int,
)
    requires
        waves >= 0,
        before.len() == waves * config.wave_width(),
        wave.len() <= config.wave_width(),
        before.len() + wave.len() <= rules.len(),
        forall|i: int|
            0 <= i < before.len() ==> #[trigger] entry_admitted(
                entries,
                config,
                rules,
                context,
                before,
                i,
            ),
        config.continue_on_failure || forall|j: int|
            0 <= j < before.len() ==> !(#[trigger] before[j]).is_failed_attempt(),
        forall|k: int|
            0 <= k < wave.len() ==> attempt_of(
                entries,
                config,
                rules[before.len() + k],
                context,
                #[trigger] wave[k],
            ),
    ensures
        forall|i: int|
            0 <= i < before.len() + wave.len() ==> #[trigger] entry_admitted(
                entries,
                config,
                rules,
                context,
                before + wave,
                i,
            ),
{
    let width = config.wave_width();
    let start = before.len() as int;
    let after = before + wave;
    assert forall|i: int| 0 <= i < start + wave.len() implies #[trigger] entry_admitted(
        entries,
        config,
        rules,
        context,
        after,
        i,
    ) by {
        if i < start {
            lemma_wave_start(i, width, 0);
            assert(after[i] == before[i]);
            assert(entry_admitted(entries, config, rules, context, before, i));
        } else {
            lemma_wave_start(i, width, waves);
            assert(after[i] == wave[i - start]);
        }
        if halted_before(config, after, i) {
            let j = choose|j: int|
                0 <= j < wave_start(i, width) && j < after.len() && (
                #[trigger] after[j]).is_failed_attempt();
            assert(after[j] == before[j]);
            assert(false);
        }
        assert(!halted_before(config, before, i));
    }
}

/// Completeness: a batch returns exactly one result per collected rule,
/// each under the id of its rule, whatever the bound on parallelism and
/// whether or not the batch continues on failure. A result is a skip
/// exactly where the batch had halted before the wave of its rule.
pub proof fn lemma_batch_is_complete(
    entries: Seq<RegistrationView>,
    config: RuleEngineConfig,
    rules: Seq<RuleView>,
    context: Seq<char>,
    results: Seq<ResultView>,
)
    requires
        batch_admits(entries, config, rules, context, results),
    ensures
        results.len() == rules.len(),
        forall|i: int| 0 <= i < rules.len() ==> (#[trigger] results[i]).rule_id == rules[i].id,
        forall|i: int|
            0 <= i < rules.len() ==> (#[trigger] results[i]).is_skipped() == halted_before(
                config,
                results,
                i,
            ),
        config.continue_on_failure ==> forall|i: int|
            0 <= i < rules.len() ==> !(#[trigger] results[i]).is_skipped(),
{
    assert forall|i: int| 0 <= i < rules.len() implies (#[trigger] results[i]).rule_id
        == rules[i].id && results[i].is_skipped() == halted_before(config, results, i) by {
        assert(entry_admitted(entries, config, rules, context, results, i));
        if !halted_before(config, results, i) {
            lemma_attempt_is_no_skip(entries, config, rules[i], context, results[i]);
        }
    }
}

/// Order invariance under parallelism: two batches over the same rules,
/// run under any two configurations, return results of the same length
/// that agree position by position on the rule id.
pub proof fn lemma_order_is_invariant(
    entries: Seq<RegistrationView>,
    first_config: RuleEngineConfig,
    second_config: RuleEngineConfig,
    rules: Seq<RuleView>,
    context: Seq<char>,
    first: Seq<ResultView>,
    second: Seq<ResultView>,
)
    requires
        batch_admits(entries, first_config, rules, context, first),
        batch_admits(entries, second_config, rules, context, second),
    ensures
        first.len() == second.len(),
        forall|i: int| 0 <= i < first.len() ==> (#[trigger] first[i]).rule_id == second[i].rule_id,
{
    lemma_batch_is_complete(entries, first_config, rules, context, first);
    lemma_batch_is_complete(entries, second_config, rules, context, second);
}

/// Unknown type within a batch: a rule whose tag is one of the fixed
/// tags, and for whose type no evaluator is registered, yields an
/// unsupported-type failure wherever the batch had not halted before its
/// wave.
pub proof fn lemma_unregistered_type_in_batch(
    entries: Seq<RegistrationView>,
    config: RuleEngineConfig,
    rules: Seq<RuleView>,
    context: Seq<char>,
    results: Seq<ResultView>,
    index: int,
    tag: Seq<char>,
)
    requires
        batch_admits(entries, config, rules, context, results),
        0 <= index < rules.len(),
        rules[index].type_tag() == Some(tag),
        known_tag(tag) matches Some(rule_type) && !has_evaluator(entries, rule_type),
        !halted_before(config, results, index),
    ensures
        results[index].outcome == OutcomeView::Failure(
            ErrorView::UnsupportedRuleType(type_label(known_tag(tag)->Some_0)),
        ),
{
    assert(entry_admitted(entries, config, rules, context, results, index));
}

/// Timeout within a batch: a rule that was attempted, whose type has an
/// evaluator, and whose recorded time exceeds the configured bound, is
/// recorded as a timeout and never as a success.
pub proof fn lemma_slow_attempt_in_batch(
    entries: Seq<RegistrationView>,
    config: RuleEngineConfig,
    rules: Seq<RuleView>,
    context: Seq<char>,
    results: Seq<ResultView>,
    index: int,
)
    requires
        batch_admits(entries, config, rules, context, results),
        0 <= index < rules.len(),
        !results[index].is_skipped(),
        has_evaluator(entries, resolved_type(rules[index], entries)),
        config.exceeded_by(results[index].duration_us),
    ensures
        results[index].outcome == OutcomeView::Failure(ErrorView::EvaluationTimeout),
{
    assert(entry_admitted(entries, config, rules, context, results, index));
}

/// Sequential failure policy: one at a time and without continuing on
/// failure, every rule after the first failed attempt is skipped, and no
/// rule up to it is.
pub proof fn lemma_sequential_halt(
    entries: Seq<RegistrationView>,
    config: RuleEngineConfig,
    rules: Seq<RuleView>,
    context: Seq<char>,
    results: Seq<ResultView>,
    failed: int,
)
    requires
        batch_admits(entries, config, rules, context, results),
        !config.continue_on_failure,
        config.max_parallel_evaluations <= 1,
        0 <= failed < rules.len(),
        results[failed].is_failed_attempt(),
        forall|j: int| 0 <= j < failed ==> !(#[trigger] results[j]).is_failed_attempt(),
    ensures
        forall|i: int| 0 <= i <= failed ==> !(#[trigger] results[i]).is_skipped(),
        forall|i: int| failed < i < rules.len() ==> (#[trigger] results[i]).is_skipped(),
{
    lemma_batch_is_complete(entries, config, rules, context, results);
    assert forall|i: int| 0 <= i < rules.len() implies wave_start(i, 1) == i by {
        lemma_wave_start(i, 1, i);
    }
    assert forall|i: int| failed < i < rules.len() implies (#[trigger] results[i]).is_skipped() by {
        assert(results[failed].is_failed_attempt());
        assert(halted_before(config, results, i));
    }
}

} // verus!
