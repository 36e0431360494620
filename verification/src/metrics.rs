//! Aggregate figures over the results of a batch: how many rules
//! succeeded, failed, timed out or were skipped, and the time they took.

use vstd::prelude::*;
use crate::batch::result_views;
use crate::error::{ErrorView, SageXError};
use crate::rule_types::{
    EvaluationOutcome, OutcomeView, ResultView, RuleEvaluationResult, RuleType,
};

verus! {

/// The classes into which the results of a batch fall. Every result falls
/// into exactly one of them.
#[derive(Debug, Clone, Copy, PartialEq, Eq, Structural)]
pub enum OutcomeClass {
    /// The evaluator returned an output.
    Succeeded,
    /// The rule exceeded the time allowed to it.
    TimedOut,
    /// The rule was never attempted.
    Skipped,
    /// The rule failed for any other reason.
    Failed,
}

/// The class of a result.
pub open spec fn class_of(result: ResultView) -> OutcomeClass {
    match result.outcome {
        OutcomeView::Success(_) => OutcomeClass::Succeeded,
        OutcomeView::Failure(ErrorView::EvaluationTimeout) => OutcomeClass::TimedOut,
        OutcomeView::Failure(ErrorView::Skipped) => OutcomeClass::Skipped,
        OutcomeView::Failure(_) => OutcomeClass::Failed,
    }
}

/// Decides the class of a result.
pub fn classify(result: &RuleEvaluationResult) -> (class: OutcomeClass)
    ensures
        class == class_of(result@),
{
    match &result.outcome {
        EvaluationOutcome::Success(_) => OutcomeClass::Succeeded,
        EvaluationOutcome::Failure(SageXError::EvaluationTimeout) => OutcomeClass::TimedOut,
        EvaluationOutcome::Failure(SageXError::Skipped) => OutcomeClass::Skipped,
        EvaluationOutcome::Failure(_) => OutcomeClass::Failed,
    }
}

/// What a metrics sink is told about one evaluation: the type under which
/// the rule was dispatched, the class of the outcome, and the time taken.
#[derive(Debug, PartialEq, Eq)]
pub struct MetricsRecord {
    /// Rule type under which the rule was dispatched.
    pub rule_type: RuleType,
    /// Class of the outcome.
    pub class: OutcomeClass,
    /// Time spent on the rule, in microseconds.
    pub duration_us: u64,
}

/// Number of results of class `class`.
pub open spec fn count_of(results: Seq<ResultView>, class: OutcomeClass) -> nat
    decreases results.len(),
{
    if results.len() == 0 {
        0
    } else {
        count_of(results.drop_last(), class) + if class_of(results.last()) == class {
            1nat
        } else {
            0nat
        }
    }
}

/// Sum of the durations of the results, in microseconds.
pub open spec fn total_duration(results: Seq<ResultView>) -> nat
    decreases results.len(),
{
    if results.len() == 0 {
        0
    } else {
        total_duration(results.drop_last()) + results.last().duration_us as nat
    }
}

/// Aggregate figures of one batch.
#[derive(Debug, Clone, Copy, PartialEq, Eq, Structural)]
pub struct EvaluationMetrics {
    /// Number of results.
    pub total: usize,
    /// Number of rules whose evaluator returned an output.
    pub succeeded: usize,
    /// Number of rules that failed, timeouts and skips apart.
    pub failed: usize,
    /// Number of rules that exceeded the time allowed.
    pub timed_out: usize,
    /// Number of rules that were never attempted.
    pub skipped: usize,
    /// Sum of the durations, in microseconds.
    pub total_duration_us: u128,
}

impl EvaluationMetrics {
    /// The figures are those of `results`.
    pub open spec fn describes(self, results: Seq<ResultView>) -> bool {
        &&& self.total == results.len()
        &&& self.succeeded == count_of(results, OutcomeClass::Succeeded)
        &&& self.failed == count_of(results, OutcomeClass::Failed)
        &&& self.timed_out == count_of(results, OutcomeClass::TimedOut)
        &&& self.skipped == count_of(results, OutcomeClass::Skipped)
        &&& self.total_duration_us == total_duration(results)
    }
}

/// The classes partition the results: the four counts add up to the
/// number of results.
pub proof fn lemma_counts_add_up(results: Seq<ResultView>)
    ensures
        count_of(results, OutcomeClass::Succeeded) + count_of(results, OutcomeClass::Failed)
            + count_of(results, OutcomeClass::TimedOut) + count_of(results, OutcomeClass::Skipped)
            == results.len(),
        total_duration(results) <= results.len() * u64::MAX,
    decreases results.len(),
{
    if results.len() > 0 {
        lemma_counts_add_up(results.drop_last());
        assert(total_duration(results) <= results.len() * u64::MAX) by (nonlinear_arith)
            requires
                total_duration(results) == total_duration(results.drop_last())
                    + results.last().duration_us as nat,
                total_duration(results.drop_last()) <= (results.len() - 1) * u64::MAX,
                results.last().duration_us <= u64::MAX,
                results.len() >= 1,
        ;
    }
}

/// Aggregates the results of a batch.
pub fn summarize(results: &Vec<RuleEvaluationResult>) -> (metrics: EvaluationMetrics)
    ensures
        metrics.describes(result_views(results@)),
{
    let mut succeeded: usize = 0;
    let mut failed: usize = 0;
    let mut timed_out: usize = 0;
    let mut skipped: usize = 0;
    let mut duration: u128 = 0;
    let mut i: usize = 0;
    while i < results.len()
        invariant
            i <= results@.len(),
            succeeded == count_of(result_views(results@).take(i as int), OutcomeClass::Succeeded),
            failed == count_of(result_views(results@).take(i as int), OutcomeClass::Failed),
            timed_out == count_of(result_views(results@).take(i as int), OutcomeClass::TimedOut),
            skipped == count_of(result_views(results@).take(i as int), OutcomeClass::Skipped),
            duration == total_duration(result_views(results@).take(i as int)),
        decreases results@.len() - i,
    {
        proof {
            let views = result_views(results@);
            assert(views.take(i + 1).drop_last() =~= views.take(i as int));
            assert(views.take(i + 1).last() == results@[i as int]@);
            lemma_counts_add_up(views.take(i + 1));
            assert(views.take(i + 1).len() * u64::MAX <= u128::MAX) by (nonlinear_arith)
                requires
                    views.take(i + 1).len() <= usize::MAX,
            ;
        }
        match classify(&results[i]) {
            OutcomeClass::Succeeded => {
                succeeded += 1;
            },
            OutcomeClass::TimedOut => {
                timed_out += 1;
            },
            OutcomeClass::Skipped => {
                skipped += 1;
            },
            OutcomeClass::Failed => {
                failed += 1;
            },
        }
        duration += results[i].duration_us as u128;
        i += 1;
    }
    proof {
        assert(result_views(results@).take(i as int) =~= result_views(results@));
    }
    EvaluationMetrics {
        total: results.len(),
        succeeded,
        failed,
        timed_out,
        skipped,
        total_duration_us: duration,
    }
}

} // verus!
