//! The course of a batch, wave by wave: which rules are attempted next,
//! what is recorded of a wave, and when the rest is skipped. Whoever
//! drives a batch attempts the rules of each wave in any way it likes and
//! hands the results back; the policy is decided here.

use vstd::prelude::*;
use crate::batch::{
    attempt_of, entry_admitted, halted_before, lemma_wave_extends_batch, lemma_wave_start,
    result_views, wave_start,
};
use crate::config::RuleEngineConfig;
use crate::error::ErrorView;
use crate::registry::RegistrationView;
use crate::rule_types::{rule_views, OutcomeView, ResultView, Rule, RuleEvaluationResult, RuleView};

verus! {

/// Where the wave that starts at `start` ends, in a batch of `total`
/// rules and waves of `width`.
pub open spec fn wave_end(start: int, total: int, width: int) -> int {
    if total - start <= width {
        total
    } else {
        start + width
    }
}

/// The record of a rule that was skipped.
pub open spec fn skip_record(rule: RuleView) -> ResultView {
    ResultView {
        rule_id: rule.id,
        outcome: OutcomeView::Failure(ErrorView::Skipped),
        duration_us: 0,
    }
}

/// The records of the rules from position `from` on, all skipped.
pub open spec fn skips_from(rules: Seq<RuleView>, from: int) -> Seq<ResultView> {
    Seq::new((rules.len() - from) as nat, |i: int| skip_record(rules[from + i]))
}

/// Whether some result of `wave` is a failed attempt.
pub open spec fn holds_failure(wave: Seq<ResultView>) -> bool {
    exists|k: int| 0 <= k < wave.len() && (#[trigger] wave[k]).is_failed_attempt()
}

/// What is recorded once `wave` has come in after `before`: the wave, and
/// with it the skips of every later rule where the batch does not
/// continue on failure and the wave holds a failed attempt.
pub open spec fn recorded_after(
    config: RuleEngineConfig,
    rules: Seq<RuleView>,
    before: Seq<ResultView>,
    wave: Seq<ResultView>,
) -> Seq<ResultView> {
    if !config.continue_on_failure && holds_failure(wave) {
        before + wave + skips_from(rules, (before.len() + wave.len()) as int)
    } else {
        before + wave
    }
}

/// Once a batch that does not continue on failure holds a failed attempt
/// at the end of a wave, the skips of all later rules complete it.
pub proof fn lemma_skips_complete_batch(
    entries: Seq<RegistrationView>,
    config: RuleEngineConfig,
    rules: Seq<RuleView>,
    context: Seq<char>,
    before: Seq<ResultView>,
    waves: int,
)
    requires
        !config.continue_on_failure,
        waves >= 0,
        before.len() <= rules.len(),
        before.len() < rules.len() ==> before.len() == waves * config.wave_width(),
        exists|j: int| 0 <= j < before.len() && (#[trigger] before[j]).is_failed_attempt(),
        forall|i: int|
            0 <= i < before.len() ==> #[trigger] entry_admitted(
                entries,
                config,
                rules,
                context,
                before,
                i,
            ),
    ensures
        forall|i: int|
            0 <= i < rules.len() ==> #[trigger] entry_admitted(
                entries,
                config,
                rules,
                context,
                before + skips_from(rules, before.len() as int),
                i,
            ),
{
    let width = config.wave_width();
    let start = before.len() as int;
    let after = before + skips_from(rules, start);
    let failed = choose|j: int| 0 <= j < before.len() && (#[trigger] before[j]).is_failed_attempt();
    assert(after[failed] == before[failed]);
    assert forall|i: int| 0 <= i < rules.len() implies #[trigger] entry_admitted(
        entries,
        config,
        rules,
        context,
        after,
        i,
    ) by {
        if i < start {
            lemma_wave_start(i, width, 0);
            assert(after[i] == before[i]);
            assert(entry_admitted(entries, config, rules, context, before, i));
            if halted_before(config, before, i) {
                let j = choose|j: int|
                    0 <= j < wave_start(i, width) && j < before.len() && (
                    #[trigger] before[j]).is_failed_attempt();
                assert(after[j] == before[j]);
                assert(halted_before(config, after, i));
            }
            if halted_before(config, after, i) {
                let j = choose|j: int|
                    0 <= j < wave_start(i, width) && j < after.len() && (
                    #[trigger] after[j]).is_failed_attempt();
                assert(after[j] == before[j]);
                assert(halted_before(config, before, i));
            }
        } else {
            lemma_wave_start(i, width, waves);
            assert(after[i] == skip_record(rules[i]));
            assert(halted_before(config, after, i));
        }
    }
}

/// Decides whether some result of `wave` is a failed attempt.
fn has_failed_attempt(wave: &Vec<RuleEvaluationResult>) -> (failed: bool)
    ensures
        failed == holds_failure(result_views(wave@)),
{
    let mut i: usize = 0;
    while i < wave.len()
        invariant
            i <= wave@.len(),
            forall|k: int| 0 <= k < i ==> !(#[trigger] result_views(wave@)[k]).is_failed_attempt(),
        decreases wave@.len() - i,
    {
        if wave[i].is_failed_attempt() {
            assert(result_views(wave@)[i as int].is_failed_attempt());
            return true;
        }
        i += 1;
    }
    false
}

/// A batch under way: the results recorded so far, in collection order.
pub struct BatchRun {
    config: RuleEngineConfig,
    total: usize,
    results: Vec<RuleEvaluationResult>,
    waves: Ghost<int>,
}

impl BatchRun {
    /// The configuration that the batch began under.
    pub closed spec fn config(&self) -> RuleEngineConfig {
        self.config
    }

    /// Number of rules in the batch.
    pub closed spec fn total(&self) -> nat {
        self.total as nat
    }

    /// The results recorded so far.
    pub closed spec fn recorded(&self) -> Seq<ResultView> {
        result_views(self.results@)
    }

    /// Validity of a batch under way: it holds no more results than there
    /// are rules, it stands at the beginning of a wave unless it is
    /// complete, and the flag of every result agrees with its outcome.
    pub closed spec fn wf(&self) -> bool {
        &&& self.results@.len() <= self.total
        &&& self.waves@ >= 0
        &&& self.results@.len() < self.total ==> self.results@.len() == self.waves@
            * self.config.wave_width()
        &&& forall|i: int| 0 <= i < self.results@.len() ==> (#[trigger] self.results@[i]).wf()
    }

    /// What is recorded is what a batch over `rules` owes to the rules up
    /// to this point, and the batch has not met a failure at which it
    /// would have to halt.
    pub open spec fn on_course(
        &self,
        entries: Seq<RegistrationView>,
        rules: Seq<RuleView>,
        context: Seq<char>,
    ) -> bool {
        &&& self.total() == rules.len()
        &&& self.recorded().len() <= rules.len()
        &&& forall|i: int|
            0 <= i < self.recorded().len() ==> #[trigger] entry_admitted(
                entries,
                self.config(),
                rules,
                context,
                self.recorded(),
                i,
            )
        &&& (self.recorded().len() < rules.len() && !self.config().continue_on_failure)
            ==> forall|j: int|
            0 <= j < self.recorded().len() ==> !(#[trigger] self.recorded()[j]).is_failed_attempt()
    }

    /// Begins a batch of `total` rules under `config`.
    pub fn begin(config: RuleEngineConfig, total: usize) -> (run: BatchRun)
        ensures
            run.wf(),
            run.config() == config,
            run.total() == total,
            run.recorded() == Seq::<ResultView>::empty(),
    {
        let run = BatchRun { config, total, results: Vec::new(), waves: Ghost(0) };
        assert(run.recorded() =~= Seq::<ResultView>::empty());
        run
    }

    /// The positions `start..end` of the rules to attempt next, or nothing
    /// where the batch is complete.
    pub fn next_wave(&self) -> (wave: Option<(usize, usize)>)
        requires
            self.wf(),
        ensures
            match wave {
                Some((start, end)) => {
                    &&& start == self.recorded().len()
                    &&& start < self.total()
                    &&& end == wave_end(
                        start as int,
                        self.total() as int,
                        self.config().wave_width(),
                    )
                },
                None => self.recorded().len() == self.total(),
            },
    {
        let start = self.results.len();
        if start >= self.total {
            return None;
        }
        let width: usize = if self.config.max_parallel_evaluations <= 1 {
            1
        } else {
            self.config.max_parallel_evaluations
        };
        let end = if self.total - start <= width {
            self.total
        } else {
            start + width
        };
        Some((start, end))
    }

    /// Records the results of the wave that `next_wave` asked for. Where
    /// the batch does not continue on failure and the wave holds a failed
    /// attempt, every later rule of `rules` is recorded as skipped, and
    /// the batch is complete.
    pub fn record(&mut self, rules: &Vec<&Rule>, wave: Vec<RuleEvaluationResult>)
        requires
            old(self).wf(),
            rules@.len() == old(self).total(),
            old(self).recorded().len() < old(self).total(),
            wave@.len() == wave_end(
                old(self).recorded().len() as int,
                old(self).total() as int,
                old(self).config().wave_width(),
            ) - old(self).recorded().len(),
            forall|k: int| 0 <= k < wave@.len() ==> (#[trigger] wave@[k]).wf(),
        ensures
            final(self).wf(),
            final(self).config() == old(self).config(),
            final(self).total() == old(self).total(),
            final(self).recorded() == recorded_after(
                old(self).config(),
                rule_views(rules@),
                old(self).recorded(),
                result_views(wave@),
            ),
            forall|entries: Seq<RegistrationView>, context: Seq<char>|
                #![trigger final(self).on_course(entries, rule_views(rules@), context)]
                old(self).on_course(entries, rule_views(rules@), context) && (forall|k: int|
                    0 <= k < wave@.len() ==> attempt_of(
                        entries,
                        old(self).config(),
                        rules@[old(self).recorded().len() + k]@,
                        context,
                        #[trigger] wave@[k]@,
                    )) ==> final(self).on_course(entries, rule_views(rules@), context),
    {
        let ghost before = self.recorded();
        let ghost added = result_views(wave@);
        let ghost all_rules = rule_views(rules@);
        let ghost width = self.config.wave_width();
        let ghost waves_before = self.waves@;
        let halts = !self.config.continue_on_failure && has_failed_attempt(&wave);
        let mut wave = wave;
        self.results.append(&mut wave);
        proof {
            assert(self.recorded() =~= before + added);
            assert(waves_before * width + width == (waves_before + 1) * width)
                by (nonlinear_arith);
        }
        self.waves = Ghost(waves_before + 1);
        let ghost attempted = self.recorded();
        proof {
            assert forall|entries: Seq<RegistrationView>, context: Seq<char>|
                old(self).on_course(entries, all_rules, context) && (forall|k: int|
                    0 <= k < added.len() ==> attempt_of(
                        entries,
                        self.config,
                        all_rules[before.len() + k],
                        context,
                        #[trigger] added[k],
                    )) implies forall|i: int|
                0 <= i < attempted.len() ==> #[trigger] entry_admitted(
                    entries,
                    self.config,
                    all_rules,
                    context,
                    attempted,
                    i,
                ) by {
                lemma_wave_extends_batch(
                    entries,
                    self.config,
                    all_rules,
                    context,
                    before,
                    added,
                    waves_before,
                );
            }
        }
        if halts {
            let mut i: usize = self.results.len();
            while i < self.total
                invariant
                    i == self.results@.len(),
                    attempted.len() <= i <= self.total,
                    self.total == rules@.len(),
                    all_rules == rule_views(rules@),
                    self.recorded() =~= attempted + skips_from(
                        all_rules,
                        attempted.len() as int,
                    ).take(i - attempted.len()),
                    forall|k: int| 0 <= k < i ==> (#[trigger] self.results@[k]).wf(),
                    self.config == old(self).config,
                    self.waves@ == waves_before + 1,
                decreases self.total - i,
            {
                let ghost recorded = self.recorded();
                self.results.push(RuleEvaluationResult::skipped(rules[i]));
                proof {
                    let skips = skips_from(all_rules, attempted.len() as int);
                    assert(all_rules[i as int] == rules@[i as int]@);
                    assert(skips[i - attempted.len()] == skip_record(all_rules[i as int]));
                    assert(self.recorded() =~= recorded.push(skip_record(all_rules[i as int])));
                    assert(skips.take(i + 1 - attempted.len()) =~= skips.take(
                        i - attempted.len(),
                    ).push(skips[i - attempted.len()]));
                }
                i += 1;
            }
            proof {
                let skips = skips_from(all_rules, attempted.len() as int);
                assert(skips.take(i - attempted.len()) =~= skips);
                assert(self.recorded() == attempted + skips);
                assert(before + added + skips_from(all_rules, (before.len() + added.len()) as int)
                    == attempted + skips);
                let k = choose|k: int|
                    0 <= k < added.len() && (#[trigger] added[k]).is_failed_attempt();
                assert(attempted[before.len() + k] == added[k]);
                assert forall|entries: Seq<RegistrationView>, context: Seq<char>|
                    old(self).on_course(entries, all_rules, context) && (forall|k: int|
                        0 <= k < added.len() ==> attempt_of(
                            entries,
                            self.config,
                            all_rules[before.len() + k],
                            context,
                            #[trigger] added[k],
                        )) implies #[trigger] self.on_course(entries, all_rules, context) by {
                    lemma_skips_complete_batch(
                        entries,
                        self.config,
                        all_rules,
                        context,
                        attempted,
                        waves_before + 1,
                    );
                }
            }
        } else {
            proof {
                assert forall|entries: Seq<RegistrationView>, context: Seq<char>|
                    old(self).on_course(entries, all_rules, context) && (forall|k: int|
                        0 <= k < added.len() ==> attempt_of(
                            entries,
                            self.config,
                            all_rules[before.len() + k],
                            context,
                            #[trigger] added[k],
                        )) implies #[trigger] self.on_course(entries, all_rules, context) by {
                    if attempted.len() < all_rules.len() && !self.config.continue_on_failure {
                        assert forall|j: int| 0 <= j < attempted.len() implies !(
                        #[trigger] attempted[j]).is_failed_attempt() by {
                            if j < before.len() {
                                assert(attempted[j] == before[j]);
                            } else {
                                assert(attempted[j] == added[j - before.len()]);
                            }
                        }
                    }
                }
            }
        }
    }

    /// The results of a complete batch, in collection order.
    pub fn finish(self) -> (results: Vec<RuleEvaluationResult>)
        requires
            self.wf(),
            self.recorded().len() == self.total(),
        ensures
            result_views(results@) == self.recorded(),
            forall|i: int| 0 <= i < results@.len() ==> (#[trigger] results@[i]).wf(),
    {
        self.results
    }
}

} // verus!
