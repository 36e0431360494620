//! The rule engine: owns the configuration and the two registries,
//! evaluates single rules and whole batches.

use std::sync::Arc;
use rayon::iter::{IndexedParallelIterator, IntoParallelRefIterator, ParallelIterator};
use vstd::prelude::*;
use crate::batch::{attempt_of, batch_admits, result_views};
use crate::batch_run::BatchRun;
use crate::clock::micros_since;
use crate::config::{default_config, OperationMode, RuleEngineConfig};
use crate::dispatch::{abandoned_record, admits, resolved_type, settle, timed_admits};
use crate::error::{ErrorView, SageXError};
use crate::evaluators::{RegexEvaluator, RuleEvaluator, TextPatternEvaluator};
use crate::metrics::{class_of, classify, summarize, EvaluationMetrics, MetricsRecord};
use crate::registry::{
    applicable_rules, builtin_evaluators, custom_entry, evaluator_for, has_evaluator, has_set,
    lemma_evaluator_position_is_unique, lemma_position_is_unique, lemma_with_evaluator_is_valid,
    lemma_with_set_is_valid, lemma_without_set_is_valid, names_unique, total_rules, types_unique,
    with_evaluator, with_set, without_set, EvaluatorKind, RegistrationView,
};
use crate::rule_types::{
    outcome_of, rule_views, Rule, RuleEvaluationResult, RuleSet, RuleSetView, RuleType,
    RuleTypeView,
};

verus! {

/// The strategy behind one registered rule type. An evaluator that a
/// caller supplied is shared between an engine and its copies.
enum EvaluatorSlot {
    TextPattern(TextPatternEvaluator),
    Regex(RegexEvaluator),
    Custom(Arc<Box<dyn RuleEvaluator>>),
}

/// `Arc::clone` of the standard library: another handle on the same
/// evaluator. Nothing is claimed of it.
#[verifier::external_body]
fn share_evaluator(evaluator: &Arc<Box<dyn RuleEvaluator>>) -> (shared: Arc<
    Box<dyn RuleEvaluator>,
>) {
    Arc::clone(evaluator)
}

impl EvaluatorSlot {
    spec fn kind(&self) -> EvaluatorKind {
        match self {
            EvaluatorSlot::TextPattern(_) => EvaluatorKind::TextPattern,
            EvaluatorSlot::Regex(_) => EvaluatorKind::Regex,
            EvaluatorSlot::Custom(_) => EvaluatorKind::Custom,
        }
    }

    /// A slot that stands for the same strategy.
    fn share(&self) -> (shared: EvaluatorSlot)
        ensures
            shared.kind() == self.kind(),
    {
        match self {
            EvaluatorSlot::TextPattern(_) => EvaluatorSlot::TextPattern(TextPatternEvaluator),
            EvaluatorSlot::Regex(_) => EvaluatorSlot::Regex(RegexEvaluator),
            EvaluatorSlot::Custom(evaluator) => EvaluatorSlot::Custom(share_evaluator(evaluator)),
        }
    }
}

/// One entry of the evaluator registry.
struct Registration {
    rule_type: RuleType,
    slot: EvaluatorSlot,
}

impl View for Registration {
    type V = RegistrationView;

    closed spec fn view(&self) -> RegistrationView {
        RegistrationView { rule_type: self.rule_type@, kind: self.slot.kind() }
    }
}

impl Registration {
    /// Entry for an evaluator supplied by the caller.
    fn custom<E: RuleEvaluator + 'static>(rule_type: RuleType, evaluator: E) -> (registration:
        Registration)
        ensures
            registration@ == (RegistrationView {
                rule_type: rule_type@,
                kind: EvaluatorKind::Custom,
            }),
    {
        let boxed: Box<dyn RuleEvaluator> = Box::new(evaluator);
        Registration { rule_type, slot: EvaluatorSlot::Custom(Arc::new(boxed)) }
    }

    /// An entry for the same rule type and the same strategy.
    fn share(&self) -> (shared: Registration)
        ensures
            shared@ == self@,
    {
        Registration { rule_type: self.rule_type.clone(), slot: self.slot.share() }
    }
}

/// Point-in-time figures about an engine.
#[derive(Debug, Clone, Copy, PartialEq, Eq, Structural)]
pub struct RuleEngineStatistics {
    /// Number of registered rule sets.
    pub total_rule_sets: usize,
    /// Number of rules over all registered sets.
    pub total_rules: usize,
    /// Number of rule types that have an evaluator.
    pub registered_evaluators: usize,
    /// Operation mode in force.
    pub operation_mode: OperationMode,
}

/// The rule engine.
pub struct RuleEngine {
    config: RuleEngineConfig,
    rule_sets: Vec<RuleSet>,
    evaluators: Vec<Registration>,
    initialized: bool,
}

impl Clone for RuleEngine {
    /// A copy of the engine as it stands: the same configuration, copies
    /// of the rule sets, and the same evaluators, which the two engines
    /// share. What is registered with one of them afterwards does not
    /// reach the other.
    fn clone(&self) -> (copy: RuleEngine)
        ensures
            copy.current_config() == self.current_config(),
            copy.registered_sets() == self.registered_sets(),
            copy.registered_evaluators() == self.registered_evaluators(),
            copy.initialized() == self.initialized(),
    {
        let mut rule_sets: Vec<RuleSet> = Vec::new();
        let mut i: usize = 0;
        while i < self.rule_sets.len()
            invariant
                i <= self.rule_sets@.len(),
                rule_sets@.len() == i,
                forall|k: int| 0 <= k < i ==> (#[trigger] rule_sets@[k])@ == self.rule_sets@[k]@,
            decreases self.rule_sets@.len() - i,
        {
            rule_sets.push(self.rule_sets[i].clone());
            i += 1;
        }
        let mut evaluators: Vec<Registration> = Vec::new();
        let mut j: usize = 0;
        while j < self.evaluators.len()
            invariant
                j <= self.evaluators@.len(),
                evaluators@.len() == j,
                forall|k: int| 0 <= k < j ==> (#[trigger] evaluators@[k])@ == self.evaluators@[k]@,
            decreases self.evaluators@.len() - j,
        {
            evaluators.push(self.evaluators[j].share());
            j += 1;
        }
        let copy = RuleEngine {
            config: self.config,
            rule_sets,
            evaluators,
            initialized: self.initialized,
        };
        assert(copy.registered_sets() =~= self.registered_sets());
        assert(copy.registered_evaluators() =~= self.registered_evaluators());
        copy
    }
}

impl RuleEngine {
    /// The configuration in force.
    pub closed spec fn current_config(&self) -> RuleEngineConfig {
        self.config
    }

    /// The registered rule sets, in registration order.
    pub closed spec fn registered_sets(&self) -> Seq<RuleSetView> {
        Seq::new(self.rule_sets@.len(), |i: int| self.rule_sets@[i]@)
    }

    /// The registered evaluators.
    pub closed spec fn registered_evaluators(&self) -> Seq<RegistrationView> {
        Seq::new(self.evaluators@.len(), |i: int| self.evaluators@[i]@)
    }

    /// Whether the engine went through its construction.
    pub closed spec fn initialized(&self) -> bool {
        self.initialized
    }

    /// Validity of an engine: it was constructed, rule-set names and
    /// evaluator types are unique, and text patterns have an evaluator.
    pub open spec fn wf(&self) -> bool {
        &&& self.initialized()
        &&& names_unique(self.registered_sets())
        &&& types_unique(self.registered_evaluators())
        &&& has_evaluator(self.registered_evaluators(), RuleTypeView::TextPattern)
    }

    /// Creates an engine with the default configuration, no rule sets and
    /// the two built-in evaluators.
    pub fn new() -> (engine: RuleEngine)
        ensures
            engine.wf(),
            engine.current_config() == default_config(),
            engine.registered_sets() == Seq::<RuleSetView>::empty(),
            engine.registered_evaluators() == builtin_evaluators(),
    {
        RuleEngine::with_config(RuleEngineConfig::default())
    }

    /// Creates an engine with the configuration `config`, no rule sets and
    /// the two built-in evaluators.
    pub fn with_config(config: RuleEngineConfig) -> (engine: RuleEngine)
        ensures
            engine.wf(),
            engine.current_config() == config,
            engine.registered_sets() == Seq::<RuleSetView>::empty(),
            engine.registered_evaluators() == builtin_evaluators(),
    {
        let mut evaluators: Vec<Registration> = Vec::new();
        evaluators.push(
            Registration {
                rule_type: RuleType::TextPattern,
                slot: EvaluatorSlot::TextPattern(TextPatternEvaluator),
            },
        );
        evaluators.push(
            Registration { rule_type: RuleType::Regex, slot: EvaluatorSlot::Regex(RegexEvaluator) },
        );
        let engine = RuleEngine { config, rule_sets: Vec::new(), evaluators, initialized: true };
        assert(engine.registered_sets() =~= Seq::<RuleSetView>::empty());
        assert(engine.registered_evaluators() =~= builtin_evaluators());
        assert(builtin_evaluators()[0].rule_type == RuleTypeView::TextPattern);
        engine
    }

    /// Whether the engine went through its construction.
    pub fn is_initialized(&self) -> (initialized: bool)
        ensures
            initialized == self.initialized(),
    {
        self.initialized
    }

    /// The configuration in force.
    pub fn config(&self) -> (config: RuleEngineConfig)
        ensures
            config == self.current_config(),
    {
        self.config
    }

    /// Replaces the configuration; the registries stay as they are.
    pub fn update_config(&mut self, config: RuleEngineConfig)
        ensures
            final(self).wf() == old(self).wf(),
            final(self).current_config() == config,
            final(self).registered_sets() == old(self).registered_sets(),
            final(self).registered_evaluators() == old(self).registered_evaluators(),
            final(self).initialized() == old(self).initialized(),
    {
        self.config = config;
    }

    /// Position of the rule set named `name`.
    fn find_rule_set(&self, name: &String) -> (found: Option<usize>)
        ensures
            match found {
                Some(i) => i < self.registered_sets().len() && self.registered_sets()[i as int].name
                    == name@,
                None => !has_set(self.registered_sets(), name@),
            },
    {
        let mut i: usize = 0;
        while i < self.rule_sets.len()
            invariant
                i <= self.rule_sets@.len(),
                forall|k: int| 0 <= k < i ==> (#[trigger] self.registered_sets()[k]).name != name@,
            decreases self.rule_sets@.len() - i,
        {
            if *self.rule_sets[i].name() == *name {
                return Some(i);
            }
            i += 1;
        }
        None
    }

    /// Decides whether a rule set named `name` is registered.
    pub fn contains_rule_set(&self, name: &str) -> (found: bool)
        ensures
            found == has_set(self.registered_sets(), name@),
    {
        let wanted = String::from_str(name);
        match self.find_rule_set(&wanted) {
            Some(_) => true,
            None => false,
        }
    }

    /// Registers `rule_set` under its name. A set already registered
    /// under that name is replaced where it stands; a new name goes to the
    /// end of the registration order. Registration always succeeds.
    pub fn register_rule_set(&mut self, rule_set: RuleSet) -> (outcome: Result<(), SageXError>)
        requires
            old(self).wf(),
        ensures
            final(self).wf(),
            outcome is Ok,
            final(self).registered_sets() == with_set(old(self).registered_sets(), rule_set@),
            final(self).registered_evaluators() == old(self).registered_evaluators(),
            final(self).current_config() == old(self).current_config(),
    {
        proof {
            lemma_with_set_is_valid(self.registered_sets(), rule_set@);
        }
        match self.find_rule_set(rule_set.name()) {
            Some(i) => {
                proof {
                    lemma_position_is_unique(self.registered_sets(), rule_set@.name, i as int);
                }
                self.rule_sets.set(i, rule_set);
            },
            None => {
                self.rule_sets.push(rule_set);
            },
        }
        assert(self.registered_sets() =~= with_set(old(self).registered_sets(), rule_set@));
        Ok(())
    }

    /// Removes the rule set named `name`. Where no such set is registered
    /// the engine is left as it was and the name is reported.
    pub fn unregister_rule_set(&mut self, name: &str) -> (outcome: Result<(), SageXError>)
        requires
            old(self).wf(),
        ensures
            final(self).wf(),
            match outcome {
                Ok(()) => has_set(old(self).registered_sets(), name@),
                Err(e) => !has_set(old(self).registered_sets(), name@) && e@
                    == ErrorView::RuleSetNotFound(name@),
            },
            final(self).registered_sets() == without_set(old(self).registered_sets(), name@),
            !has_set(final(self).registered_sets(), name@),
            final(self).registered_evaluators() == old(self).registered_evaluators(),
            final(self).current_config() == old(self).current_config(),
    {
        proof {
            lemma_without_set_is_valid(self.registered_sets(), name@);
        }
        let wanted = String::from_str(name);
        match self.find_rule_set(&wanted) {
            Some(i) => {
                proof {
                    lemma_position_is_unique(self.registered_sets(), name@, i as int);
                }
                let _ = self.rule_sets.remove(i);
                assert(self.registered_sets() =~= without_set(old(self).registered_sets(), name@));
                Ok(())
            },
            None => Err(SageXError::RuleSetNotFound(wanted)),
        }
    }

    /// Position of the evaluator registered for `rule_type`.
    fn find_evaluator(&self, rule_type: &RuleType) -> (found: Option<usize>)
        ensures
            match found {
                Some(i) => i < self.registered_evaluators().len()
                    && self.registered_evaluators()[i as int].rule_type == rule_type@,
                None => !has_evaluator(self.registered_evaluators(), rule_type@),
            },
    {
        let mut i: usize = 0;
        while i < self.evaluators.len()
            invariant
                i <= self.evaluators@.len(),
                forall|k: int|
                    0 <= k < i ==> (#[trigger] self.registered_evaluators()[k]).rule_type
                        != rule_type@,
            decreases self.evaluators@.len() - i,
        {
            if self.evaluators[i].rule_type.same_as(rule_type) {
                return Some(i);
            }
            i += 1;
        }
        None
    }

    /// Registers `evaluator` for `rule_type`, in place of any evaluator
    /// registered for that type before.
    pub fn register_evaluator_for<E: RuleEvaluator + 'static>(
        &mut self,
        rule_type: RuleType,
        evaluator: E,
    )
        requires
            old(self).wf(),
        ensures
            final(self).wf(),
            final(self).registered_evaluators() == with_evaluator(
                old(self).registered_evaluators(),
                custom_entry(rule_type@),
            ),
            final(self).registered_sets() == old(self).registered_sets(),
            final(self).current_config() == old(self).current_config(),
    {
        let ghost entry = custom_entry(rule_type@);
        proof {
            lemma_with_evaluator_is_valid(self.registered_evaluators(), entry);
        }
        let found = self.find_evaluator(&rule_type);
        let registration = Registration::custom(rule_type, evaluator);
        match found {
            Some(i) => {
                proof {
                    lemma_evaluator_position_is_unique(
                        self.registered_evaluators(),
                        entry.rule_type,
                        i as int,
                    );
                }
                self.evaluators.set(i, registration);
            },
            None => {
                self.evaluators.push(registration);
            },
        }
        assert(self.registered_evaluators() =~= with_evaluator(
            old(self).registered_evaluators(),
            entry,
        ));
        assert(evaluator_for(self.registered_evaluators(), RuleTypeView::TextPattern) is Some);
    }

    /// Registers `evaluator` for the rule type that it names itself, in
    /// place of any evaluator registered for that type before. The type
    /// is one that the evaluator's own `rule_type` reports.
    pub fn register_evaluator<E: RuleEvaluator + 'static>(&mut self, evaluator: E)
        requires
            old(self).wf(),
        ensures
            final(self).wf(),
            exists|reported: RuleType|
                call_ensures(E::rule_type, (&evaluator,), reported)
                    && final(self).registered_evaluators() == with_evaluator(
                    old(self).registered_evaluators(),
                    #[trigger] custom_entry(reported@),
                ),
            final(self).registered_sets() == old(self).registered_sets(),
            final(self).current_config() == old(self).current_config(),
    {
        let rule_type = evaluator.rule_type();
        let ghost reported = rule_type;
        self.register_evaluator_for(rule_type, evaluator);
        assert(call_ensures(E::rule_type, (&evaluator,), reported)
            && self.registered_evaluators() == with_evaluator(
            old(self).registered_evaluators(),
            custom_entry(reported@),
        ));
    }

    /// The rule type that `rule` is dispatched under.
    pub fn resolve_type(&self, rule: &Rule) -> (rule_type: RuleType)
        ensures
            rule_type@ == resolved_type(rule@, self.registered_evaluators()),
    {
        match rule.metadata_value("type") {
            None => RuleType::TextPattern,
            Some(tag) => {
                if *tag == String::from_str("regex") {
                    RuleType::Regex
                } else if *tag == String::from_str("javascript") {
                    RuleType::JavaScript
                } else if *tag == String::from_str("python") {
                    RuleType::Python
                } else if *tag == String::from_str("json") {
                    RuleType::JsonPath
                } else if *tag == String::from_str("conditional") {
                    RuleType::Conditional
                } else {
                    let custom = RuleType::Custom(tag.clone());
                    match self.find_evaluator(&custom) {
                        Some(_) => custom,
                        None => RuleType::TextPattern,
                    }
                }
            },
        }
    }

    /// Evaluates `rule` against `context` and reports the time it took.
    fn evaluate_timed(&self, rule: &Rule, context: &str) -> (timed: (
        Result<String, SageXError>,
        u64,
    ))
        requires
            self.wf(),
        ensures
            timed_admits(
                self.registered_evaluators(),
                self.current_config(),
                rule@,
                context@,
                outcome_of(timed.0),
                timed.1,
            ),
    {
        let started = std::time::Instant::now();
        let rule_type = self.resolve_type(rule);
        match self.find_evaluator(&rule_type) {
            None => {
                let error = SageXError::UnsupportedRuleType(rule_type.label());
                (Err(error), micros_since(&started))
            },
            Some(i) => {
                proof {
                    lemma_evaluator_position_is_unique(
                        self.registered_evaluators(),
                        rule_type@,
                        i as int,
                    );
                }
                let returned = match &self.evaluators[i].slot {
                    EvaluatorSlot::TextPattern(evaluator) => evaluator.evaluate(rule, context),
                    EvaluatorSlot::Regex(evaluator) => evaluator.evaluate(rule, context),
                    EvaluatorSlot::Custom(evaluator) => evaluator.evaluate(rule, context),
                };
                let elapsed_us = micros_since(&started);
                (settle(returned, elapsed_us, &self.config), elapsed_us)
            },
        }
    }

    /// Evaluates one rule against `context`: resolves the rule's type,
    /// looks up the evaluator registered for it, runs it and holds the
    /// answer against the configured timeout.
    pub fn evaluate(&self, rule: &Rule, context: &str) -> (result: Result<String, SageXError>)
        requires
            self.wf(),
        ensures
            admits(
                self.registered_evaluators(),
                self.current_config(),
                rule@,
                context@,
                outcome_of(result),
            ),
    {
        let timed = self.evaluate_timed(rule, context);
        timed.0
    }

    /// Evaluates one rule and records the outcome with the time taken.
    pub fn evaluate_rule_with_metrics(&self, rule: &Rule, context: &str) -> (result:
        RuleEvaluationResult)
        requires
            self.wf(),
        ensures
            result.wf(),
            attempt_of(
                self.registered_evaluators(),
                self.current_config(),
                rule@,
                context@,
                result@,
            ),
    {
        let timed = self.evaluate_timed(rule, context);
        match timed.0 {
            Ok(output) => RuleEvaluationResult::success(rule, output, timed.1),
            Err(error) => RuleEvaluationResult::failure(rule, error, timed.1),
        }
    }

    /// What is recorded of `rule` when its evaluator was abandoned after
    /// `waited_us` microseconds without an answer: a timeout, under a
    /// duration that exceeds the configured bound. A rule for whose type
    /// no evaluator is registered is recorded as unsupported, as it
    /// would be had it been evaluated. Nothing is recorded where no
    /// duration can exceed the bound: such an evaluation cannot time out.
    pub fn abandon(&self, rule: &Rule, waited_us: u64) -> (result: Option<RuleEvaluationResult>)
        requires
            self.wf(),
        ensures
            match result {
                Some(record) => record.wf() && Some(record@) == abandoned_record(
                    self.registered_evaluators(),
                    self.current_config(),
                    rule@,
                    waited_us,
                ),
                None => abandoned_record(
                    self.registered_evaluators(),
                    self.current_config(),
                    rule@,
                    waited_us,
                ) is None,
            },
            result is Some ==> forall|context: Seq<char>| #[trigger]
                attempt_of(
                    self.registered_evaluators(),
                    self.current_config(),
                    rule@,
                    context,
                    result->Some_0@,
                ),
    {
        let rule_type = self.resolve_type(rule);
        match self.find_evaluator(&rule_type) {
            None => {
                let error = SageXError::UnsupportedRuleType(rule_type.label());
                Some(RuleEvaluationResult::failure(rule, error, waited_us))
            },
            Some(_) => {
                let bound: u128 = (self.config.evaluation_timeout_ms as u128) * 1000;
                let timeout = SageXError::EvaluationTimeout;
                if waited_us as u128 > bound {
                    Some(RuleEvaluationResult::failure(rule, timeout, waited_us))
                } else if bound < u64::MAX as u128 {
                    Some(RuleEvaluationResult::failure(rule, timeout, (bound + 1) as u64))
                } else {
                    None
                }
            },
        }
    }

    /// Collects the rules that apply to `context` from every registered
    /// set: sets in registration order, each set in its own order.
    pub fn collect_applicable_rules(&self, context: &str) -> (found: Vec<&Rule>)
        ensures
            rule_views(found@) == applicable_rules(self.registered_sets(), context@),
    {
        let mut found: Vec<&Rule> = Vec::new();
        let mut i: usize = 0;
        while i < self.rule_sets.len()
            invariant
                i <= self.rule_sets@.len(),
                rule_views(found@) == applicable_rules(
                    self.registered_sets().take(i as int),
                    context@,
                ),
            decreases self.rule_sets@.len() - i,
        {
            let mut part = self.rule_sets[i].find_applicable_rules(context);
            let ghost before = found@;
            let ghost added = part@;
            found.append(&mut part);
            proof {
                let sets = self.registered_sets();
                assert(sets.take(i + 1).drop_last() =~= sets.take(i as int));
                assert(sets.take(i + 1).last() == sets[i as int]);
                assert(rule_views(found@) =~= rule_views(before) + rule_views(added));
            }
            i += 1;
        }
        proof {
            assert(self.registered_sets().take(i as int) =~= self.registered_sets());
        }
        found
    }

    /// `rayon`'s `collect_into_vec` over a parallel `map` of a slice: the
    /// rules at positions `start..end` are evaluated on the worker pool,
    /// each by one call of `evaluate_rule_with_metrics`, and the results
    /// stand in the vector at the positions of their rules.
    #[verifier::external_body]
    fn attempt_in_parallel(
        &self,
        rules: &Vec<&Rule>,
        start: usize,
        end: usize,
        context: &str,
    ) -> (wave: Vec<RuleEvaluationResult>)
        requires
            self.wf(),
            start <= end <= rules@.len(),
        ensures
            wave@.len() == end - start,
            forall|k: int|
                0 <= k < end - start ==> (#[trigger] wave@[k]).wf() && attempt_of(
                    self.registered_evaluators(),
                    self.current_config(),
                    rules@[start + k]@,
                    context@,
                    wave@[k]@,
                ),
    {
        let mut wave = Vec::new();
        rules[start..end].par_iter().map(
            |rule| self.evaluate_rule_with_metrics(rule, context),
        ).collect_into_vec(&mut wave);
        wave
    }

    /// Attempts the rules at positions `start..end`: a single rule on the
    /// calling thread, several on the worker pool.
    fn attempt_wave(
        &self,
        rules: &Vec<&Rule>,
        start: usize,
        end: usize,
        context: &str,
    ) -> (wave: Vec<RuleEvaluationResult>)
        requires
            self.wf(),
            start <= end <= rules@.len(),
        ensures
            wave@.len() == end - start,
            forall|k: int|
                0 <= k < end - start ==> (#[trigger] wave@[k]).wf() && attempt_of(
                    self.registered_evaluators(),
                    self.current_config(),
                    rules@[start + k]@,
                    context@,
                    wave@[k]@,
                ),
    {
        if end - start == 1 {
            let mut wave: Vec<RuleEvaluationResult> = Vec::new();
            wave.push(self.evaluate_rule_with_metrics(rules[start], context));
            wave
        } else {
            self.attempt_in_parallel(rules, start, end, context)
        }
    }

    /// Evaluates every applicable rule of every registered set against
    /// `context` and returns one result per rule, in collection order.
    /// Rules are attempted in waves of as many rules as may be in flight
    /// at once. Where the batch does not continue on failure, the waves
    /// after the first one that holds a failed attempt are skipped.
    pub fn evaluate_all(&self, context: &str) -> (results: Vec<RuleEvaluationResult>)
        requires
            self.wf(),
        ensures
            batch_admits(
                self.registered_evaluators(),
                self.current_config(),
                applicable_rules(self.registered_sets(), context@),
                context@,
                result_views(results@),
            ),
            forall|i: int| 0 <= i < results@.len() ==> (#[trigger] results@[i]).wf(),
    {
        let rules = self.collect_applicable_rules(context);
        let mut run = BatchRun::begin(self.config, rules.len());
        loop
            invariant
                self.wf(),
                run.wf(),
                run.config() == self.current_config(),
                run.total() == rules@.len(),
                run.on_course(self.registered_evaluators(), rule_views(rules@), context@),
            ensures
                run.wf(),
                run.recorded().len() == run.total(),
                run.config() == self.current_config(),
                run.on_course(self.registered_evaluators(), rule_views(rules@), context@),
            decreases run.total() - run.recorded().len(),
        {
            match run.next_wave() {
                None => {
                    break;
                },
                Some((start, end)) => {
                    let wave = self.attempt_wave(&rules, start, end, context);
                    run.record(&rules, wave);
                },
            }
        }
        run.finish()
    }

    /// Point-in-time figures about the engine. The number of rules is
    /// capped at `usize::MAX`.
    pub fn get_statistics(&self) -> (statistics: RuleEngineStatistics)
        ensures
            statistics.total_rule_sets == self.registered_sets().len(),
            statistics.total_rules == if total_rules(self.registered_sets()) <= usize::MAX {
                total_rules(self.registered_sets())
            } else {
                usize::MAX as nat
            },
            statistics.registered_evaluators == self.registered_evaluators().len(),
            statistics.operation_mode == self.current_config().operation_mode,
    {
        let mut total: usize = 0;
        let mut i: usize = 0;
        while i < self.rule_sets.len()
            invariant
                i <= self.rule_sets@.len(),
                total == if total_rules(self.registered_sets().take(i as int)) <= usize::MAX {
                    total_rules(self.registered_sets().take(i as int))
                } else {
                    usize::MAX as nat
                },
            decreases self.rule_sets@.len() - i,
        {
            let size = self.rule_sets[i].len();
            proof {
                let sets = self.registered_sets();
                assert(sets.take(i + 1).drop_last() =~= sets.take(i as int));
                assert(sets.take(i + 1).last() == sets[i as int]);
            }
            if size > usize::MAX - total {
                total = usize::MAX;
            } else {
                total = total + size;
            }
            i += 1;
        }
        proof {
            assert(self.registered_sets().take(i as int) =~= self.registered_sets());
        }
        RuleEngineStatistics {
            total_rule_sets: self.rule_sets.len(),
            total_rules: total,
            registered_evaluators: self.evaluators.len(),
            operation_mode: self.config.operation_mode,
        }
    }

    /// The aggregate figures of the results of a batch, where the
    /// configuration asks for metrics, and nothing where it does not.
    pub fn batch_metrics(&self, results: &Vec<RuleEvaluationResult>) -> (metrics: Option<
        EvaluationMetrics,
    >)
        ensures
            match metrics {
                Some(figures) => self.current_config().collect_metrics && figures.describes(
                    result_views(results@),
                ),
                None => !self.current_config().collect_metrics,
            },
    {
        if self.config.collect_metrics {
            Some(summarize(results))
        } else {
            None
        }
    }

    /// What a metrics sink is told about the evaluation of `rule` that
    /// `result` records, where the configuration asks for metrics, and
    /// nothing where it does not.
    pub fn metrics_record(&self, rule: &Rule, result: &RuleEvaluationResult) -> (record: Option<
        MetricsRecord,
    >)
        ensures
            match record {
                Some(told) => {
                    &&& self.current_config().collect_metrics
                    &&& told.rule_type@ == resolved_type(rule@, self.registered_evaluators())
                    &&& told.class == class_of(result@)
                    &&& told.duration_us == result.duration_us
                },
                None => !self.current_config().collect_metrics,
            },
    {
        if self.config.collect_metrics {
            Some(
                MetricsRecord {
                    rule_type: self.resolve_type(rule),
                    class: classify(result),
                    duration_us: result.duration_us,
                },
            )
        } else {
            None
        }
    }
}

} // verus!
