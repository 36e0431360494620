use sage_x::batch_run::BatchRun;
use sage_x::config::{CacheStrategy, OperationMode, RuleEngineConfig};
use sage_x::dispatch::{settle, settle_deadline};
use sage_x::error::{EvaluationError, SageXError};
use sage_x::evaluators::RuleEvaluator;
use sage_x::metrics::OutcomeClass;
use sage_x::rule_engine::RuleEngine;
use sage_x::rule_types::{EvaluationOutcome, Rule, RuleEvaluationResult, RuleSet, RuleType};

#[test]
fn test_engine_initialization() {
    let engine = RuleEngine::new();
    assert!(engine.is_initialized());
}

#[test]
fn test_engine_custom_config() {
    let config = RuleEngineConfig {
        max_parallel_evaluations: 8,
        evaluation_timeout_ms: 1000,
        continue_on_failure: false,
        ..RuleEngineConfig::default()
    };

    let engine = RuleEngine::with_config(config.clone());
    assert_eq!(engine.config().max_parallel_evaluations, 8);
    assert_eq!(engine.config().evaluation_timeout_ms, 1000);
    assert_eq!(engine.config().continue_on_failure, false);
}

#[test]
fn test_register_rule_set() {
    let mut engine = RuleEngine::new();
    let rule_set = RuleSet::new("test_set");

    assert!(engine.register_rule_set(rule_set).is_ok());
    assert!(engine.contains_rule_set("test_set"));
}

#[test]
fn test_unregister_rule_set() {
    let mut engine = RuleEngine::new();
    let rule_set = RuleSet::new("temp_set");

    engine.register_rule_set(rule_set).unwrap();
    assert!(engine.unregister_rule_set("temp_set").is_ok());
    assert!(!engine.contains_rule_set("temp_set"));

    assert!(engine.unregister_rule_set("nonexistent").is_err());
}

#[test]
fn test_evaluate_rule() {
    let engine = RuleEngine::new();
    let rule = Rule::new("test_rule", "test_content");

    let result = engine.evaluate(&rule, "This is a test_content example");
    assert!(result.is_ok());

    let result_str = result.unwrap();
    assert!(result_str.contains("Matched pattern"));
}

#[test]
fn test_evaluate_all_rules() {
    let mut engine = RuleEngine::new();
    let mut rule_set = RuleSet::new("test_eval_set");

    let rule1 = Rule::new("rule1", "content1");
    let rule2 = Rule::new("rule2", "content2");

    rule_set.add_rule(rule1).unwrap();
    rule_set.add_rule(rule2).unwrap();

    engine.register_rule_set(rule_set).unwrap();

    let results = engine.evaluate_all("This contains content1 and content2");
    assert_eq!(results.len(), 2);

    assert!(results.iter().all(|r| r.success));
}

struct Shouting;

impl RuleEvaluator for Shouting {
    fn evaluate(&self, rule: &Rule, _context: &str) -> Result<String, EvaluationError> {
        Ok(rule.content.to_uppercase())
    }

    fn rule_type(&self) -> RuleType {
        RuleType::Custom("custom".to_string())
    }
}

struct Refusing;

impl RuleEvaluator for Refusing {
    fn evaluate(&self, rule: &Rule, _context: &str) -> Result<String, EvaluationError> {
        if rule.content == "bad" {
            Err(EvaluationError::new("refused"))
        } else {
            Ok(format!("accepted {}", rule.content))
        }
    }

    fn rule_type(&self) -> RuleType {
        RuleType::Conditional
    }
}

struct Dawdling;

impl RuleEvaluator for Dawdling {
    fn evaluate(&self, _rule: &Rule, _context: &str) -> Result<String, EvaluationError> {
        let started = std::time::Instant::now();
        while started.elapsed().as_millis() < 30 {
            std::hint::spin_loop();
        }
        Ok("late".to_string())
    }

    fn rule_type(&self) -> RuleType {
        RuleType::Python
    }
}

struct Plain;

impl RuleEvaluator for Plain {
    fn evaluate(&self, _rule: &Rule, _context: &str) -> Result<String, EvaluationError> {
        Ok("plain".to_string())
    }

    fn rule_type(&self) -> RuleType {
        RuleType::TextPattern
    }
}

fn config(parallel: usize, continue_on_failure: bool) -> RuleEngineConfig {
    RuleEngineConfig {
        max_parallel_evaluations: parallel,
        evaluation_timeout_ms: 10_000,
        continue_on_failure,
        ..RuleEngineConfig::default()
    }
}

fn conditional(id: &str, content: &str) -> Rule {
    Rule::new(id, content).with_metadata("type", "conditional")
}

fn failure_of(outcome: &EvaluationOutcome) -> Option<&SageXError> {
    match outcome {
        EvaluationOutcome::Success(_) => None,
        EvaluationOutcome::Failure(error) => Some(error),
    }
}

#[test]
fn default_configuration() {
    let config = RuleEngineConfig::default();
    assert_eq!(config.max_parallel_evaluations, 4);
    assert_eq!(config.evaluation_timeout_ms, 500);
    assert!(config.continue_on_failure);
    assert!(config.collect_metrics);
    assert_eq!(config.operation_mode, OperationMode::Standard);
    assert_eq!(config.cache_strategy, CacheStrategy::Aggressive);
    assert_eq!(RuleEngine::new().config(), config);
}

#[test]
fn operation_mode_names() {
    assert_eq!(OperationMode::Standard.name(), "Standard");
    assert_eq!(OperationMode::HighPerformance.name(), "HighPerformance");
    assert_eq!(OperationMode::StrictValidation.name(), "StrictValidation");
}

#[test]
fn update_config_replaces_the_configuration() {
    let mut engine = RuleEngine::new();
    engine.register_rule_set(RuleSet::new("kept")).unwrap();
    let wanted = RuleEngineConfig {
        operation_mode: OperationMode::StrictValidation,
        cache_strategy: CacheStrategy::NoCache,
        collect_metrics: false,
        ..config(2, false)
    };
    engine.update_config(wanted);
    assert_eq!(engine.config(), wanted);
    assert!(engine.contains_rule_set("kept"));
    assert_eq!(engine.get_statistics().operation_mode, OperationMode::StrictValidation);
}

#[test]
fn register_then_unregister_round_trip() {
    let mut engine = RuleEngine::new();
    engine.register_rule_set(RuleSet::new("first")).unwrap();
    let before = engine.get_statistics();

    let mut set = RuleSet::new("s");
    set.add_rule(Rule::new("r1", "foo")).unwrap();
    assert_eq!(engine.register_rule_set(set), Ok(()));
    assert!(engine.contains_rule_set("s"));
    assert_eq!(engine.get_statistics().total_rule_sets, 2);
    assert_eq!(engine.get_statistics().total_rules, 1);

    assert_eq!(engine.unregister_rule_set("s"), Ok(()));
    assert!(!engine.contains_rule_set("s"));
    assert!(engine.contains_rule_set("first"));
    assert_eq!(engine.get_statistics(), before);
}

#[test]
fn unregistering_an_unknown_name_reports_the_name() {
    let mut engine = RuleEngine::new();
    engine.register_rule_set(RuleSet::new("known")).unwrap();
    assert_eq!(
        engine.unregister_rule_set("unknown"),
        Err(SageXError::RuleSetNotFound("unknown".to_string()))
    );
    assert!(engine.contains_rule_set("known"));
    assert_eq!(engine.get_statistics().total_rule_sets, 1);
}

#[test]
fn registering_an_existing_name_replaces_the_set_in_place() {
    let mut engine = RuleEngine::with_config(config(1, true));
    let mut first = RuleSet::new("a");
    first.add_rule(Rule::new("a1", "x")).unwrap();
    first.add_rule(Rule::new("a2", "y")).unwrap();
    let mut second = RuleSet::new("b");
    second.add_rule(Rule::new("b1", "z")).unwrap();
    engine.register_rule_set(first).unwrap();
    engine.register_rule_set(second).unwrap();

    let mut replacement = RuleSet::new("a");
    replacement.add_rule(Rule::new("a3", "w")).unwrap();
    engine.register_rule_set(replacement).unwrap();

    assert_eq!(engine.get_statistics().total_rule_sets, 2);
    assert_eq!(engine.get_statistics().total_rules, 2);
    let ids: Vec<String> = engine.evaluate_all("w").into_iter().map(|r| r.rule_id).collect();
    assert_eq!(ids, vec!["a3".to_string(), "b1".to_string()]);
}

#[test]
fn statistics_of_a_new_engine() {
    let statistics = RuleEngine::new().get_statistics();
    assert_eq!(statistics.total_rule_sets, 0);
    assert_eq!(statistics.total_rules, 0);
    assert_eq!(statistics.registered_evaluators, 2);
    assert_eq!(statistics.operation_mode, OperationMode::Standard);
}

#[test]
fn text_pattern_that_occurs_is_a_positive_report() {
    let mut engine = RuleEngine::new();
    let mut set = RuleSet::new("s1");
    set.add_rule(Rule::new("r1", "foo")).unwrap();
    engine.register_rule_set(set).unwrap();

    let results = engine.evaluate_all("a foo b");
    assert_eq!(results.len(), 1);
    assert_eq!(results[0].rule_id, "r1");
    assert!(results[0].success);
    assert_eq!(
        results[0].outcome,
        EvaluationOutcome::Success("Matched pattern 'foo' in context".to_string())
    );
}

#[test]
fn text_pattern_that_is_absent_is_a_negative_report() {
    let mut engine = RuleEngine::new();
    let mut set = RuleSet::new("s1");
    set.add_rule(Rule::new("r1", "foo")).unwrap();
    engine.register_rule_set(set).unwrap();

    let results = engine.evaluate_all("a bar b");
    assert_eq!(results.len(), 1);
    assert_eq!(results[0].rule_id, "r1");
    assert!(results[0].success);
    assert_eq!(
        results[0].outcome,
        EvaluationOutcome::Success("Pattern 'foo' not found in context".to_string())
    );
}

#[test]
fn regex_rules_match_or_not_and_bad_patterns_fail() {
    let engine = RuleEngine::new();
    let rule = Rule::new("re", "^a.*z$").with_metadata("type", "regex");
    assert_eq!(engine.evaluate(&rule, "abz"), Ok("Regex '^a.*z$' matched context".to_string()));
    assert_eq!(
        engine.evaluate(&rule, "xyz"),
        Ok("Regex '^a.*z$' did not match context".to_string())
    );

    let bad = Rule::new("bad", "foo(bar").with_metadata("type", "regex");
    match engine.evaluate(&bad, "foo(bar") {
        Err(SageXError::EvaluationFailure(detail)) => assert!(!detail.is_empty()),
        other => panic!("unexpected outcome {:?}", other),
    }
}

#[test]
fn custom_tag_dispatches_to_registered_evaluator() {
    let rule = Rule::new("r1", "foo").with_metadata("type", "custom");
    let mut engine = RuleEngine::new();
    assert_eq!(
        engine.evaluate(&rule, "a bar b"),
        Ok("Pattern 'foo' not found in context".to_string())
    );
    engine.register_evaluator(Shouting);
    assert_eq!(engine.evaluate(&rule, "a bar b"), Ok("FOO".to_string()));
    assert_eq!(engine.get_statistics().registered_evaluators, 3);
}

#[test]
fn registering_for_a_served_type_replaces_the_evaluator() {
    let mut engine = RuleEngine::new();
    let rule = Rule::new("r1", "foo");
    engine.register_evaluator(Plain);
    assert_eq!(engine.evaluate(&rule, "a foo b"), Ok("plain".to_string()));
    assert_eq!(engine.get_statistics().registered_evaluators, 2);

    engine.register_evaluator_for(RuleType::Regex, Shouting);
    let regex = Rule::new("r2", "a+").with_metadata("type", "regex");
    assert_eq!(engine.evaluate(&regex, "aaa"), Ok("A+".to_string()));
    assert_eq!(engine.get_statistics().registered_evaluators, 2);
}

#[test]
fn fixed_tag_without_evaluator_is_unsupported() {
    let engine = RuleEngine::new();
    let expected = [
        ("javascript", "JavaScript"),
        ("python", "Python"),
        ("json", "JsonPath"),
        ("conditional", "Conditional"),
    ];
    for (tag, label) in expected {
        let rule = Rule::new("r", "foo").with_metadata("type", tag);
        assert_eq!(
            engine.evaluate(&rule, "a foo b"),
            Err(SageXError::UnsupportedRuleType(label.to_string()))
        );
    }
}

#[test]
fn unclaimed_tag_falls_back_to_text_pattern() {
    let engine = RuleEngine::new();
    let rule = Rule::new("r", "foo").with_metadata("type", "yaml");
    assert_eq!(
        engine.evaluate(&rule, "a foo b"),
        Ok("Matched pattern 'foo' in context".to_string())
    );
}

#[test]
fn evaluator_failure_is_wrapped() {
    let mut engine = RuleEngine::new();
    engine.register_evaluator(Refusing);
    assert_eq!(
        engine.evaluate(&conditional("r", "bad"), ""),
        Err(SageXError::EvaluationFailure("refused".to_string()))
    );
    assert_eq!(engine.evaluate(&conditional("r", "good"), ""), Ok("accepted good".to_string()));
}

#[test]
fn slow_evaluator_times_out() {
    let mut engine = RuleEngine::with_config(RuleEngineConfig {
        evaluation_timeout_ms: 5,
        max_parallel_evaluations: 1,
        ..RuleEngineConfig::default()
    });
    engine.register_evaluator(Dawdling);
    let rule = Rule::new("slow", "x").with_metadata("type", "python");
    assert_eq!(engine.evaluate(&rule, "x"), Err(SageXError::EvaluationTimeout));

    let mut set = RuleSet::new("s");
    set.add_rule(rule).unwrap();
    engine.register_rule_set(set).unwrap();
    let results = engine.evaluate_all("x");
    assert_eq!(results.len(), 1);
    assert!(!results[0].success);
    assert_eq!(results[0].outcome, EvaluationOutcome::Failure(SageXError::EvaluationTimeout));
    assert!(results[0].duration_us > 5_000);
}

#[test]
fn settle_holds_the_answer_against_the_bound() {
    let config = RuleEngineConfig { evaluation_timeout_ms: 2, ..RuleEngineConfig::default() };
    assert_eq!(settle(Ok("out".to_string()), 2000, &config), Ok("out".to_string()));
    assert_eq!(settle(Ok("out".to_string()), 2001, &config), Err(SageXError::EvaluationTimeout));
    assert_eq!(
        settle(Err(EvaluationError::new("why")), 0, &config),
        Err(SageXError::EvaluationFailure("why".to_string()))
    );
    assert_eq!(
        settle(Err(EvaluationError::new("why")), u64::MAX, &config),
        Err(SageXError::EvaluationTimeout)
    );
    let longest = RuleEngineConfig { evaluation_timeout_ms: u64::MAX, ..config };
    assert_eq!(settle(Ok("out".to_string()), u64::MAX, &longest), Ok("out".to_string()));
    let none = RuleEngineConfig { evaluation_timeout_ms: 0, ..config };
    assert_eq!(settle(Ok("out".to_string()), 0, &none), Ok("out".to_string()));
    assert_eq!(settle(Ok("out".to_string()), 1, &none), Err(SageXError::EvaluationTimeout));
}

#[test]
fn abandoned_evaluation_is_a_timeout() {
    assert_eq!(settle_deadline(None), Err(SageXError::EvaluationTimeout));
    assert_eq!(settle_deadline(Some(Ok("out".to_string()))), Ok("out".to_string()));
    assert_eq!(
        settle_deadline(Some(Err(SageXError::EvaluationFailure("why".to_string())))),
        Err(SageXError::EvaluationFailure("why".to_string()))
    );
}

fn engine_with_rules(parallel: usize, continue_on_failure: bool, contents: &[&str]) -> RuleEngine {
    let mut engine = RuleEngine::with_config(config(parallel, continue_on_failure));
    engine.register_evaluator(Refusing);
    let mut set = RuleSet::new("batch");
    for (i, content) in contents.iter().enumerate() {
        set.add_rule(conditional(&format!("r{}", i), content)).unwrap();
    }
    engine.register_rule_set(set).unwrap();
    engine
}

fn kinds(engine: &RuleEngine) -> Vec<String> {
    engine
        .evaluate_all("")
        .iter()
        .map(|r| match &r.outcome {
            EvaluationOutcome::Success(_) => format!("{}:ok", r.rule_id),
            EvaluationOutcome::Failure(SageXError::Skipped) => format!("{}:skipped", r.rule_id),
            EvaluationOutcome::Failure(_) => format!("{}:failed", r.rule_id),
        })
        .collect()
}

#[test]
fn sequential_batch_skips_after_the_first_failure() {
    let engine = engine_with_rules(1, false, &["bad", "good", "good"]);
    let results = engine.evaluate_all("");
    assert_eq!(results.len(), 3);
    assert_eq!(
        failure_of(&results[0].outcome),
        Some(&SageXError::EvaluationFailure("refused".to_string()))
    );
    assert_eq!(failure_of(&results[1].outcome), Some(&SageXError::Skipped));
    assert_eq!(failure_of(&results[2].outcome), Some(&SageXError::Skipped));
    assert_eq!(results[1].duration_us, 0);
    assert_eq!(results[2].duration_us, 0);
    assert!(results.iter().all(|r| !r.success));
}

#[test]
fn sequential_batch_attempts_everything_up_to_the_failure() {
    let engine = engine_with_rules(0, false, &["good", "bad", "good", "bad"]);
    assert_eq!(kinds(&engine), vec!["r0:ok", "r1:failed", "r2:skipped", "r3:skipped"]);
}

#[test]
fn batch_that_continues_attempts_every_rule() {
    for parallel in [1, 2, 8] {
        let engine = engine_with_rules(parallel, true, &["bad", "good", "bad", "good", "good"]);
        assert_eq!(kinds(&engine), vec!["r0:failed", "r1:ok", "r2:failed", "r3:ok", "r4:ok"]);
    }
}

#[test]
fn parallel_batch_finishes_the_wave_of_the_failure() {
    let contents = ["good", "good", "good", "bad", "good", "good", "bad", "good"];
    let engine = engine_with_rules(3, false, &contents);
    assert_eq!(
        kinds(&engine),
        vec![
            "r0:ok", "r1:ok", "r2:ok", "r3:failed", "r4:ok", "r5:ok", "r6:skipped", "r7:skipped"
        ]
    );
    let engine = engine_with_rules(2, false, &contents);
    assert_eq!(
        kinds(&engine),
        vec![
            "r0:ok", "r1:ok", "r2:ok", "r3:failed", "r4:skipped", "r5:skipped", "r6:skipped",
            "r7:skipped"
        ]
    );
    let engine = engine_with_rules(8, false, &contents);
    assert_eq!(
        kinds(&engine),
        vec!["r0:ok", "r1:ok", "r2:ok", "r3:failed", "r4:ok", "r5:ok", "r6:failed", "r7:ok"]
    );
}

fn populated(parallel: usize) -> RuleEngine {
    let mut engine = RuleEngine::with_config(config(parallel, true));
    for set_index in 0..3 {
        let mut set = RuleSet::new(&format!("set{}", set_index));
        for rule_index in 0..7 {
            let id = format!("s{}r{}", set_index, rule_index);
            set.add_rule(Rule::new(&id, &format!("needle{}", rule_index))).unwrap();
        }
        engine.register_rule_set(set).unwrap();
    }
    engine
}

#[test]
fn batch_returns_one_result_per_rule() {
    for parallel in [1, 2, 8, 64] {
        let engine = populated(parallel);
        let results = engine.evaluate_all("needle3 and needle5");
        assert_eq!(results.len(), 21);
        assert_eq!(results.len(), engine.get_statistics().total_rules);
        for (position, result) in results.iter().enumerate() {
            assert_eq!(result.rule_id, format!("s{}r{}", position / 7, position % 7));
            let found = position % 7 == 3 || position % 7 == 5;
            let expected = if found {
                format!("Matched pattern 'needle{}' in context", position % 7)
            } else {
                format!("Pattern 'needle{}' not found in context", position % 7)
            };
            assert_eq!(result.outcome, EvaluationOutcome::Success(expected));
        }
    }
}

#[test]
fn result_order_does_not_depend_on_parallelism() {
    let sequential: Vec<String> =
        populated(1).evaluate_all("needle1").into_iter().map(|r| r.rule_id).collect();
    let parallel: Vec<String> =
        populated(8).evaluate_all("needle1").into_iter().map(|r| r.rule_id).collect();
    assert_eq!(sequential, parallel);
    assert_eq!(sequential.len(), 21);
    assert_eq!(sequential[0], "s0r0");
    assert_eq!(sequential[20], "s2r6");
}

#[test]
fn empty_engine_returns_no_results() {
    let engine = RuleEngine::new();
    assert!(engine.evaluate_all("anything").is_empty());
    assert!(engine.collect_applicable_rules("anything").is_empty());
}

#[test]
fn metrics_record_names_type_class_and_duration() {
    let engine = engine_with_rules(1, true, &["good", "bad"]);
    let results = engine.evaluate_all("");
    let good = conditional("r0", "good");
    let record = engine.metrics_record(&good, &results[0]).unwrap();
    assert_eq!(record.rule_type, RuleType::Conditional);
    assert_eq!(record.class, OutcomeClass::Succeeded);
    assert_eq!(record.duration_us, results[0].duration_us);
    let bad = conditional("r1", "bad");
    let record = engine.metrics_record(&bad, &results[1]).unwrap();
    assert_eq!(record.class, OutcomeClass::Failed);

    assert_eq!(engine.resolve_type(&Rule::new("r", "x")), RuleType::TextPattern);
    let tagged = Rule::new("r", "x").with_metadata("type", "json");
    assert_eq!(engine.resolve_type(&tagged), RuleType::JsonPath);
    let unclaimed = Rule::new("r", "x").with_metadata("type", "custom");
    assert_eq!(engine.resolve_type(&unclaimed), RuleType::TextPattern);

    let mut quiet = engine;
    quiet.update_config(RuleEngineConfig { collect_metrics: false, ..config(1, true) });
    assert_eq!(quiet.metrics_record(&good, &results[0]), None);
}

#[test]
fn batch_metrics_follow_the_configuration() {
    let engine = engine_with_rules(1, false, &["good", "bad", "good"]);
    let results = engine.evaluate_all("");
    let metrics = engine.batch_metrics(&results).unwrap();
    assert_eq!(metrics.total, 3);
    assert_eq!(metrics.succeeded, 1);
    assert_eq!(metrics.failed, 1);
    assert_eq!(metrics.skipped, 1);
    assert_eq!(metrics.timed_out, 0);
    let sum: u128 = results.iter().map(|r| r.duration_us as u128).sum();
    assert_eq!(metrics.total_duration_us, sum);

    let mut quiet = engine;
    quiet.update_config(RuleEngineConfig { collect_metrics: false, ..config(1, false) });
    assert_eq!(quiet.batch_metrics(&results), None);
}

fn kind_of(result: &RuleEvaluationResult) -> String {
    match &result.outcome {
        EvaluationOutcome::Success(_) => format!("{}:ok", result.rule_id),
        EvaluationOutcome::Failure(SageXError::Skipped) => format!("{}:skipped", result.rule_id),
        EvaluationOutcome::Failure(_) => format!("{}:failed", result.rule_id),
    }
}

fn drive(engine: &RuleEngine) -> (Vec<(usize, usize)>, Vec<String>) {
    let rules = engine.collect_applicable_rules("");
    let mut run = BatchRun::begin(engine.config(), rules.len());
    let mut waves = Vec::new();
    while let Some((start, end)) = run.next_wave() {
        waves.push((start, end));
        let wave: Vec<RuleEvaluationResult> = rules[start..end]
            .iter()
            .map(|rule| engine.evaluate_rule_with_metrics(rule, ""))
            .collect();
        run.record(&rules, wave);
    }
    (waves, run.finish().iter().map(kind_of).collect())
}

#[test]
fn batch_run_skips_the_rest_after_a_failed_wave() {
    let engine = engine_with_rules(2, false, &["good", "bad", "good", "good", "good"]);
    let (waves, kinds) = drive(&engine);
    assert_eq!(waves, vec![(0, 2)]);
    assert_eq!(kinds, vec!["r0:ok", "r1:failed", "r2:skipped", "r3:skipped", "r4:skipped"]);
    assert_eq!(kinds, self::kinds(&engine));
}

#[test]
fn batch_run_asks_for_every_wave_of_a_batch_that_continues() {
    let engine = engine_with_rules(2, true, &["good", "bad", "good", "good", "good"]);
    let (waves, kinds) = drive(&engine);
    assert_eq!(waves, vec![(0, 2), (2, 4), (4, 5)]);
    assert_eq!(kinds, vec!["r0:ok", "r1:failed", "r2:ok", "r3:ok", "r4:ok"]);
    assert_eq!(kinds, self::kinds(&engine));
}

#[test]
fn batch_run_takes_rules_one_by_one_without_parallelism() {
    let engine = engine_with_rules(0, false, &["good", "good", "bad", "good"]);
    let (waves, kinds) = drive(&engine);
    assert_eq!(waves, vec![(0, 1), (1, 2), (2, 3)]);
    assert_eq!(kinds, vec!["r0:ok", "r1:ok", "r2:failed", "r3:skipped"]);
}

#[test]
fn batch_run_of_nothing_is_complete_at_once() {
    let run = BatchRun::begin(RuleEngineConfig::default(), 0);
    assert_eq!(run.next_wave(), None);
    assert!(run.finish().is_empty());
}

#[test]
fn abandoned_evaluation_is_recorded_as_a_timeout_past_the_bound() {
    let mut engine = RuleEngine::with_config(RuleEngineConfig {
        evaluation_timeout_ms: 5,
        ..RuleEngineConfig::default()
    });
    let rule = Rule::new("r", "x");
    let late = engine.abandon(&rule, 7_000).unwrap();
    assert_eq!(late.rule_id, "r");
    assert!(!late.success);
    assert_eq!(late.outcome, EvaluationOutcome::Failure(SageXError::EvaluationTimeout));
    assert_eq!(late.duration_us, 7_000);

    let early = engine.abandon(&rule, 100).unwrap();
    assert_eq!(early.outcome, EvaluationOutcome::Failure(SageXError::EvaluationTimeout));
    assert_eq!(early.duration_us, 5_001);
    assert_eq!(engine.abandon(&rule, 5_000).unwrap().duration_us, 5_001);
    assert_eq!(engine.abandon(&rule, 5_001).unwrap().duration_us, 5_001);

    let unsupported = Rule::new("p", "x").with_metadata("type", "python");
    let record = engine.abandon(&unsupported, 42).unwrap();
    assert_eq!(
        record.outcome,
        EvaluationOutcome::Failure(SageXError::UnsupportedRuleType("Python".to_string()))
    );
    assert_eq!(record.duration_us, 42);

    engine.update_config(RuleEngineConfig {
        evaluation_timeout_ms: u64::MAX,
        ..RuleEngineConfig::default()
    });
    assert_eq!(engine.abandon(&rule, u64::MAX), None);
    assert!(engine.abandon(&unsupported, 42).is_some());
}

#[test]
fn copy_of_an_engine_goes_its_own_way() {
    let mut engine = RuleEngine::with_config(config(2, false));
    engine.register_evaluator(Shouting);
    let mut set = RuleSet::new("s");
    set.add_rule(Rule::new("r1", "foo").with_metadata("type", "custom")).unwrap();
    engine.register_rule_set(set).unwrap();

    let copy = engine.clone();
    assert_eq!(copy.config(), engine.config());
    assert_eq!(copy.get_statistics(), engine.get_statistics());
    assert!(copy.contains_rule_set("s"));

    engine.unregister_rule_set("s").unwrap();
    engine.register_evaluator(Refusing);
    engine.update_config(config(8, true));
    assert!(copy.contains_rule_set("s"));
    assert_eq!(copy.get_statistics().registered_evaluators, 3);
    assert_eq!(copy.config(), config(2, false));
    let results = copy.evaluate_all("");
    assert_eq!(results.len(), 1);
    assert_eq!(results[0].outcome, EvaluationOutcome::Success("FOO".to_string()));
    assert!(engine.evaluate_all("").is_empty());
}
