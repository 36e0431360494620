use std::sync::mpsc;
use std::sync::Arc;
use std::time::{Duration, Instant};

use sage_x::batch_run::BatchRun;
use sage_x::clock::cap_micros;
use sage_x::config::RuleEngineConfig;
use sage_x::error::{EvaluationError, SageXError};
use sage_x::evaluators::RuleEvaluator;
use sage_x::rule_engine::RuleEngine;
use sage_x::rule_types::{EvaluationOutcome, Rule, RuleEvaluationResult, RuleSet, RuleType};

struct Sleeper;

impl RuleEvaluator for Sleeper {
    fn evaluate(&self, rule: &Rule, _context: &str) -> Result<String, EvaluationError> {
        if rule.content == "slow" {
            let started = Instant::now();
            while started.elapsed() < Duration::from_millis(3_000) {
                std::hint::spin_loop();
            }
        }
        Ok(format!("done {}", rule.content))
    }

    fn rule_type(&self) -> RuleType {
        RuleType::Workflow
    }
}

fn attempt(engine: &Arc<RuleEngine>, rule: &Rule, allowed: Duration) -> RuleEvaluationResult {
    let (outbox, inbox) = mpsc::channel();
    let started = Instant::now();
    let (worker, owned) = (Arc::clone(engine), rule.clone());
    rayon::spawn(move || {
        let _ = outbox.send(worker.evaluate_rule_with_metrics(&owned, ""));
    });
    match inbox.recv_timeout(allowed) {
        Ok(result) => result,
        Err(_) => engine.abandon(rule, cap_micros(started.elapsed().as_micros())).unwrap(),
    }
}

#[test]
fn batch_under_deadlines_abandons_the_slow_rule_and_halts() {
    let mut engine = RuleEngine::with_config(RuleEngineConfig {
        evaluation_timeout_ms: 300,
        max_parallel_evaluations: 1,
        continue_on_failure: false,
        ..RuleEngineConfig::default()
    });
    engine.register_evaluator_for(RuleType::TextPattern, Sleeper);
    let mut set = RuleSet::new("s");
    for (id, content) in [("a", "quick"), ("b", "slow"), ("c", "quick")] {
        set.add_rule(Rule::new(id, content)).unwrap();
    }
    engine.register_rule_set(set).unwrap();
    let engine = Arc::new(engine);

    let began = Instant::now();
    let rules = engine.collect_applicable_rules("");
    let mut run = BatchRun::begin(engine.config(), rules.len());
    while let Some((start, end)) = run.next_wave() {
        let wave: Vec<RuleEvaluationResult> = rules[start..end]
            .iter()
            .map(|rule| attempt(&engine, rule, Duration::from_millis(300)))
            .collect();
        run.record(&rules, wave);
    }
    let results = run.finish();
    assert!(began.elapsed() < Duration::from_millis(2_500));

    assert_eq!(results.len(), 3);
    assert_eq!(results[0].outcome, EvaluationOutcome::Success("done quick".to_string()));
    assert_eq!(results[1].outcome, EvaluationOutcome::Failure(SageXError::EvaluationTimeout));
    assert!(results[1].duration_us > 300_000);
    assert_eq!(results[2].outcome, EvaluationOutcome::Failure(SageXError::Skipped));
}
