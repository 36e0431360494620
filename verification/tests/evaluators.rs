use sage_x::evaluators::{RegexEvaluator, RuleEvaluator, TextPatternEvaluator};
use sage_x::metrics::summarize;
use sage_x::error::SageXError;
use sage_x::rule_types::{Rule, RuleEvaluationResult, RuleType};

fn text(pattern: &str, context: &str) -> String {
    TextPatternEvaluator.evaluate(&Rule::new("r", pattern), context).unwrap()
}

#[test]
fn text_pattern_reports_presence_and_absence() {
    assert_eq!(text("foo", "a foo b"), "Matched pattern 'foo' in context");
    assert_eq!(text("foo", "foo"), "Matched pattern 'foo' in context");
    assert_eq!(text("foo", "a fo o b"), "Pattern 'foo' not found in context");
    assert_eq!(text("foo", ""), "Pattern 'foo' not found in context");
    assert_eq!(text("foo", "fo"), "Pattern 'foo' not found in context");
    assert_eq!(text("foo", "FOO"), "Pattern 'foo' not found in context");
}

#[test]
fn empty_pattern_occurs_everywhere() {
    assert_eq!(text("", "anything"), "Matched pattern '' in context");
    assert_eq!(text("", ""), "Matched pattern '' in context");
}

#[test]
fn text_pattern_matches_whole_characters() {
    assert_eq!(text("é", "café"), "Matched pattern 'é' in context");
    assert_eq!(text("e", "café"), "Pattern 'e' not found in context");
    assert_eq!(text("日本", "こんにちは日本語"), "Matched pattern '日本' in context");
}

#[test]
fn regex_reports_match_and_mismatch() {
    let rule = Rule::new("r", "^a.*z$");
    assert_eq!(RegexEvaluator.evaluate(&rule, "abz").unwrap(), "Regex '^a.*z$' matched context");
    assert_eq!(
        RegexEvaluator.evaluate(&rule, "xyz").unwrap(),
        "Regex '^a.*z$' did not match context"
    );
    let anywhere = Rule::new("r", "b+");
    assert_eq!(RegexEvaluator.evaluate(&anywhere, "aabbcc").unwrap(), "Regex 'b+' matched context");
    assert_eq!(
        RegexEvaluator.evaluate(&anywhere, "aacc").unwrap(),
        "Regex 'b+' did not match context"
    );
}

#[test]
fn regex_that_does_not_compile_is_a_failure() {
    for pattern in ["foo(bar", "[a-", "*a", "a{2,1}"] {
        let outcome = RegexEvaluator.evaluate(&Rule::new("r", pattern), "foo(bar");
        assert!(outcome.is_err(), "{} compiled", pattern);
        assert!(!outcome.unwrap_err().detail.is_empty());
    }
}

#[test]
fn report_follows_the_compiled_expression() {
    let compiled = regex::Regex::new("^a.*z$");
    assert_eq!(
        RegexEvaluator::report(compiled, "abz").unwrap(),
        "Regex '^a.*z$' matched context"
    );
    let compiled = regex::Regex::new("^a.*z$");
    assert_eq!(
        RegexEvaluator::report(compiled, "abc").unwrap(),
        "Regex '^a.*z$' did not match context"
    );
}

#[test]
fn report_follows_the_options_of_the_expression() {
    let folding = regex::RegexBuilder::new("a").case_insensitive(true).build();
    assert_eq!(RegexEvaluator::report(folding, "A").unwrap(), "Regex 'a' matched context");
    let plain = regex::Regex::new("a");
    assert_eq!(RegexEvaluator::report(plain, "A").unwrap(), "Regex 'a' did not match context");
    let rule = Rule::new("r", "a");
    assert_eq!(RegexEvaluator.evaluate(&rule, "A").unwrap(), "Regex 'a' did not match context");
}

#[test]
fn report_carries_the_words_of_the_compiler() {
    let refused = regex::Regex::new("foo(bar");
    let words = refused.clone().unwrap_err().to_string();
    let failure = RegexEvaluator::report(refused, "foo(bar").unwrap_err();
    assert_eq!(failure.detail, words);
    assert!(words.contains("unclosed group"));
}

#[test]
fn oversized_expression_is_a_failure() {
    let small = RegexEvaluator.evaluate(&Rule::new("r", r"\w{3}"), "abc");
    assert_eq!(small.unwrap(), r"Regex '\w{3}' matched context");
    let huge = RegexEvaluator.evaluate(&Rule::new("r", r"\w{100000}"), "abc");
    assert!(huge.is_err());
}

#[test]
fn built_in_evaluators_name_their_types() {
    assert_eq!(TextPatternEvaluator.rule_type(), RuleType::TextPattern);
    assert_eq!(RegexEvaluator.rule_type(), RuleType::Regex);
}

#[test]
fn summary_counts_each_class_once() {
    let rule = Rule::new("r", "x");
    let results = vec![
        RuleEvaluationResult::success(&rule, "a".to_string(), 5),
        RuleEvaluationResult::failure(&rule, SageXError::EvaluationTimeout, 700),
        RuleEvaluationResult::failure(&rule, SageXError::EvaluationFailure("e".to_string()), 11),
        RuleEvaluationResult::failure(&rule, SageXError::UnsupportedRuleType("t".to_string()), 1),
        RuleEvaluationResult::skipped(&rule),
        RuleEvaluationResult::success(&rule, "b".to_string(), u64::MAX),
        RuleEvaluationResult::success(&rule, "c".to_string(), u64::MAX),
    ];
    let metrics = summarize(&results);
    assert_eq!(metrics.total, 7);
    assert_eq!(metrics.succeeded, 3);
    assert_eq!(metrics.timed_out, 1);
    assert_eq!(metrics.failed, 2);
    assert_eq!(metrics.skipped, 1);
    assert_eq!(metrics.total_duration_us, 717 + 2 * (u64::MAX as u128));
}

#[test]
fn summary_of_nothing_is_zero() {
    let metrics = summarize(&Vec::new());
    assert_eq!(metrics.total, 0);
    assert_eq!(metrics.succeeded, 0);
    assert_eq!(metrics.failed, 0);
    assert_eq!(metrics.timed_out, 0);
    assert_eq!(metrics.skipped, 0);
    assert_eq!(metrics.total_duration_us, 0);
}
