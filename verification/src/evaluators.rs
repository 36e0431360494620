//! The evaluator capability and the two evaluators that ship with the
//! engine: substring patterns and regular expressions.

use vstd::prelude::*;
use crate::error::EvaluationError;
use crate::rule_types::{Rule, RuleType, RuleTypeView};

verus! {

/// `needle` occurs in `haystack` as a contiguous run of characters.
pub open spec fn occurs_in(needle: Seq<char>, haystack: Seq<char>) -> bool {
    exists|start: int|
        0 <= start && start + needle.len() <= haystack.len() && #[trigger] haystack.subrange(
            start,
            start + needle.len(),
        ) == needle
}

/// Substring test of the standard library, `str::contains` with a string
/// pattern: true exactly when `needle` matches a sub-slice of `haystack`.
/// Both are valid UTF-8, so a match of bytes is a match of characters.
#[verifier::external_body]
fn text_contains(haystack: &str, needle: &str) -> (found: bool)
    ensures
        found == occurs_in(needle@, haystack@),
{
    haystack.contains(needle)
}

/// `regex::Regex`: a compiled regular expression. Opaque to the
/// verifier; it is only carried from compilation to matching.
#[verifier::external_type_specification]
#[verifier::external_body]
pub struct ExRegex(regex::Regex);

/// `regex::Error`: why a pattern did not compile. Opaque to the verifier.
#[verifier::external_type_specification]
#[verifier::external_body]
pub struct ExRegexError(regex::Error);

/// Whether the syntax of `pattern` is one that `regex::Regex::new`
/// accepts.
pub uninterp spec fn regex_valid(pattern: Seq<char>) -> bool;

/// The pattern that a compiled regular expression was built from, as
/// `regex::Regex::as_str` reports it.
pub uninterp spec fn regex_source(compiled: regex::Regex) -> Seq<char>;

/// Whether the compiled expression `compiled` has a match anywhere in
/// `haystack`, as `regex::Regex::is_match` decides it. Two expressions
/// of one pattern may differ here where they were built with different
/// options.
pub uninterp spec fn regex_accepts(compiled: regex::Regex, haystack: Seq<char>) -> bool;

/// Whether the expression that `regex::Regex::new` compiles from
/// `pattern`, with the options that `new` uses, has a match anywhere in
/// `haystack`.
pub uninterp spec fn regex_matches(pattern: Seq<char>, haystack: Seq<char>) -> bool;

/// The text that a `regex::Error` renders through `Display`.
pub uninterp spec fn regex_error_detail(error: regex::Error) -> Seq<char>;

/// `regex::Regex::new`: compiles `pattern`. A pattern of invalid syntax
/// is refused; a valid one may still be refused for the size of its
/// program, which is not claimed here. A compiled value remembers the
/// pattern it was built from, and what it matches is what the pattern
/// matches under the options of `new`.
#[verifier::external_body]
fn regex_compile(pattern: &str) -> (compiled: Result<regex::Regex, regex::Error>)
    ensures
        !regex_valid(pattern@) ==> compiled is Err,
        compiled matches Ok(re) ==> regex_source(re) == pattern@ && forall|haystack: Seq<char>|
            #[trigger] regex_accepts(re, haystack) == regex_matches(pattern@, haystack),
{
    regex::Regex::new(pattern)
}

/// `regex::Regex::as_str`: the pattern that the expression was built
/// from.
#[verifier::external_body]
fn regex_pattern(compiled: &regex::Regex) -> (pattern: &str)
    ensures
        pattern@ == regex_source(*compiled),
{
    compiled.as_str()
}

/// `regex::Regex::is_match`: whether the compiled expression matches
/// anywhere in `haystack`.
#[verifier::external_body]
fn regex_is_match(compiled: &regex::Regex, haystack: &str) -> (matched: bool)
    ensures
        matched == regex_accepts(*compiled, haystack@),
{
    compiled.is_match(haystack)
}

/// `ToString::to_string` of a `regex::Error`: its `Display` text.
#[verifier::external_body]
fn regex_error_text(error: &regex::Error) -> (text: String)
    ensures
        text@ == regex_error_detail(*error),
{
    error.to_string()
}

/// A pluggable strategy that evaluates rules of one type against a
/// context. What the two methods return is the evaluator's own business:
/// the engine promises nothing of it and handles every outcome.
pub trait RuleEvaluator: Send + Sync {
    /// Evaluates `rule` against `context`.
    fn evaluate(&self, rule: &Rule, context: &str) -> Result<String, EvaluationError>;

    /// The rule type under which this evaluator wants to be registered.
    fn rule_type(&self) -> RuleType;
}

/// What the text-pattern evaluator reports on a pattern that was, or was
/// not, found.
pub open spec fn text_pattern_report(pattern: Seq<char>, found: bool) -> Seq<char> {
    if found {
        "Matched pattern '"@ + pattern + "' in context"@
    } else {
        "Pattern '"@ + pattern + "' not found in context"@
    }
}

/// What the regex evaluator reports on an expression that did, or did
/// not, match.
pub open spec fn regex_report(pattern: Seq<char>, matched: bool) -> Seq<char> {
    if matched {
        "Regex '"@ + pattern + "' matched context"@
    } else {
        "Regex '"@ + pattern + "' did not match context"@
    }
}

/// Evaluator of text patterns: reports whether the rule's content occurs
/// in the context. Absence of the pattern is a report, not an error.
pub struct TextPatternEvaluator;

impl RuleEvaluator for TextPatternEvaluator {
    fn evaluate(&self, rule: &Rule, context: &str) -> (out: Result<String, EvaluationError>)
        ensures
            out matches Ok(report) && report@ == text_pattern_report(
                rule@.content,
                occurs_in(rule@.content, context@),
            ),
    {
        if text_contains(context, rule.content.as_str()) {
            Ok(
                String::from_str("Matched pattern '").concat(rule.content.as_str()).concat(
                    "' in context",
                ),
            )
        } else {
            Ok(
                String::from_str("Pattern '").concat(rule.content.as_str()).concat(
                    "' not found in context",
                ),
            )
        }
    }

    fn rule_type(&self) -> (t: RuleType)
        ensures
            t@ == RuleTypeView::TextPattern,
    {
        RuleType::TextPattern
    }
}

/// What the regex evaluator makes of the attempt to compile a pattern:
/// the report on a compiled expression, and a failure that carries the
/// compiler's words on one that was refused.
pub open spec fn regex_outcome(
    compiled: Result<regex::Regex, regex::Error>,
    context: Seq<char>,
    out: Result<String, EvaluationError>,
) -> bool {
    match compiled {
        Ok(re) => out matches Ok(report) && report@ == regex_report(
            regex_source(re),
            regex_accepts(re, context),
        ),
        Err(error) => out matches Err(failure) && failure.detail@ == regex_error_detail(error),
    }
}

/// Evaluator of regular expressions: compiles the rule's content and
/// reports whether it matches anywhere in the context. A pattern that
/// does not compile is a failure of the evaluation.
pub struct RegexEvaluator;

impl RegexEvaluator {
    /// Reports on the attempt to compile a pattern: whether the compiled
    /// expression matches anywhere in `context`, or why the pattern was
    /// refused.
    pub fn report(compiled: Result<regex::Regex, regex::Error>, context: &str) -> (out: Result<
        String,
        EvaluationError,
    >)
        ensures
            regex_outcome(compiled, context@, out),
    {
        match compiled {
            Ok(re) => {
                let pattern = regex_pattern(&re);
                if regex_is_match(&re, context) {
                    Ok(String::from_str("Regex '").concat(pattern).concat("' matched context"))
                } else {
                    Ok(
                        String::from_str("Regex '").concat(pattern).concat(
                            "' did not match context",
                        ),
                    )
                }
            },
            Err(error) => Err(EvaluationError { detail: regex_error_text(&error) }),
        }
    }
}

impl RuleEvaluator for RegexEvaluator {
    fn evaluate(&self, rule: &Rule, context: &str) -> (out: Result<String, EvaluationError>)
        ensures
            !regex_valid(rule@.content) ==> out is Err,
            out matches Ok(report) ==> report@ == regex_report(
                rule@.content,
                regex_matches(rule@.content, context@),
            ),
    {
        RegexEvaluator::report(regex_compile(rule.content.as_str()), context)
    }

    fn rule_type(&self) -> (t: RuleType)
        ensures
            t@ == RuleTypeView::Regex,
    {
        RuleType::Regex
    }
}

} // verus!
