//! Value types of the engine: rule types, rules, rule sets and per-rule
//! evaluation results.

use vstd::prelude::*;
use crate::error::{ErrorView, SageXError};

verus! {

/// Tag that selects the evaluator of a rule.
#[derive(Debug, PartialEq, Eq, Hash)]
pub enum RuleType {
    Language,
    Framework,
    Architecture,
    Workflow,
    Symbiotic,
    TextPattern,
    Regex,
    JavaScript,
    Python,
    JsonPath,
    Conditional,
    /// A tag agreed upon between a caller and a registered evaluator.
    Custom(String),
}

/// Mathematical model of a [`RuleType`].
pub enum RuleTypeView {
    Language,
    Framework,
    Architecture,
    Workflow,
    Symbiotic,
    TextPattern,
    Regex,
    JavaScript,
    Python,
    JsonPath,
    Conditional,
    Custom(Seq<char>),
}

impl View for RuleType {
    type V = RuleTypeView;

    open spec fn view(&self) -> RuleTypeView {
        match self {
            RuleType::Language => RuleTypeView::Language,
            RuleType::Framework => RuleTypeView::Framework,
            RuleType::Architecture => RuleTypeView::Architecture,
            RuleType::Workflow => RuleTypeView::Workflow,
            RuleType::Symbiotic => RuleTypeView::Symbiotic,
            RuleType::TextPattern => RuleTypeView::TextPattern,
            RuleType::Regex => RuleTypeView::Regex,
            RuleType::JavaScript => RuleTypeView::JavaScript,
            RuleType::Python => RuleTypeView::Python,
            RuleType::JsonPath => RuleTypeView::JsonPath,
            RuleType::Conditional => RuleTypeView::Conditional,
            RuleType::Custom(tag) => RuleTypeView::Custom(tag@),
        }
    }
}

/// Label under which a rule type appears in error messages.
pub open spec fn type_label(t: RuleTypeView) -> Seq<char> {
    match t {
        RuleTypeView::Language => "Language"@,
        RuleTypeView::Framework => "Framework"@,
        RuleTypeView::Architecture => "Architecture"@,
        RuleTypeView::Workflow => "Workflow"@,
        RuleTypeView::Symbiotic => "Symbiotic"@,
        RuleTypeView::TextPattern => "TextPattern"@,
        RuleTypeView::Regex => "Regex"@,
        RuleTypeView::JavaScript => "JavaScript"@,
        RuleTypeView::Python => "Python"@,
        RuleTypeView::JsonPath => "JsonPath"@,
        RuleTypeView::Conditional => "Conditional"@,
        RuleTypeView::Custom(tag) => "Custom:"@ + tag,
    }
}

impl RuleType {
    /// Decides whether two rule types are the same tag.
    pub fn same_as(&self, other: &RuleType) -> (same: bool)
        ensures
            same == (self@ == other@),
    {
        match (self, other) {
            (RuleType::Language, RuleType::Language) => true,
            (RuleType::Framework, RuleType::Framework) => true,
            (RuleType::Architecture, RuleType::Architecture) => true,
            (RuleType::Workflow, RuleType::Workflow) => true,
            (RuleType::Symbiotic, RuleType::Symbiotic) => true,
            (RuleType::TextPattern, RuleType::TextPattern) => true,
            (RuleType::Regex, RuleType::Regex) => true,
            (RuleType::JavaScript, RuleType::JavaScript) => true,
            (RuleType::Python, RuleType::Python) => true,
            (RuleType::JsonPath, RuleType::JsonPath) => true,
            (RuleType::Conditional, RuleType::Conditional) => true,
            (RuleType::Custom(a), RuleType::Custom(b)) => *a == *b,
            _ => false,
        }
    }

    /// Renders the label used for this type in error messages.
    pub fn label(&self) -> (text: String)
        ensures
            text@ == type_label(self@),
    {
        match self {
            RuleType::Language => String::from_str("Language"),
            RuleType::Framework => String::from_str("Framework"),
            RuleType::Architecture => String::from_str("Architecture"),
            RuleType::Workflow => String::from_str("Workflow"),
            RuleType::Symbiotic => String::from_str("Symbiotic"),
            RuleType::TextPattern => String::from_str("TextPattern"),
            RuleType::Regex => String::from_str("Regex"),
            RuleType::JavaScript => String::from_str("JavaScript"),
            RuleType::Python => String::from_str("Python"),
            RuleType::JsonPath => String::from_str("JsonPath"),
            RuleType::Conditional => String::from_str("Conditional"),
            RuleType::Custom(tag) => String::from_str("Custom:").concat(tag.as_str()),
        }
    }
}

impl Clone for RuleType {
    fn clone(&self) -> (copy: RuleType)
        ensures
            copy@ == self@,
    {
        match self {
            RuleType::Language => RuleType::Language,
            RuleType::Framework => RuleType::Framework,
            RuleType::Architecture => RuleType::Architecture,
            RuleType::Workflow => RuleType::Workflow,
            RuleType::Symbiotic => RuleType::Symbiotic,
            RuleType::TextPattern => RuleType::TextPattern,
            RuleType::Regex => RuleType::Regex,
            RuleType::JavaScript => RuleType::JavaScript,
            RuleType::Python => RuleType::Python,
            RuleType::JsonPath => RuleType::JsonPath,
            RuleType::Conditional => RuleType::Conditional,
            RuleType::Custom(tag) => RuleType::Custom(tag.clone()),
        }
    }
}

/// The mapping that a list of metadata entries stands for: of two
/// entries with the same key the later one counts.
pub open spec fn metadata_map(entries: Seq<(String, String)>) -> Map<Seq<char>, Seq<char>>
    decreases entries.len(),
{
    if entries.len() == 0 {
        Map::empty()
    } else {
        metadata_map(entries.drop_last()).insert(entries.last().0@, entries.last().1@)
    }
}

/// A named pattern or expression plus metadata: the unit of evaluation.
#[derive(Debug)]
pub struct Rule {
    /// Caller-assigned identifier, unique within a rule set.
    pub id: String,
    /// Pattern or expression body, interpreted by the evaluator.
    pub content: String,
    /// Evaluator hints as key and value; of two entries with the same key
    /// the later one counts. The key `"type"` carries the rule-type tag.
    pub metadata: Vec<(String, String)>,
}

/// Mathematical model of a [`Rule`].
pub struct RuleView {
    pub id: Seq<char>,
    pub content: Seq<char>,
    pub metadata: Map<Seq<char>, Seq<char>>,
}

impl View for Rule {
    type V = RuleView;

    open spec fn view(&self) -> RuleView {
        RuleView { id: self.id@, content: self.content@, metadata: metadata_map(self.metadata@) }
    }
}

impl RuleView {
    /// The rule-type tag carried by the metadata, if any.
    pub open spec fn type_tag(self) -> Option<Seq<char>> {
        if self.metadata.contains_key("type"@) {
            Some(self.metadata["type"@])
        } else {
            None
        }
    }
}

impl Clone for Rule {
    fn clone(&self) -> (copy: Rule)
        ensures
            copy@ == self@,
    {
        let mut metadata: Vec<(String, String)> = Vec::new();
        let mut i: usize = 0;
        while i < self.metadata.len()
            invariant
                i <= self.metadata@.len(),
                metadata@ == self.metadata@.take(i as int),
            decreases self.metadata@.len() - i,
        {
            let entry = &self.metadata[i];
            metadata.push((entry.0.clone(), entry.1.clone()));
            assert(metadata@ =~= self.metadata@.take(i + 1));
            i += 1;
        }
        assert(metadata@ =~= self.metadata@);
        Rule { id: self.id.clone(), content: self.content.clone(), metadata }
    }
}

impl Rule {
    /// Creates a rule without metadata.
    pub fn new(id: &str, content: &str) -> (rule: Rule)
        ensures
            rule@ == (RuleView { id: id@, content: content@, metadata: Map::empty() }),
    {
        Rule { id: String::from_str(id), content: String::from_str(content), metadata: Vec::new() }
    }

    /// Sets one metadata entry; it overrides any earlier value of `key`.
    pub fn set_metadata(&mut self, key: &str, value: &str)
        ensures
            final(self)@ == (RuleView {
                metadata: old(self)@.metadata.insert(key@, value@),
                ..old(self)@
            }),
    {
        self.metadata.push((String::from_str(key), String::from_str(value)));
        assert(self.metadata@.drop_last() =~= old(self).metadata@);
    }

    /// Returns the rule with one more metadata entry.
    pub fn with_metadata(self, key: &str, value: &str) -> (rule: Rule)
        ensures
            rule@ == (RuleView { metadata: self@.metadata.insert(key@, value@), ..self@ }),
    {
        let mut rule = self;
        rule.set_metadata(key, value);
        rule
    }

    /// Looks up one metadata entry.
    pub fn metadata_value(&self, key: &str) -> (value: Option<&String>)
        ensures
            match value {
                Some(v) => self@.metadata.contains_key(key@) && v@ == self@.metadata[key@],
                None => !self@.metadata.contains_key(key@),
            },
    {
        let wanted = String::from_str(key);
        let mut i: usize = self.metadata.len();
        assert(self.metadata@.take(i as int) =~= self.metadata@);
        while i > 0
            invariant
                i <= self.metadata@.len(),
                wanted@ == key@,
                self@.metadata.contains_key(key@) == metadata_map(
                    self.metadata@.take(i as int),
                ).contains_key(key@),
                self@.metadata.contains_key(key@) ==> self@.metadata[key@] == metadata_map(
                    self.metadata@.take(i as int),
                )[key@],
            decreases i,
        {
            assert(self.metadata@.take(i as int).drop_last() =~= self.metadata@.take(i - 1));
            if self.metadata[i - 1].0 == wanted {
                return Some(&self.metadata[i - 1].1);
            }
            i -= 1;
        }
        None
    }
}

/// A named, ordered collection of rules, managed as one registration unit.
/// No two rules of a set share an id.
#[derive(Debug)]
pub struct RuleSet {
    name: String,
    rules: Vec<Rule>,
}

/// Mathematical model of a [`RuleSet`].
pub struct RuleSetView {
    pub name: Seq<char>,
    pub rules: Seq<RuleView>,
}

impl RuleSetView {
    /// Whether some rule of the set carries the id `id`.
    pub open spec fn has_rule(self, id: Seq<char>) -> bool {
        exists|i: int| 0 <= i < self.rules.len() && (#[trigger] self.rules[i]).id == id
    }

    /// No two rules of the set share an id.
    pub open spec fn ids_unique(self) -> bool {
        forall|i: int, j: int|
            0 <= i < j < self.rules.len() ==> (#[trigger] self.rules[i]).id != (
            #[trigger] self.rules[j]).id
    }

    /// The rules of the set that apply to `context`, in the order of the set.
    /// Every rule applies to every context.
    pub open spec fn applicable_rules(self, context: Seq<char>) -> Seq<RuleView> {
        self.rules
    }
}

/// The models of a sequence of borrowed rules.
pub open spec fn rule_views(rules: Seq<&Rule>) -> Seq<RuleView> {
    Seq::new(rules.len(), |i: int| rules[i]@)
}

impl View for RuleSet {
    type V = RuleSetView;

    closed spec fn view(&self) -> RuleSetView {
        RuleSetView {
            name: self.name@,
            rules: Seq::new(self.rules@.len(), |i: int| self.rules@[i]@),
        }
    }
}

impl Clone for RuleSet {
    fn clone(&self) -> (copy: RuleSet)
        ensures
            copy@ == self@,
    {
        let mut rules: Vec<Rule> = Vec::new();
        let mut i: usize = 0;
        while i < self.rules.len()
            invariant
                i <= self.rules@.len(),
                rules@.len() == i,
                forall|k: int| 0 <= k < i ==> (#[trigger] rules@[k])@ == self.rules@[k]@,
            decreases self.rules@.len() - i,
        {
            rules.push(self.rules[i].clone());
            i += 1;
        }
        let copy = RuleSet { name: self.name.clone(), rules };
        assert(copy@.rules =~= self@.rules);
        copy
    }
}

impl RuleSet {
    /// Validity of a rule set: its ids are unique.
    pub open spec fn wf(&self) -> bool {
        self@.ids_unique()
    }

    /// Name under which the set is registered.
    pub fn name(&self) -> (name: &String)
        ensures
            name@ == self@.name,
    {
        &self.name
    }

    /// Creates an empty rule set.
    pub fn new(name: &str) -> (set: RuleSet)
        ensures
            set.wf(),
            set@ == (RuleSetView { name: name@, rules: Seq::empty() }),
    {
        let set = RuleSet { name: String::from_str(name), rules: Vec::new() };
        assert(set@.rules =~= Seq::<RuleView>::empty());
        set
    }

    /// Number of rules in the set.
    pub fn len(&self) -> (n: usize)
        ensures
            n == self@.rules.len(),
    {
        self.rules.len()
    }

    /// The rule at position `index`.
    pub fn rule_at(&self, index: usize) -> (rule: &Rule)
        requires
            index < self@.rules.len(),
        ensures
            rule@ == self@.rules[index as int],
    {
        &self.rules[index]
    }

    /// Decides whether the set holds a rule with the id `id`.
    pub fn contains_rule(&self, id: &str) -> (found: bool)
        ensures
            found == self@.has_rule(id@),
    {
        let wanted = String::from_str(id);
        let mut i: usize = 0;
        while i < self.rules.len()
            invariant
                i <= self.rules@.len(),
                wanted@ == id@,
                forall|k: int| 0 <= k < i ==> (#[trigger] self@.rules[k]).id != id@,
            decreases self.rules@.len() - i,
        {
            if self.rules[i].id == wanted {
                assert(self@.rules[i as int].id == id@);
                return true;
            }
            i += 1;
        }
        false
    }

    /// Appends `rule` unless a rule with the same id is already present, in
    /// which case the set is left as it was and the id is reported.
    pub fn add_rule(&mut self, rule: Rule) -> (outcome: Result<(), SageXError>)
        requires
            old(self).wf(),
        ensures
            final(self).wf(),
            match outcome {
                Ok(()) => !old(self)@.has_rule(rule@.id) && final(self)@ == (RuleSetView {
                    rules: old(self)@.rules.push(rule@),
                    ..old(self)@
                }),
                Err(e) => old(self)@.has_rule(rule@.id) && final(self)@ == old(self)@ && e@
                    == ErrorView::DuplicateRuleId(rule@.id),
            },
    {
        if self.contains_rule(rule.id.as_str()) {
            return Err(SageXError::DuplicateRuleId(rule.id.clone()));
        }
        self.rules.push(rule);
        assert(self@.rules =~= old(self)@.rules.push(rule@));
        Ok(())
    }

    /// Selects the rules that apply to `context`, in the order of the set.
    pub fn find_applicable_rules(&self, context: &str) -> (found: Vec<&Rule>)
        ensures
            rule_views(found@) == self@.applicable_rules(context@),
    {
        let mut found: Vec<&Rule> = Vec::new();
        let mut i: usize = 0;
        while i < self.rules.len()
            invariant
                i <= self.rules@.len(),
                found@.len() == i,
                forall|k: int| 0 <= k < i ==> (#[trigger] found@[k])@ == self@.rules[k],
            decreases self.rules@.len() - i,
        {
            found.push(&self.rules[i]);
            i += 1;
        }
        assert(rule_views(found@) =~= self@.rules);
        found
    }
}

/// What became of one rule of a batch.
#[derive(Debug, PartialEq, Eq)]
pub enum EvaluationOutcome {
    /// The evaluator returned this output.
    Success(String),
    /// The rule failed, or was skipped, for this reason.
    Failure(SageXError),
}

/// Mathematical model of an [`EvaluationOutcome`].
pub enum OutcomeView {
    Success(Seq<char>),
    Failure(ErrorView),
}

impl View for EvaluationOutcome {
    type V = OutcomeView;

    open spec fn view(&self) -> OutcomeView {
        match self {
            EvaluationOutcome::Success(output) => OutcomeView::Success(output@),
            EvaluationOutcome::Failure(error) => OutcomeView::Failure(error@),
        }
    }
}

/// The model of what the engine's single evaluation returned.
pub open spec fn outcome_of(returned: Result<String, SageXError>) -> OutcomeView {
    match returned {
        Ok(output) => OutcomeView::Success(output@),
        Err(error) => OutcomeView::Failure(error@),
    }
}

/// Result of attempting one rule: always produced, success or not.
#[derive(Debug, PartialEq, Eq)]
pub struct RuleEvaluationResult {
    /// Id of the rule this result belongs to.
    pub rule_id: String,
    /// Whether `outcome` is a success.
    pub success: bool,
    /// Output of the evaluator, or the reason of the failure.
    pub outcome: EvaluationOutcome,
    /// Time spent on the rule, in microseconds.
    pub duration_us: u64,
}

/// Mathematical model of a [`RuleEvaluationResult`].
pub struct ResultView {
    pub rule_id: Seq<char>,
    pub outcome: OutcomeView,
    pub duration_us: u64,
}

impl ResultView {
    /// The rule was never attempted.
    pub open spec fn is_skipped(self) -> bool {
        self.outcome == OutcomeView::Failure(ErrorView::Skipped)
    }

    /// The rule was attempted and failed.
    pub open spec fn is_failed_attempt(self) -> bool {
        self.outcome is Failure && !self.is_skipped()
    }
}

impl View for RuleEvaluationResult {
    type V = ResultView;

    open spec fn view(&self) -> ResultView {
        ResultView { rule_id: self.rule_id@, outcome: self.outcome@, duration_us: self.duration_us }
    }
}

impl RuleEvaluationResult {
    /// Validity of a result: the flag agrees with the outcome.
    pub open spec fn wf(&self) -> bool {
        self.success == (self.outcome is Success)
    }

    /// Records that `rule` evaluated to `output` within `duration_us`.
    pub fn success(rule: &Rule, output: String, duration_us: u64) -> (result: RuleEvaluationResult)
        ensures
            result.wf(),
            result@ == (ResultView {
                rule_id: rule@.id,
                outcome: OutcomeView::Success(output@),
                duration_us,
            }),
    {
        RuleEvaluationResult {
            rule_id: rule.id.clone(),
            success: true,
            outcome: EvaluationOutcome::Success(output),
            duration_us,
        }
    }

    /// Records that `rule` failed with `error` after `duration_us`.
    pub fn failure(rule: &Rule, error: SageXError, duration_us: u64) -> (result:
        RuleEvaluationResult)
        ensures
            result.wf(),
            result@ == (ResultView {
                rule_id: rule@.id,
                outcome: OutcomeView::Failure(error@),
                duration_us,
            }),
    {
        RuleEvaluationResult {
            rule_id: rule.id.clone(),
            success: false,
            outcome: EvaluationOutcome::Failure(error),
            duration_us,
        }
    }

    /// Records that `rule` was not attempted.
    pub fn skipped(rule: &Rule) -> (result: RuleEvaluationResult)
        ensures
            result.wf(),
            result@ == (ResultView {
                rule_id: rule@.id,
                outcome: OutcomeView::Failure(ErrorView::Skipped),
                duration_us: 0,
            }),
    {
        RuleEvaluationResult::failure(rule, SageXError::Skipped, 0)
    }

    /// Whether the rule was attempted and failed.
    pub fn is_failed_attempt(&self) -> (failed: bool)
        ensures
            failed == self@.is_failed_attempt(),
    {
        match &self.outcome {
            EvaluationOutcome::Success(_) => false,
            EvaluationOutcome::Failure(SageXError::Skipped) => false,
            EvaluationOutcome::Failure(_) => true,
        }
    }
}

} // verus!
