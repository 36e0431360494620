//! Mathematical model of the two registries of the engine: the rule sets,
//! kept in registration order under unique names, and the evaluators, kept
//! under unique rule types.

use vstd::prelude::*;
use crate::rule_types::{RuleSetView, RuleTypeView, RuleView};

verus! {

/// Whether a rule set named `name` is registered.
pub open spec fn has_set(sets: Seq<RuleSetView>, name: Seq<char>) -> bool {
    exists|i: int| 0 <= i < sets.len() && (#[trigger] sets[i]).name == name
}

/// Position of the rule set named `name`, where one is registered.
pub open spec fn position_of(sets: Seq<RuleSetView>, name: Seq<char>) -> int {
    choose|i: int| 0 <= i < sets.len() && (#[trigger] sets[i]).name == name
}

/// No two registered rule sets share a name.
pub open spec fn names_unique(sets: Seq<RuleSetView>) -> bool {
    forall|i: int, j: int|
        0 <= i < j < sets.len() ==> (#[trigger] sets[i]).name != (#[trigger] sets[j]).name
}

/// The registry after `set` was registered: a set of the same name is
/// replaced where it stands, a new name goes to the end.
pub open spec fn with_set(sets: Seq<RuleSetView>, set: RuleSetView) -> Seq<RuleSetView> {
    if has_set(sets, set.name) {
        sets.update(position_of(sets, set.name), set)
    } else {
        sets.push(set)
    }
}

/// The registry after the set named `name` was unregistered.
pub open spec fn without_set(sets: Seq<RuleSetView>, name: Seq<char>) -> Seq<RuleSetView> {
    if has_set(sets, name) {
        sets.remove(position_of(sets, name))
    } else {
        sets
    }
}

/// The rules that apply to `context`, set after set in registration
/// order, each set in its own order.
pub open spec fn applicable_rules(sets: Seq<RuleSetView>, context: Seq<char>) -> Seq<RuleView>
    decreases sets.len(),
{
    if sets.len() == 0 {
        Seq::empty()
    } else {
        applicable_rules(sets.drop_last(), context) + sets.last().applicable_rules(context)
    }
}

/// Number of rules over all registered sets.
pub open spec fn total_rules(sets: Seq<RuleSetView>) -> nat
    decreases sets.len(),
{
    if sets.len() == 0 {
        0
    } else {
        total_rules(sets.drop_last()) + sets.last().rules.len()
    }
}

/// Under unique names, the set named `name` stands at the one position
/// that carries the name.
pub proof fn lemma_position_is_unique(sets: Seq<RuleSetView>, name: Seq<char>, i: int)
    requires
        names_unique(sets),
        0 <= i < sets.len(),
        sets[i].name == name,
    ensures
        has_set(sets, name),
        position_of(sets, name) == i,
{
    let p = position_of(sets, name);
    assert(0 <= p < sets.len() && sets[p].name == name);
    if p < i {
        assert(sets[p].name != sets[i].name);
    } else if i < p {
        assert(sets[i].name != sets[p].name);
    }
}

/// Registering keeps the names unique and makes the name registered.
pub proof fn lemma_with_set_is_valid(sets: Seq<RuleSetView>, set: RuleSetView)
    requires
        names_unique(sets),
    ensures
        names_unique(with_set(sets, set)),
        has_set(with_set(sets, set), set.name),
        with_set(sets, set)[position_of(with_set(sets, set), set.name)] == set,
{
    let after = with_set(sets, set);
    if has_set(sets, set.name) {
        let p = position_of(sets, set.name);
        assert(0 <= p < sets.len() && sets[p].name == set.name);
        assert forall|i: int, j: int| 0 <= i < j < after.len() implies (#[trigger] after[i]).name
            != (#[trigger] after[j]).name by {
            assert(after[i].name == sets[i].name);
            assert(after[j].name == sets[j].name);
        }
        assert(after[p].name == set.name);
        lemma_position_is_unique(after, set.name, p);
    } else {
        let p = sets.len() as int;
        assert forall|i: int, j: int| 0 <= i < j < after.len() implies (#[trigger] after[i]).name
            != (#[trigger] after[j]).name by {
            assert(after[i] == sets[i]);
            if j < sets.len() {
                assert(after[j] == sets[j]);
            }
        }
        assert(after[p].name == set.name);
        lemma_position_is_unique(after, set.name, p);
    }
}

/// Unregistering keeps the names unique and leaves no set of that name.
pub proof fn lemma_without_set_is_valid(sets: Seq<RuleSetView>, name: Seq<char>)
    requires
        names_unique(sets),
    ensures
        names_unique(without_set(sets, name)),
        !has_set(without_set(sets, name), name),
{
    let after = without_set(sets, name);
    if has_set(sets, name) {
        let p = position_of(sets, name);
        assert(0 <= p < sets.len() && sets[p].name == name);
        assert forall|i: int, j: int| 0 <= i < j < after.len() implies (#[trigger] after[i]).name
            != (#[trigger] after[j]).name by {
            let oi = if i < p { i } else { i + 1 };
            let oj = if j < p { j } else { j + 1 };
            assert(after[i] == sets[oi]);
            assert(after[j] == sets[oj]);
        }
        assert forall|i: int| 0 <= i < after.len() implies (#[trigger] after[i]).name != name by {
            let oi = if i < p { i } else { i + 1 };
            assert(after[i] == sets[oi]);
            if oi < p {
                assert(sets[oi].name != sets[p].name);
            } else {
                assert(sets[p].name != sets[oi].name);
            }
        }
    }
}

/// Round trip: registering a rule set and then unregistering its name
/// leaves the registry without a set of that name, and, where the name
/// was new, exactly as it was before.
pub proof fn lemma_register_unregister_round_trip(sets: Seq<RuleSetView>, set: RuleSetView)
    requires
        names_unique(sets),
    ensures
        has_set(with_set(sets, set), set.name),
        !has_set(without_set(with_set(sets, set), set.name), set.name),
        !has_set(sets, set.name) ==> without_set(with_set(sets, set), set.name) == sets,
        without_set(with_set(sets, set), set.name) == without_set(sets, set.name),
{
    lemma_with_set_is_valid(sets, set);
    let mid = with_set(sets, set);
    lemma_without_set_is_valid(mid, set.name);
    if has_set(sets, set.name) {
        let p = position_of(sets, set.name);
        assert(0 <= p < sets.len() && sets[p].name == set.name);
        assert(mid[p].name == set.name);
        lemma_position_is_unique(mid, set.name, p);
        assert(mid.remove(p) =~= sets.remove(p));
    } else {
        let p = sets.len() as int;
        assert(mid[p].name == set.name);
        lemma_position_is_unique(mid, set.name, p);
        assert(mid.remove(p) =~= sets);
    }
}

/// Last write wins: registering a second rule set under the name of one
/// that was just registered leaves the registry as if only the second
/// had been registered. In particular, registering the same set twice is
/// registering it once.
pub proof fn lemma_registration_replaces(
    sets: Seq<RuleSetView>,
    first: RuleSetView,
    second: RuleSetView,
)
    requires
        names_unique(sets),
        first.name == second.name,
    ensures
        with_set(with_set(sets, first), second) == with_set(sets, second),
{
    lemma_with_set_is_valid(sets, first);
    let mid = with_set(sets, first);
    if has_set(sets, first.name) {
        let p = position_of(sets, first.name);
        assert(0 <= p < sets.len() && sets[p].name == first.name);
        assert(mid[p].name == second.name);
        lemma_position_is_unique(mid, second.name, p);
        assert(mid.update(p, second) =~= sets.update(p, second));
    } else {
        let p = sets.len() as int;
        assert(mid[p].name == second.name);
        lemma_position_is_unique(mid, second.name, p);
        assert(mid.update(p, second) =~= sets.push(second));
    }
}

/// Completeness of the collection: as many rules apply as the registered
/// sets hold in total.
pub proof fn lemma_applicable_rules_count(sets: Seq<RuleSetView>, context: Seq<char>)
    ensures
        applicable_rules(sets, context).len() == total_rules(sets),
    decreases sets.len(),
{
    if sets.len() > 0 {
        lemma_applicable_rules_count(sets.drop_last(), context);
    }
}

/// Strategy that stands behind a registered rule type.
#[derive(Debug, Clone, Copy, PartialEq, Eq, Structural)]
pub enum EvaluatorKind {
    /// The built-in substring evaluator.
    TextPattern,
    /// The built-in regular-expression evaluator.
    Regex,
    /// An evaluator supplied by the caller.
    Custom,
}

/// Model of one entry of the evaluator registry.
pub struct RegistrationView {
    pub rule_type: RuleTypeView,
    pub kind: EvaluatorKind,
}

/// Whether an evaluator is registered for `rule_type`.
pub open spec fn has_evaluator(entries: Seq<RegistrationView>, rule_type: RuleTypeView) -> bool {
    exists|i: int| 0 <= i < entries.len() && (#[trigger] entries[i]).rule_type == rule_type
}

/// Position of the entry for `rule_type`, where one is registered.
pub open spec fn evaluator_position(
    entries: Seq<RegistrationView>,
    rule_type: RuleTypeView,
) -> int {
    choose|i: int| 0 <= i < entries.len() && (#[trigger] entries[i]).rule_type == rule_type
}

/// The strategy registered for `rule_type`, if any.
pub open spec fn evaluator_for(entries: Seq<RegistrationView>, rule_type: RuleTypeView) -> Option<
    EvaluatorKind,
> {
    if has_evaluator(entries, rule_type) {
        Some(entries[evaluator_position(entries, rule_type)].kind)
    } else {
        None
    }
}

/// No rule type is registered twice.
pub open spec fn types_unique(entries: Seq<RegistrationView>) -> bool {
    forall|i: int, j: int|
        0 <= i < j < entries.len() ==> (#[trigger] entries[i]).rule_type != (
        #[trigger] entries[j]).rule_type
}

/// The registry after `entry` was registered: it overwrites the entry of
/// its rule type, or goes to the end.
pub open spec fn with_evaluator(entries: Seq<RegistrationView>, entry: RegistrationView) -> Seq<
    RegistrationView,
> {
    if has_evaluator(entries, entry.rule_type) {
        entries.update(evaluator_position(entries, entry.rule_type), entry)
    } else {
        entries.push(entry)
    }
}

/// The entry of an evaluator that a caller supplied for `rule_type`.
pub open spec fn custom_entry(rule_type: RuleTypeView) -> RegistrationView {
    RegistrationView { rule_type, kind: EvaluatorKind::Custom }
}

/// The registry of a new engine: the two built-in evaluators.
pub open spec fn builtin_evaluators() -> Seq<RegistrationView> {
    seq![
        RegistrationView { rule_type: RuleTypeView::TextPattern, kind: EvaluatorKind::TextPattern },
        RegistrationView { rule_type: RuleTypeView::Regex, kind: EvaluatorKind::Regex },
    ]
}

/// Under unique types, the entry of `rule_type` stands at the one
/// position that carries the type.
pub proof fn lemma_evaluator_position_is_unique(
    entries: Seq<RegistrationView>,
    rule_type: RuleTypeView,
    i: int,
)
    requires
        types_unique(entries),
        0 <= i < entries.len(),
        entries[i].rule_type == rule_type,
    ensures
        has_evaluator(entries, rule_type),
        evaluator_position(entries, rule_type) == i,
        evaluator_for(entries, rule_type) == Some(entries[i].kind),
{
    let p = evaluator_position(entries, rule_type);
    assert(0 <= p < entries.len() && entries[p].rule_type == rule_type);
    if p < i {
        assert(entries[p].rule_type != entries[i].rule_type);
    } else if i < p {
        assert(entries[i].rule_type != entries[p].rule_type);
    }
}

/// Registering an evaluator keeps the types unique, makes the new entry
/// the one found for its type, and changes the entry of no other type.
/// Every type that had an evaluator still has one.
pub proof fn lemma_with_evaluator_is_valid(entries: Seq<RegistrationView>, entry: RegistrationView)
    requires
        types_unique(entries),
    ensures
        types_unique(with_evaluator(entries, entry)),
        evaluator_for(with_evaluator(entries, entry), entry.rule_type) == Some(entry.kind),
        forall|t: RuleTypeView|
            t != entry.rule_type ==> #[trigger] evaluator_for(with_evaluator(entries, entry), t)
                == evaluator_for(entries, t),
{
    let after = with_evaluator(entries, entry);
    let p = if has_evaluator(entries, entry.rule_type) {
        evaluator_position(entries, entry.rule_type)
    } else {
        entries.len() as int
    };
    assert(0 <= p < after.len() && after[p] == entry);
    assert forall|i: int| 0 <= i < after.len() && i != p implies #[trigger] after[i] == entries[i]
        && after[i].rule_type != entry.rule_type by {
        if has_evaluator(entries, entry.rule_type) {
            if i < p {
                assert(entries[i].rule_type != entries[p].rule_type);
            } else {
                assert(entries[p].rule_type != entries[i].rule_type);
            }
        }
    }
    assert forall|i: int, j: int| 0 <= i < j < after.len() implies (#[trigger] after[i]).rule_type
        != (#[trigger] after[j]).rule_type by {
        if i != p && j != p {
            assert(after[i] == entries[i]);
            assert(after[j] == entries[j]);
        }
    }
    lemma_evaluator_position_is_unique(after, entry.rule_type, p);
    assert forall|t: RuleTypeView| t != entry.rule_type implies #[trigger] evaluator_for(after, t)
        == evaluator_for(entries, t) by {
        if has_evaluator(entries, t) {
            let q = evaluator_position(entries, t);
            assert(0 <= q < entries.len() && entries[q].rule_type == t);
            assert(q != p);
            assert(after[q] == entries[q]);
            lemma_evaluator_position_is_unique(after, t, q);
        } else if has_evaluator(after, t) {
            let q = evaluator_position(after, t);
            assert(0 <= q < after.len() && after[q].rule_type == t);
            assert(q != p);
            assert(after[q] == entries[q]);
            assert(has_evaluator(entries, t));
        }
    }
}

} // verus!
