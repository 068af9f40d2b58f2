//! Which rule governs a path.

use crate::native::{components_start_with, ComponentModel, NativePath, PathComponent, PathModel};
use crate::policy::host::{RuleProbe, RuleProbeModel};
use crate::types::{PathAccess, PathRule, RuleModel};
use vstd::prelude::*;

verus! {

/// A rule whose path exists, with the location that the host resolved it to.
pub struct ResolvedRule<'a> {
    pub rule: &'a PathRule,
    pub resolved: &'a NativePath,
    pub probe: &'a RuleProbe,
}

/// What a [`ResolvedRule`] holds.
pub struct ResolvedRuleModel {
    pub rule: RuleModel,
    pub resolved: PathModel,
    pub probe: RuleProbeModel,
}

impl<'a> DeepView for ResolvedRule<'a> {
    type V = ResolvedRuleModel;

    open spec fn deep_view(&self) -> ResolvedRuleModel {
        ResolvedRuleModel { rule: self.rule@, resolved: self.resolved@, probe: self.probe@ }
    }
}

impl<'a> View for ResolvedRule<'a> {
    type V = ResolvedRuleModel;

    open spec fn view(&self) -> ResolvedRuleModel {
        self.deep_view()
    }
}

/// Which of its two locations a rule is taken by.
#[derive(Clone, Copy, Debug, PartialEq, Eq, Structural)]
pub enum RuleScope {
    /// The path as the rule spells it.
    Lexical,
    /// The path that the host resolved it to.
    Resolved,
}

impl ResolvedRuleModel {
    /// The components at which the rule applies in a scope.
    pub open spec fn location(self, scope: RuleScope) -> Seq<ComponentModel> {
        match scope {
            RuleScope::Lexical => self.rule.path.components,
            RuleScope::Resolved => self.resolved.components,
        }
    }
}

impl<'a> ResolvedRule<'a> {
    /// The components at which the rule applies in a scope.
    pub fn location(&self, scope: RuleScope) -> (result: &Vec<PathComponent>)
        ensures
            result.deep_view() == self@.location(scope),
    {
        match scope {
            RuleScope::Lexical => &self.rule.path.components,
            RuleScope::Resolved => &self.resolved.components,
        }
    }
}

/// Rank of an access among rules at one depth: a denial over a write over a read.
pub open spec fn access_rank(access: PathAccess) -> nat {
    match access {
        PathAccess::Read => 0,
        PathAccess::Write => 1,
        PathAccess::Deny => 2,
    }
}

/// Whether the first precedence is at most the second.
pub open spec fn precedence_le(first: (nat, nat), second: (nat, nat)) -> bool {
    first.0 < second.0 || (first.0 == second.0 && first.1 <= second.1)
}

/// Depth of a rule's location, then the rank of its access.
pub open spec fn precedence(location: Seq<ComponentModel>, access: PathAccess) -> (nat, nat) {
    (location.len(), access_rank(access))
}

/// Whether the rule at `index` covers the path.
pub open spec fn covers(
    rules: Seq<ResolvedRuleModel>,
    scope: RuleScope,
    path: Seq<ComponentModel>,
    index: int,
) -> bool {
    0 <= index < rules.len() && rules[index].location(scope).is_prefix_of(path)
}

/// The precedence of the rule at `index` in a scope.
pub open spec fn rule_precedence_at(rules: Seq<ResolvedRuleModel>, scope: RuleScope, index: int) -> (nat, nat) {
    precedence(rules[index].location(scope), rules[index].rule.access)
}

/// Whether the rule at `index` covers the path and no covering rule takes precedence over it.
pub open spec fn governs(
    rules: Seq<ResolvedRuleModel>,
    scope: RuleScope,
    path: Seq<ComponentModel>,
    index: int,
) -> bool {
    &&& covers(rules, scope, path, index)
    &&& forall|other: int| #[trigger]
        covers(rules, scope, path, other) ==> precedence_le(
            rule_precedence_at(rules, scope, other),
            rule_precedence_at(rules, scope, index),
        )
}

/// The access that the rules give explicitly at a path, if any rule covers it.
pub open spec fn explicit_access(
    rules: Seq<ResolvedRuleModel>,
    scope: RuleScope,
    path: Seq<ComponentModel>,
) -> Option<PathAccess> {
    if exists|index: int| governs(rules, scope, path, index) {
        Some(rules[choose|index: int| governs(rules, scope, path, index)].rule.access)
    } else {
        None
    }
}

/// A governing rule decides the access: all governing rules agree on it.
pub proof fn governing_rule_decides(
    rules: Seq<ResolvedRuleModel>,
    scope: RuleScope,
    path: Seq<ComponentModel>,
    index: int,
)
    requires
        governs(rules, scope, path, index),
    ensures
        explicit_access(rules, scope, path) == Some(rules[index].rule.access),
{
    let chosen = choose|other: int| governs(rules, scope, path, other);
    assert(governs(rules, scope, path, chosen));
    assert(covers(rules, scope, path, chosen));
    assert(covers(rules, scope, path, index));
}

proof fn lemma_governing_rule_exists(
    rules: Seq<ResolvedRuleModel>,
    scope: RuleScope,
    path: Seq<ComponentModel>,
    index: int,
) -> (governing: int)
    requires
        covers(rules, scope, path, index),
    ensures
        governs(rules, scope, path, governing),
    decreases rules.len(),
{
    let shorter = rules.drop_last();
    let last = rules.len() - 1;
    assert forall|other: int| covers(shorter, scope, path, other) implies covers(rules, scope, path, other)
        && rule_precedence_at(shorter, scope, other) == rule_precedence_at(rules, scope, other) by {}
    assert forall|other: int| covers(rules, scope, path, other) && other != last implies covers(
        shorter,
        scope,
        path,
        other,
    ) && rule_precedence_at(shorter, scope, other) == rule_precedence_at(rules, scope, other) by {}
    if exists|other: int| covers(shorter, scope, path, other) {
        let other = choose|other: int| covers(shorter, scope, path, other);
        let best = lemma_governing_rule_exists(shorter, scope, path, other);
        assert(covers(shorter, scope, path, best));
        if covers(rules, scope, path, last) && precedence_le(
            rule_precedence_at(rules, scope, best),
            rule_precedence_at(rules, scope, last),
        ) {
            assert(governs(rules, scope, path, last));
            last
        } else {
            assert(governs(rules, scope, path, best));
            best
        }
    } else {
        if index != last {
            assert(covers(shorter, scope, path, index));
        }
        assert(governs(rules, scope, path, last));
        last
    }
}

/// Rules decide an access exactly for the paths that one of them covers.
pub proof fn explicit_access_is_given_where_covered(
    rules: Seq<ResolvedRuleModel>,
    scope: RuleScope,
    path: Seq<ComponentModel>,
)
    ensures
        explicit_access(rules, scope, path) is Some <==> exists|index: int| covers(rules, scope, path, index),
{
    if exists|index: int| covers(rules, scope, path, index) {
        let index = choose|index: int| covers(rules, scope, path, index);
        let governing = lemma_governing_rule_exists(rules, scope, path, index);
        governing_rule_decides(rules, scope, path, governing);
    }
}

/// A denial at the deepest covering location is never overridden.
pub proof fn deepest_denial_wins(
    rules: Seq<ResolvedRuleModel>,
    scope: RuleScope,
    path: Seq<ComponentModel>,
    index: int,
)
    requires
        covers(rules, scope, path, index),
        rules[index].rule.access == PathAccess::Deny,
        forall|other: int| #[trigger]
            covers(rules, scope, path, other) ==> rules[other].location(scope).len()
                <= rules[index].location(scope).len(),
    ensures
        explicit_access(rules, scope, path) == Some(PathAccess::Deny),
{
    assert(governs(rules, scope, path, index));
    governing_rule_decides(rules, scope, path, index);
}

/// Depth of a location, then the rank of its access.
pub fn rule_precedence(location: &Vec<PathComponent>, access: PathAccess) -> (result: (usize, u8))
    ensures
        (result.0 as nat, result.1 as nat) == precedence(location.deep_view(), access),
{
    let rank: u8 = match access {
        PathAccess::Read => 0,
        PathAccess::Write => 1,
        PathAccess::Deny => 2,
    };
    (location.len(), rank)
}

/// The access that the rules give explicitly at a path.
pub fn explicit_access_at(
    rules: &Vec<ResolvedRule>,
    scope: RuleScope,
    path: &Vec<PathComponent>,
) -> (result: Option<PathAccess>)
    ensures
        result == explicit_access(rules.deep_view(), scope, path.deep_view()),
{
    let ghost models = rules.deep_view();
    let ghost target = path.deep_view();
    let mut best: Option<usize> = None;
    for index in 0..rules.len()
        invariant
            models == rules.deep_view(),
            target == path.deep_view(),
            best matches Some(chosen) ==> chosen < index && covers(models, scope, target, chosen as int),
            forall|other: int| #[trigger]
                covers(models, scope, target, other) && other < index ==> best is Some && precedence_le(
                    rule_precedence_at(models, scope, other),
                    rule_precedence_at(models, scope, best->Some_0 as int),
                ),
    {
        let location = rules[index].location(scope);
        assert(location.deep_view() == models[index as int].location(scope));
        if components_start_with(path, location) {
            assert(covers(models, scope, target, index as int));
            match best {
                Some(chosen) => {
                    let incumbent = rule_precedence(rules[chosen].location(scope), rules[chosen].rule.access);
                    let candidate = rule_precedence(location, rules[index].rule.access);
                    if incumbent.0 < candidate.0 || (incumbent.0 == candidate.0 && incumbent.1 <= candidate.1) {
                        best = Some(index);
                    }
                },
                None => {
                    best = Some(index);
                },
            }
        } else {
            assert(!covers(models, scope, target, index as int));
        }
    }
    match best {
        Some(chosen) => {
            proof {
                assert(governs(models, scope, target, chosen as int));
                governing_rule_decides(models, scope, target, chosen as int);
            }
            Some(rules[chosen].rule.access)
        },
        None => None,
    }
}

/// The more restrictive of two optional accesses.
pub open spec fn most_restrictive(left: Option<PathAccess>, right: Option<PathAccess>) -> Option<PathAccess> {
    match (left, right) {
        (Some(first), Some(second)) => if access_rank(first) <= access_rank(second) {
            Some(second)
        } else {
            Some(first)
        },
        (Some(_), None) => left,
        _ => right,
    }
}

/// The more restrictive of two optional accesses.
pub fn most_restrictive_access(left: Option<PathAccess>, right: Option<PathAccess>) -> (result: Option<PathAccess>)
    ensures
        result == most_restrictive(left, right),
{
    match (left, right) {
        (Some(first), Some(second)) => match (first, second) {
            (PathAccess::Deny, _) => Some(PathAccess::Deny),
            (_, PathAccess::Deny) => Some(PathAccess::Deny),
            (PathAccess::Write, _) => Some(PathAccess::Write),
            (_, PathAccess::Write) => Some(PathAccess::Write),
            _ => Some(PathAccess::Read),
        },
        (Some(first), None) => Some(first),
        (None, right) => right,
    }
}

/// Combining accesses depends neither on their order nor on their grouping.
pub proof fn most_restrictive_is_a_join(
    first: Option<PathAccess>,
    second: Option<PathAccess>,
    third: Option<PathAccess>,
)
    ensures
        most_restrictive(first, second) == most_restrictive(second, first),
        most_restrictive(most_restrictive(first, second), third) == most_restrictive(
            first,
            most_restrictive(second, third),
        ),
        most_restrictive(first, first) == first,
        most_restrictive(first, Some(PathAccess::Deny)) == Some(PathAccess::Deny),
{
}

/// A rule governs a path when it stands at the path or above it, and when no other such
/// rule stands deeper, or as deep with a stricter access: a denial is stricter than a
/// write, and a write takes over a read. The governing rule's own access is the answer.
pub proof fn the_deepest_strictest_rule_decides(
    rules: Seq<ResolvedRuleModel>,
    scope: RuleScope,
    path: Seq<ComponentModel>,
    index: int,
)
    requires
        0 <= index < rules.len(),
        rules[index].location(scope).is_prefix_of(path),
        forall|other: int|
            0 <= other < rules.len() && (#[trigger] rules[other]).location(scope).is_prefix_of(path) ==> {
                ||| rules[other].location(scope).len() < rules[index].location(scope).len()
                ||| rules[other].location(scope).len() == rules[index].location(scope).len() && (
                rules[index].rule.access == PathAccess::Deny || rules[other].rule.access == PathAccess::Read
                    || rules[other].rule.access == rules[index].rule.access)
            },
    ensures
        explicit_access(rules, scope, path) == Some(rules[index].rule.access),
        rules[index].location(RuleScope::Lexical) == rules[index].rule.path.components,
        rules[index].location(RuleScope::Resolved) == rules[index].resolved.components,
{
    assert(covers(rules, scope, path, index));
    assert forall|other: int| #[trigger] covers(rules, scope, path, other) implies precedence_le(
        rule_precedence_at(rules, scope, other),
        rule_precedence_at(rules, scope, index),
    ) by {
        assert(rules[other].location(scope).is_prefix_of(path));
    }
    governing_rule_decides(rules, scope, path, index);
}

/// Rules say nothing of a path that none of them stands at or above.
pub proof fn uncovered_paths_have_no_explicit_access(
    rules: Seq<ResolvedRuleModel>,
    scope: RuleScope,
    path: Seq<ComponentModel>,
)
    requires
        forall|index: int|
            0 <= index < rules.len() ==> !(#[trigger] rules[index]).location(scope).is_prefix_of(path),
    ensures
        explicit_access(rules, scope, path) is None,
{
    assert forall|index: int| !covers(rules, scope, path, index) by {
        if 0 <= index < rules.len() {
            assert(!rules[index].location(scope).is_prefix_of(path));
        }
    }
}

/// An access that rules give comes from a rule with that access that stands at the path or
/// above it.
pub proof fn explicit_access_comes_from_a_rule(
    rules: Seq<ResolvedRuleModel>,
    scope: RuleScope,
    path: Seq<ComponentModel>,
) -> (index: int)
    requires
        explicit_access(rules, scope, path) is Some,
    ensures
        0 <= index < rules.len(),
        rules[index].location(scope).is_prefix_of(path),
        explicit_access(rules, scope, path) == Some(rules[index].rule.access),
        forall|other: int|
            0 <= other < rules.len() && (#[trigger] rules[other]).location(scope).is_prefix_of(path) ==> {
                ||| rules[other].location(scope).len() < rules[index].location(scope).len()
                ||| rules[other].location(scope).len() == rules[index].location(scope).len() && (
                rules[index].rule.access == PathAccess::Deny || rules[other].rule.access == PathAccess::Read
                    || rules[other].rule.access == rules[index].rule.access)
            },
{
    let index = choose|index: int| governs(rules, scope, path, index);
    assert(governs(rules, scope, path, index));
    assert forall|other: int|
        0 <= other < rules.len() && (#[trigger] rules[other]).location(scope).is_prefix_of(path) implies {
        ||| rules[other].location(scope).len() < rules[index].location(scope).len()
        ||| rules[other].location(scope).len() == rules[index].location(scope).len() && (rules[index].rule.access
            == PathAccess::Deny || rules[other].rule.access == PathAccess::Read || rules[other].rule.access
            == rules[index].rule.access)
    } by {
        assert(covers(rules, scope, path, other));
    }
    index
}

/// Of two accesses the stricter one is kept: a denial over anything, a write over a read,
/// and any access over none.
pub proof fn the_stricter_access_is_kept(left: Option<PathAccess>, right: Option<PathAccess>)
    ensures
        most_restrictive(left, right) == Some(PathAccess::Deny) <==> left == Some(PathAccess::Deny) || right == Some(
            PathAccess::Deny,
        ),
        most_restrictive(left, right) is None <==> left is None && right is None,
        most_restrictive(left, right) == Some(PathAccess::Read) <==> (left == Some(PathAccess::Read) || right == Some(
            PathAccess::Read,
        )) && (left is None || left == Some(PathAccess::Read)) && (right is None || right == Some(PathAccess::Read)),
{
}

} // verus!
