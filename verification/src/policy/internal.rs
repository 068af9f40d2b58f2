//! Conflicts between rules and the paths that a backend itself needs.

use crate::error::{SandboxError, SandboxErrorModel};
use crate::native::{components_start_with, ComponentModel, PathModel};
use crate::policy::access::{explicit_access_at, most_restrictive_access, ResolvedRule, ResolvedRuleModel, RuleScope};
use crate::policy::host::{InternalRoot, Resolution, ResolutionModel};
use crate::text::concat2;
use crate::types::PathAccess;
use vstd::prelude::*;
use vstd::string::*;

verus! {

/// The location of an internal root in a scope.
pub open spec fn root_location(root: PathModel, resolved: PathModel, scope: RuleScope) -> Seq<ComponentModel> {
    match scope {
        RuleScope::Lexical => root.components,
        RuleScope::Resolved => resolved.components,
    }
}

/// Whether the rule at `index` lies at or below the location and its own path has the access.
pub open spec fn nested_access(
    rules: Seq<ResolvedRuleModel>,
    scope: RuleScope,
    location: Seq<ComponentModel>,
    access: PathAccess,
    index: int,
) -> bool {
    &&& 0 <= index < rules.len()
    &&& location.is_prefix_of(rules[index].location(scope))
    &&& crate::policy::access::explicit_access(rules, scope, rules[index].location(scope)) == Some(access)
}

/// Whether rules give the access at the location or anywhere below it.
pub open spec fn reaches(
    rules: Seq<ResolvedRuleModel>,
    scope: RuleScope,
    location: Seq<ComponentModel>,
    access: PathAccess,
) -> bool {
    ||| crate::policy::access::explicit_access(rules, scope, location) == Some(access)
    ||| exists|index: int| nested_access(rules, scope, location, access, index)
}

/// Whether rules give the access in either spelling of the internal root.
pub open spec fn internal_reached(
    rules: Seq<ResolvedRuleModel>,
    root: PathModel,
    resolved: PathModel,
    access: PathAccess,
) -> bool {
    ||| reaches(rules, RuleScope::Lexical, root_location(root, resolved, RuleScope::Lexical), access)
    ||| reaches(rules, RuleScope::Resolved, root_location(root, resolved, RuleScope::Resolved), access)
}

/// The most restrictive access other than a read that rules give at or below the internal root.
pub open spec fn internal_conflict(
    rules: Seq<ResolvedRuleModel>,
    root: PathModel,
    resolved: PathModel,
) -> Option<PathAccess> {
    if internal_reached(rules, root, resolved, PathAccess::Deny) {
        Some(PathAccess::Deny)
    } else if internal_reached(rules, root, resolved, PathAccess::Write) {
        Some(PathAccess::Write)
    } else {
        None
    }
}

fn beyond_read(access: Option<PathAccess>) -> (result: Option<PathAccess>)
    ensures
        result == if access == Some(PathAccess::Read) {
            None::<PathAccess>
        } else {
            access
        },
{
    match access {
        Some(PathAccess::Read) => None,
        other => other,
    }
}

/// The conflicts of the root itself and of the first `count` rules below it.
spec fn conflict_among(
    rules: Seq<ResolvedRuleModel>,
    root: PathModel,
    resolved: PathModel,
    access: PathAccess,
    count: int,
) -> bool {
    let lexical = root_location(root, resolved, RuleScope::Lexical);
    let canonical = root_location(root, resolved, RuleScope::Resolved);
    ||| crate::policy::access::explicit_access(rules, RuleScope::Lexical, lexical) == Some(access)
    ||| crate::policy::access::explicit_access(rules, RuleScope::Resolved, canonical) == Some(access)
    ||| exists|index: int| index < count && nested_access(rules, RuleScope::Lexical, lexical, access, index)
    ||| exists|index: int| index < count && nested_access(rules, RuleScope::Resolved, canonical, access, index)
}

spec fn conflict_of(denied: bool, written: bool) -> Option<PathAccess> {
    if denied {
        Some(PathAccess::Deny)
    } else if written {
        Some(PathAccess::Write)
    } else {
        None
    }
}

fn nested_access_at(
    rules: &Vec<ResolvedRule>,
    scope: RuleScope,
    location: &Vec<crate::native::PathComponent>,
    index: usize,
) -> (result: Option<PathAccess>)
    requires
        index < rules@.len(),
    ensures
        forall|access: PathAccess|
            (result == Some(access)) == #[trigger] nested_access(
                rules.deep_view(),
                scope,
                location.deep_view(),
                access,
                index as int,
            ),
{
    assert(rules.deep_view()[index as int] == rules@[index as int].deep_view());
    let own = rules[index].location(scope);
    if components_start_with(own, location) {
        explicit_access_at(rules, scope, own)
    } else {
        None
    }
}

/// The strongest access other than a read that rules give to an internal root.
pub fn explicit_access_for_internal(
    rules: &Vec<ResolvedRule>,
    internal_root: &InternalRoot,
) -> (result: Result<Option<PathAccess>, SandboxError>)
    ensures
        match internal_root@.resolution {
            ResolutionModel::Failed(reason) => result matches Err(error) && error@
                == (SandboxErrorModel::InvalidPath {
                path: internal_root@.path,
                message: "failed to resolve an internal sandbox path: "@ + reason,
            }),
            ResolutionModel::Resolved(resolved) => result == Ok::<Option<PathAccess>, SandboxError>(
                internal_conflict(rules.deep_view(), internal_root@.path, resolved),
            ),
        },
{
    let resolved = match &internal_root.resolution {
        Resolution::Resolved(resolved) => resolved,
        Resolution::Failed(reason) => {
            return Err(
                SandboxError::InvalidPath {
                    path: internal_root.path.clone(),
                    message: concat2("failed to resolve an internal sandbox path: ", reason.as_str()),
                },
            );
        },
    };
    let ghost models = rules.deep_view();
    let ghost root = internal_root.path@;
    let ghost target = resolved@;
    let lexical_access = explicit_access_at(rules, RuleScope::Lexical, &internal_root.path.components);
    let canonical_access = explicit_access_at(rules, RuleScope::Resolved, &resolved.components);
    let mut conflict = beyond_read(most_restrictive_access(lexical_access, canonical_access));
    for index in 0..rules.len()
        invariant
            models == rules.deep_view(),
            root == internal_root.path@,
            target == resolved@,
            conflict == conflict_of(
                conflict_among(models, root, target, PathAccess::Deny, index as int),
                conflict_among(models, root, target, PathAccess::Write, index as int),
            ),
    {
        let lexical_nested = nested_access_at(
            rules,
            RuleScope::Lexical,
            &internal_root.path.components,
            index,
        );
        let canonical_nested = nested_access_at(rules, RuleScope::Resolved, &resolved.components, index);
        let nested = most_restrictive_access(lexical_nested, canonical_nested);
        proof {
            let lexical = root_location(root, target, RuleScope::Lexical);
            let canonical = root_location(root, target, RuleScope::Resolved);
            assert forall|access: PathAccess|
                conflict_among(models, root, target, access, index + 1) == (#[trigger] conflict_among(
                    models,
                    root,
                    target,
                    access,
                    index as int,
                ) || nested_access(models, RuleScope::Lexical, lexical, access, index as int) || nested_access(
                    models,
                    RuleScope::Resolved,
                    canonical,
                    access,
                    index as int,
                )) by {}
            assert((lexical_nested == Some(PathAccess::Deny)) == nested_access(
                models,
                RuleScope::Lexical,
                lexical,
                PathAccess::Deny,
                index as int,
            ));
            assert((lexical_nested == Some(PathAccess::Write)) == nested_access(
                models,
                RuleScope::Lexical,
                lexical,
                PathAccess::Write,
                index as int,
            ));
            assert((canonical_nested == Some(PathAccess::Deny)) == nested_access(
                models,
                RuleScope::Resolved,
                canonical,
                PathAccess::Deny,
                index as int,
            ));
            assert((canonical_nested == Some(PathAccess::Write)) == nested_access(
                models,
                RuleScope::Resolved,
                canonical,
                PathAccess::Write,
                index as int,
            ));
        }
        conflict = beyond_read(most_restrictive_access(conflict, nested));
    }
    assert forall|access: PathAccess|
        internal_reached(models, root, target, access) == #[trigger] conflict_among(
            models,
            root,
            target,
            access,
            models.len() as int,
        ) by {}
    Ok(conflict)
}

/// A path that the backend needs conflicts with every rule that denies it or lets it be
/// written, at its place or anywhere below, in either spelling; a denial weighs more. A
/// rule that lets it be read never conflicts.
pub proof fn needed_paths_conflict_with_denials_and_writes(
    rules: Seq<ResolvedRuleModel>,
    root: PathModel,
    resolved: PathModel,
    index: int,
)
    ensures
        internal_conflict(rules, root, resolved) != Some(PathAccess::Read),
        ({
            let conflict = internal_conflict(rules, root, resolved);
            let lexical = crate::policy::access::explicit_access(rules, RuleScope::Lexical, root.components);
            let canonical = crate::policy::access::explicit_access(rules, RuleScope::Resolved, resolved.components);
            &&& lexical == Some(PathAccess::Deny) || canonical == Some(PathAccess::Deny) ==> conflict == Some(
                PathAccess::Deny,
            )
            &&& lexical == Some(PathAccess::Write) || canonical == Some(PathAccess::Write) ==> conflict is Some
            &&& 0 <= index < rules.len() && root.components.is_prefix_of(rules[index].location(RuleScope::Lexical)) ==> {
                let own = crate::policy::access::explicit_access(
                    rules,
                    RuleScope::Lexical,
                    rules[index].location(RuleScope::Lexical),
                );
                &&& own == Some(PathAccess::Deny) ==> conflict == Some(PathAccess::Deny)
                &&& own == Some(PathAccess::Write) ==> conflict is Some
            }
            &&& 0 <= index < rules.len() && resolved.components.is_prefix_of(
                rules[index].location(RuleScope::Resolved),
            ) ==> {
                let own = crate::policy::access::explicit_access(
                    rules,
                    RuleScope::Resolved,
                    rules[index].location(RuleScope::Resolved),
                );
                &&& own == Some(PathAccess::Deny) ==> conflict == Some(PathAccess::Deny)
                &&& own == Some(PathAccess::Write) ==> conflict is Some
            }
        }),
        rules.len() == 0 ==> internal_conflict(rules, root, resolved) is None,
{
    if 0 <= index < rules.len() {
        if root.components.is_prefix_of(rules[index].location(RuleScope::Lexical)) {
            let own = crate::policy::access::explicit_access(
                rules,
                RuleScope::Lexical,
                rules[index].location(RuleScope::Lexical),
            );
            if own is Some {
                assert(nested_access(rules, RuleScope::Lexical, root.components, own->Some_0, index));
            }
        }
        if resolved.components.is_prefix_of(rules[index].location(RuleScope::Resolved)) {
            let own = crate::policy::access::explicit_access(
                rules,
                RuleScope::Resolved,
                rules[index].location(RuleScope::Resolved),
            );
            if own is Some {
                assert(nested_access(rules, RuleScope::Resolved, resolved.components, own->Some_0, index));
            }
        }
    }
    if rules.len() == 0 {
        if crate::policy::access::explicit_access(rules, RuleScope::Lexical, root.components) is Some {
            crate::policy::access::explicit_access_comes_from_a_rule(
                rules,
                RuleScope::Lexical,
                root.components,
            );
        }
        if crate::policy::access::explicit_access(rules, RuleScope::Resolved, resolved.components) is Some {
            crate::policy::access::explicit_access_comes_from_a_rule(
                rules,
                RuleScope::Resolved,
                resolved.components,
            );
        }
    }
}

/// A conflict is one that some rule causes: its own access, at or below the needed path in
/// either spelling.
pub proof fn conflicts_come_from_a_rule(rules: Seq<ResolvedRuleModel>, root: PathModel, resolved: PathModel)
    ensures
        internal_conflict(rules, root, resolved) matches Some(access) ==> {
            ||| crate::policy::access::explicit_access(rules, RuleScope::Lexical, root.components) == Some(access)
            ||| crate::policy::access::explicit_access(rules, RuleScope::Resolved, resolved.components) == Some(access)
            ||| exists|index: int|
                0 <= index < rules.len() && root.components.is_prefix_of(
                    (#[trigger] rules[index]).location(RuleScope::Lexical),
                ) && crate::policy::access::explicit_access(
                    rules,
                    RuleScope::Lexical,
                    rules[index].location(RuleScope::Lexical),
                ) == Some(access)
            ||| exists|index: int|
                0 <= index < rules.len() && resolved.components.is_prefix_of(
                    (#[trigger] rules[index]).location(RuleScope::Resolved),
                ) && crate::policy::access::explicit_access(
                    rules,
                    RuleScope::Resolved,
                    rules[index].location(RuleScope::Resolved),
                ) == Some(access)
        },
{
    if internal_conflict(rules, root, resolved) is Some {
        let access = internal_conflict(rules, root, resolved)->Some_0;
        if exists|index: int| nested_access(rules, RuleScope::Lexical, root.components, access, index) {
            let index = choose|index: int| nested_access(rules, RuleScope::Lexical, root.components, access, index);
            assert(root.components.is_prefix_of(rules[index].location(RuleScope::Lexical)));
        } else if exists|index: int| nested_access(rules, RuleScope::Resolved, resolved.components, access, index) {
            let index = choose|index: int|
                nested_access(rules, RuleScope::Resolved, resolved.components, access, index);
            assert(resolved.components.is_prefix_of(rules[index].location(RuleScope::Resolved)));
        }
    }
}

} // verus!
