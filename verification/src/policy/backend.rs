//! Policies that a native backend cannot enforce.

use crate::error::{SandboxError, SandboxErrorModel, SandboxFeature};
use crate::native::{components_start_with, ComponentModel, NativeString, NativeText, PathComponent};
use crate::policy::access::{
    explicit_access_at, ResolvedRule, ResolvedRuleModel, RuleScope,
};
use crate::types::{FileSystemBase, NetworkPolicy, PathAccess, PolicyModel, SandboxBackend, SandboxPolicy};
use vstd::prelude::*;
use vstd::string::*;

verus! {

/// An error that names what the backend cannot enforce.
pub fn unsupported(backend: SandboxBackend, feature: SandboxFeature, message: &str) -> (result: SandboxError)
    ensures
        result@ == (SandboxErrorModel::UnsupportedPolicy { backend, feature, message: message@ }),
{
    SandboxError::UnsupportedPolicy { backend, feature, message: message.to_owned() }
}

/// Why a backend refuses a policy.
pub struct Refusal {
    pub feature: SandboxFeature,
    pub message: Seq<char>,
}

impl Refusal {
    /// The error that reports the refusal.
    pub open spec fn error(self, backend: SandboxBackend) -> SandboxErrorModel {
        SandboxErrorModel::UnsupportedPolicy { backend, feature: self.feature, message: self.message }
    }
}

/// Whether some rule has this access.
pub open spec fn has_access(rules: Seq<ResolvedRuleModel>, access: PathAccess) -> bool {
    exists|index: int| 0 <= index < rules.len() && (#[trigger] rules[index]).rule.access == access
}

/// Whether one location lies below another one.
pub open spec fn strictly_below(inner: Seq<ComponentModel>, outer: Seq<ComponentModel>) -> bool {
    inner != outer && outer.is_prefix_of(inner)
}

/// Whether a writable rule lies above the location.
pub open spec fn has_writable_ancestor(
    rules: Seq<ResolvedRuleModel>,
    scope: RuleScope,
    location: Seq<ComponentModel>,
) -> bool {
    exists|index: int|
        0 <= index < rules.len() && (#[trigger] rules[index]).rule.access == PathAccess::Write
            && strictly_below(location, rules[index].location(scope))
}

/// Whether a rule below the location is writable and governs its own path.
pub open spec fn has_reopened_descendant(rules: Seq<ResolvedRuleModel>, location: Seq<ComponentModel>) -> bool {
    exists|index: int|
        0 <= index < rules.len() && (#[trigger] rules[index]).rule.access == PathAccess::Write
            && strictly_below(rules[index].resolved.components, location)
            && crate::policy::access::explicit_access(
            rules,
            RuleScope::Resolved,
            rules[index].resolved.components,
        ) == Some(PathAccess::Write)
}

/// Whether a read-only rule takes a part out of a writable root.
pub open spec fn carves_out_writable_parent(rules: Seq<ResolvedRuleModel>, rule: ResolvedRuleModel) -> bool {
    &&& rule.rule.access == PathAccess::Read
    &&& crate::policy::access::explicit_access(rules, RuleScope::Resolved, rule.resolved.components) == Some(
        PathAccess::Read,
    )
    &&& crate::policy::access::explicit_access(rules, RuleScope::Lexical, rule.rule.path.components) == Some(
        PathAccess::Read,
    )
    &&& has_writable_ancestor(rules, RuleScope::Resolved, rule.resolved.components) || has_writable_ancestor(
        rules,
        RuleScope::Lexical,
        rule.rule.path.components,
    )
}

/// Whether some read-only carveout of a writable root is reopened below.
pub open spec fn reopens_carveout(rules: Seq<ResolvedRuleModel>) -> bool {
    exists|index: int|
        0 <= index < rules.len() && carves_out_writable_parent(rules, #[trigger] rules[index])
            && has_reopened_descendant(rules, rules[index].resolved.components)
}

/// What the restricted-token backend cannot enforce.
pub open spec fn restricted_token_refusal(policy: PolicyModel, rules: Seq<ResolvedRuleModel>) -> Option<Refusal> {
    if policy.base == FileSystemBase::PlatformMinimal {
        Some(
            Refusal {
                feature: SandboxFeature::MinimalReadPolicy,
                message: "the restricted-token backend requires host filesystem reads"@,
            },
        )
    } else if has_access(rules, PathAccess::Deny) {
        Some(
            Refusal {
                feature: SandboxFeature::DeniedReadPaths,
                message: "the restricted-token backend cannot enforce read denials"@,
            },
        )
    } else if policy.network == NetworkPolicy::Denied {
        Some(
            Refusal {
                feature: SandboxFeature::NetworkDenial,
                message: "the restricted-token backend does not isolate direct network access"@,
            },
        )
    } else if reopens_carveout(rules) {
        Some(
            Refusal {
                feature: SandboxFeature::NestedAllowUnderDeny,
                message: "restricted-token ACLs cannot reopen a writable root below a read-only carveout"@,
            },
        )
    } else {
        None
    }
}

/// The components of a Unix path with one name below the root.
pub open spec fn top_level(name: Seq<char>) -> Seq<ComponentModel> {
    seq![ComponentModel::RootDir, ComponentModel::Normal(NativeText::Unicode(name))]
}

/// Whether one of the locations contains the other.
pub open spec fn overlaps(left: Seq<ComponentModel>, right: Seq<ComponentModel>) -> bool {
    left.is_prefix_of(right) || right.is_prefix_of(left)
}

/// Whether the rule at `index` is the first one that overlaps the location.
pub open spec fn first_overlap(
    rules: Seq<ResolvedRuleModel>,
    location: Seq<ComponentModel>,
    index: int,
) -> bool {
    &&& 0 <= index < rules.len()
    &&& overlaps(rules[index].resolved.components, location)
    &&& forall|earlier: int| 0 <= earlier < index ==> !overlaps((#[trigger] rules[earlier]).resolved.components, location)
}

/// Whether an allowed rule that `reopens` accepts lies below a denied one.
pub open spec fn allow_below_deny(rules: Seq<ResolvedRuleModel>, reads_only: bool) -> bool {
    exists|deny: int, allow: int|
        0 <= deny < rules.len() && 0 <= allow < rules.len() && (#[trigger] rules[deny]).rule.access
            == PathAccess::Deny && reopens((#[trigger] rules[allow]).rule.access, reads_only)
            && strictly_below(rules[allow].resolved.components, rules[deny].resolved.components)
}

/// Whether an access opens a path: any allowance, or reads alone.
pub open spec fn reopens(access: PathAccess, reads_only: bool) -> bool {
    if reads_only {
        access == PathAccess::Read
    } else {
        access != PathAccess::Deny
    }
}

/// Whether some writable rule names a filesystem root.
pub open spec fn writes_filesystem_root(rules: Seq<ResolvedRuleModel>) -> bool {
    exists|index: int|
        0 <= index < rules.len() && (#[trigger] rules[index]).rule.access == PathAccess::Write
            && !rules[index].rule.path.has_parent()
}

/// Whether some read-only rule meets bubblewrap's implicit writable device mount.
pub open spec fn reads_writable_dev(rules: Seq<ResolvedRuleModel>) -> bool {
    exists|index: int|
        0 <= index < rules.len() && (#[trigger] rules[index]).rule.access == PathAccess::Read
            && rules[index].probe.overlaps_writable_dev
}

/// What the bubblewrap backend cannot enforce.
pub open spec fn bubblewrap_refusal(rules: Seq<ResolvedRuleModel>) -> Option<Refusal> {
    if writes_filesystem_root(rules) {
        Some(
            Refusal {
                feature: SandboxFeature::DeniedWritePaths,
                message: "a writable filesystem root would bypass bubblewrap filesystem isolation"@,
            },
        )
    } else if reads_writable_dev(rules) {
        Some(
            Refusal {
                feature: SandboxFeature::DeniedWritePaths,
                message: "bubblewrap's implicit writable /dev mount overlaps a requested read-only rule"@,
            },
        )
    } else if exists|index: int| first_overlap(rules, top_level("proc"@), index) {
        let index = choose|index: int| first_overlap(rules, top_level("proc"@), index);
        Some(
            Refusal {
                feature: if rules[index].rule.access == PathAccess::Deny {
                    SandboxFeature::DeniedReadPaths
                } else {
                    SandboxFeature::DeniedWritePaths
                },
                message: "bubblewrap's required fresh procfs mount would replace this filesystem rule"@,
            },
        )
    } else if allow_below_deny(rules, true) {
        Some(
            Refusal {
                feature: SandboxFeature::NestedAllowUnderDeny,
                message: "bubblewrap cannot reopen a nested read-only allow under a deny"@,
            },
        )
    } else {
        None
    }
}

/// Whether some denial covers a whole filesystem.
pub open spec fn denies_filesystem_root(rules: Seq<ResolvedRuleModel>) -> bool {
    exists|index: int|
        0 <= index < rules.len() && (#[trigger] rules[index]).rule.access == PathAccess::Deny
            && !rules[index].resolved.has_parent()
}

/// Whether Seatbelt would allow writes below some read-only rule.
pub open spec fn seatbelt_reopens_writes(policy: PolicyModel, rules: Seq<ResolvedRuleModel>) -> bool {
    exists|index: int|
        0 <= index < rules.len() && (#[trigger] rules[index]).rule.access == PathAccess::Read && ((
        policy.base == FileSystemBase::PlatformMinimal && rules[index].probe.overlaps_platform_writes)
            || overlaps(rules[index].resolved.components, top_level("dev"@)))
}

/// What the Seatbelt backend cannot enforce.
pub open spec fn seatbelt_refusal(policy: PolicyModel, rules: Seq<ResolvedRuleModel>) -> Option<Refusal> {
    if denies_filesystem_root(rules) {
        Some(
            Refusal {
                feature: SandboxFeature::DeniedReadPaths,
                message: "Seatbelt cannot express a root deny without leaving platform allowances readable"@,
            },
        )
    } else if seatbelt_reopens_writes(policy, rules) {
        Some(
            Refusal {
                feature: SandboxFeature::DeniedWritePaths,
                message: "Seatbelt runtime allowances would reopen writes below this read-only rule"@,
            },
        )
    } else if allow_below_deny(rules, false) {
        Some(
            Refusal {
                feature: SandboxFeature::NestedAllowUnderDeny,
                message: "Seatbelt final deny rules cannot reopen a nested allow"@,
            },
        )
    } else {
        None
    }
}

/// What a backend cannot enforce of a policy.
pub open spec fn backend_refusal(
    policy: PolicyModel,
    rules: Seq<ResolvedRuleModel>,
    backend: SandboxBackend,
) -> Option<Refusal> {
    match backend {
        SandboxBackend::WindowsRestrictedToken => restricted_token_refusal(policy, rules),
        SandboxBackend::LinuxBubblewrap => bubblewrap_refusal(rules),
        SandboxBackend::MacosSeatbelt => seatbelt_refusal(policy, rules),
        SandboxBackend::LinuxLandlock => None,
        SandboxBackend::WindowsElevated => None,
    }
}

fn any_access(rules: &Vec<ResolvedRule>, access: PathAccess) -> (result: bool)
    ensures
        result == has_access(rules.deep_view(), access),
{
    let ghost models = rules.deep_view();
    for index in 0..rules.len()
        invariant
            models == rules.deep_view(),
            forall|i: int| 0 <= i < index ==> (#[trigger] models[i]).rule.access != access,
    {
        assert(models[index as int] == rules@[index as int].deep_view());
        if rules[index].rule.access == access {
            return true;
        }
    }
    false
}

fn location_strictly_below(inner: &Vec<PathComponent>, outer: &Vec<PathComponent>) -> (result: bool)
    ensures
        result == strictly_below(inner.deep_view(), outer.deep_view()),
{
    let result = outer.len() < inner.len() && components_start_with(inner, outer);
    proof {
        let below = inner.deep_view();
        let above = outer.deep_view();
        if above.is_prefix_of(below) && above.len() == below.len() {
            assert(below.subrange(0, above.len() as int) =~= below);
        }
    }
    result
}

fn any_writable_ancestor(rules: &Vec<ResolvedRule>, scope: RuleScope, location: &Vec<PathComponent>) -> (result: bool)
    ensures
        result == has_writable_ancestor(rules.deep_view(), scope, location.deep_view()),
{
    let ghost models = rules.deep_view();
    for index in 0..rules.len()
        invariant
            models == rules.deep_view(),
            forall|i: int|
                0 <= i < index ==> !((#[trigger] models[i]).rule.access == PathAccess::Write && strictly_below(
                    location.deep_view(),
                    models[i].location(scope),
                )),
    {
        assert(models[index as int] == rules@[index as int].deep_view());
        if rules[index].rule.access == PathAccess::Write && location_strictly_below(
            location,
            rules[index].location(scope),
        ) {
            return true;
        }
    }
    false
}

fn any_reopened_descendant(rules: &Vec<ResolvedRule>, location: &Vec<PathComponent>) -> (result: bool)
    ensures
        result == has_reopened_descendant(rules.deep_view(), location.deep_view()),
{
    let ghost models = rules.deep_view();
    for index in 0..rules.len()
        invariant
            models == rules.deep_view(),
            forall|i: int|
                0 <= i < index ==> !((#[trigger] models[i]).rule.access == PathAccess::Write && strictly_below(
                    models[i].resolved.components,
                    location.deep_view(),
                ) && crate::policy::access::explicit_access(
                    models,
                    RuleScope::Resolved,
                    models[i].resolved.components,
                ) == Some(PathAccess::Write)),
    {
        assert(models[index as int] == rules@[index as int].deep_view());
        if rules[index].rule.access == PathAccess::Write && location_strictly_below(
            &rules[index].resolved.components,
            location,
        ) && explicit_access_at(rules, RuleScope::Resolved, &rules[index].resolved.components) == Some(
            PathAccess::Write,
        ) {
            return true;
        }
    }
    false
}

fn any_reopened_carveout(rules: &Vec<ResolvedRule>) -> (result: bool)
    ensures
        result == reopens_carveout(rules.deep_view()),
{
    let ghost models = rules.deep_view();
    for index in 0..rules.len()
        invariant
            models == rules.deep_view(),
            forall|i: int|
                0 <= i < index ==> !(carves_out_writable_parent(models, #[trigger] models[i])
                    && has_reopened_descendant(models, models[i].resolved.components)),
    {
        let rule = &rules[index];
        assert(models[index as int] == rule@);
        let carves_out = rule.rule.access == PathAccess::Read && explicit_access_at(
            rules,
            RuleScope::Resolved,
            &rule.resolved.components,
        ) == Some(PathAccess::Read) && explicit_access_at(
            rules,
            RuleScope::Lexical,
            &rule.rule.path.components,
        ) == Some(PathAccess::Read) && (any_writable_ancestor(
            rules,
            RuleScope::Resolved,
            &rule.resolved.components,
        ) || any_writable_ancestor(rules, RuleScope::Lexical, &rule.rule.path.components));
        assert(carves_out == carves_out_writable_parent(models, models[index as int]));
        if carves_out && any_reopened_descendant(rules, &rule.resolved.components) {
            return true;
        }
    }
    false
}

fn top_level_location(name: &str) -> (result: Vec<PathComponent>)
    ensures
        result.deep_view() == top_level(name@),
{
    let mut location: Vec<PathComponent> = Vec::new();
    location.push(PathComponent::RootDir);
    location.push(PathComponent::Normal(NativeString::from_text(name)));
    assert(location.deep_view() =~= top_level(name@));
    location
}

fn locations_overlap(left: &Vec<PathComponent>, right: &Vec<PathComponent>) -> (result: bool)
    ensures
        result == overlaps(left.deep_view(), right.deep_view()),
{
    components_start_with(left, right) || components_start_with(right, left)
}

fn find_first_overlap(rules: &Vec<ResolvedRule>, location: &Vec<PathComponent>) -> (result: Option<usize>)
    ensures
        match result {
            Some(index) => first_overlap(rules.deep_view(), location.deep_view(), index as int),
            None => forall|index: int| !first_overlap(rules.deep_view(), location.deep_view(), index),
        },
{
    let ghost models = rules.deep_view();
    for index in 0..rules.len()
        invariant
            models == rules.deep_view(),
            forall|i: int|
                0 <= i < index ==> !overlaps((#[trigger] models[i]).resolved.components, location.deep_view()),
    {
        assert(models[index as int] == rules@[index as int].deep_view());
        if locations_overlap(&rules[index].resolved.components, location) {
            return Some(index);
        }
    }
    None
}

fn any_allow_below_deny(rules: &Vec<ResolvedRule>, reads_only: bool) -> (result: bool)
    ensures
        result == allow_below_deny(rules.deep_view(), reads_only),
{
    let ghost models = rules.deep_view();
    for deny in 0..rules.len()
        invariant
            models == rules.deep_view(),
            forall|d: int, a: int|
                0 <= d < deny && 0 <= a < models.len() && (#[trigger] models[d]).rule.access == PathAccess::Deny
                    && reopens((#[trigger] models[a]).rule.access, reads_only) ==> !strictly_below(
                    models[a].resolved.components,
                    models[d].resolved.components,
                ),
    {
        assert(models[deny as int] == rules@[deny as int].deep_view());
        if rules[deny].rule.access == PathAccess::Deny {
            for allow in 0..rules.len()
                invariant
                    models == rules.deep_view(),
                    deny < rules.len(),
                    models[deny as int].rule.access == PathAccess::Deny,
                    forall|a: int|
                        0 <= a < allow && reopens((#[trigger] models[a]).rule.access, reads_only)
                            ==> !strictly_below(
                            models[a].resolved.components,
                            models[deny as int].resolved.components,
                        ),
            {
                assert(models[allow as int] == rules@[allow as int].deep_view());
                assert(models[deny as int] == rules@[deny as int].deep_view());
                let access = rules[allow].rule.access;
                let opens = if reads_only {
                    access == PathAccess::Read
                } else {
                    access != PathAccess::Deny
                };
                if opens && location_strictly_below(
                    &rules[allow].resolved.components,
                    &rules[deny].resolved.components,
                ) {
                    assert(reopens(models[allow as int].rule.access, reads_only));
                    return true;
                }
            }
        }
    }
    false
}

fn any_root_write(rules: &Vec<ResolvedRule>) -> (result: bool)
    ensures
        result == writes_filesystem_root(rules.deep_view()),
{
    let ghost models = rules.deep_view();
    for index in 0..rules.len()
        invariant
            models == rules.deep_view(),
            forall|i: int|
                0 <= i < index ==> !((#[trigger] models[i]).rule.access == PathAccess::Write
                    && !models[i].rule.path.has_parent()),
    {
        assert(models[index as int] == rules@[index as int].deep_view());
        if rules[index].rule.access == PathAccess::Write && !rules[index].rule.path.has_parent() {
            return true;
        }
    }
    false
}

fn any_writable_dev_read(rules: &Vec<ResolvedRule>) -> (result: bool)
    ensures
        result == reads_writable_dev(rules.deep_view()),
{
    let ghost models = rules.deep_view();
    for index in 0..rules.len()
        invariant
            models == rules.deep_view(),
            forall|i: int|
                0 <= i < index ==> !((#[trigger] models[i]).rule.access == PathAccess::Read
                    && models[i].probe.overlaps_writable_dev),
    {
        assert(models[index as int] == rules@[index as int].deep_view());
        if rules[index].rule.access == PathAccess::Read && rules[index].probe.overlaps_writable_dev {
            return true;
        }
    }
    false
}

fn any_root_denial(rules: &Vec<ResolvedRule>) -> (result: bool)
    ensures
        result == denies_filesystem_root(rules.deep_view()),
{
    let ghost models = rules.deep_view();
    for index in 0..rules.len()
        invariant
            models == rules.deep_view(),
            forall|i: int|
                0 <= i < index ==> !((#[trigger] models[i]).rule.access == PathAccess::Deny
                    && !models[i].resolved.has_parent()),
    {
        assert(models[index as int] == rules@[index as int].deep_view());
        if rules[index].rule.access == PathAccess::Deny && !rules[index].resolved.has_parent() {
            return true;
        }
    }
    false
}

fn any_seatbelt_write(policy: &SandboxPolicy, rules: &Vec<ResolvedRule>) -> (result: bool)
    ensures
        result == seatbelt_reopens_writes(policy@, rules.deep_view()),
{
    let ghost models = rules.deep_view();
    let device_root = top_level_location("dev");
    let minimal = policy.filesystem.base == FileSystemBase::PlatformMinimal;
    for index in 0..rules.len()
        invariant
            models == rules.deep_view(),
            device_root.deep_view() == top_level("dev"@),
            minimal == (policy@.base == FileSystemBase::PlatformMinimal),
            forall|i: int|
                0 <= i < index ==> !((#[trigger] models[i]).rule.access == PathAccess::Read && ((policy@.base
                    == FileSystemBase::PlatformMinimal && models[i].probe.overlaps_platform_writes) || overlaps(
                    models[i].resolved.components,
                    top_level("dev"@),
                ))),
    {
        assert(models[index as int] == rules@[index as int].deep_view());
        if rules[index].rule.access == PathAccess::Read && ((minimal && rules[index].probe.overlaps_platform_writes)
            || locations_overlap(&rules[index].resolved.components, &device_root)) {
            return true;
        }
    }
    false
}

/// Checks that the backend can enforce every part of the policy.
pub fn validate_backend_policy(
    policy: &SandboxPolicy,
    resolved_rules: &Vec<ResolvedRule>,
    backend: SandboxBackend,
) -> (result: Result<(), SandboxError>)
    ensures
        match backend_refusal(policy@, resolved_rules.deep_view(), backend) {
            Some(refusal) => result matches Err(error) && error@ == refusal.error(backend),
            None => result is Ok,
        },
{
    if backend == SandboxBackend::WindowsRestrictedToken {
        if policy.filesystem.base == FileSystemBase::PlatformMinimal {
            return Err(
                unsupported(
                    backend,
                    SandboxFeature::MinimalReadPolicy,
                    "the restricted-token backend requires host filesystem reads",
                ),
            );
        }
        if any_access(resolved_rules, PathAccess::Deny) {
            return Err(
                unsupported(
                    backend,
                    SandboxFeature::DeniedReadPaths,
                    "the restricted-token backend cannot enforce read denials",
                ),
            );
        }
        if policy.network == NetworkPolicy::Denied {
            return Err(
                unsupported(
                    backend,
                    SandboxFeature::NetworkDenial,
                    "the restricted-token backend does not isolate direct network access",
                ),
            );
        }
        if any_reopened_carveout(resolved_rules) {
            return Err(
                unsupported(
                    backend,
                    SandboxFeature::NestedAllowUnderDeny,
                    "restricted-token ACLs cannot reopen a writable root below a read-only carveout",
                ),
            );
        }
    }
    if backend == SandboxBackend::LinuxBubblewrap {
        if any_root_write(resolved_rules) {
            return Err(
                unsupported(
                    backend,
                    SandboxFeature::DeniedWritePaths,
                    "a writable filesystem root would bypass bubblewrap filesystem isolation",
                ),
            );
        }
        if any_writable_dev_read(resolved_rules) {
            return Err(
                unsupported(
                    backend,
                    SandboxFeature::DeniedWritePaths,
                    "bubblewrap's implicit writable /dev mount overlaps a requested read-only rule",
                ),
            );
        }
        let proc_root = top_level_location("proc");
        if let Some(index) = find_first_overlap(resolved_rules, &proc_root) {
            let feature = match resolved_rules[index].rule.access {
                PathAccess::Deny => SandboxFeature::DeniedReadPaths,
                _ => SandboxFeature::DeniedWritePaths,
            };
            proof {
                let models = resolved_rules.deep_view();
                let chosen = choose|i: int| first_overlap(models, top_level("proc"@), i);
                assert(first_overlap(models, top_level("proc"@), index as int));
                assert(first_overlap(models, top_level("proc"@), chosen));
                assert(chosen == index) by {
                    if chosen < index {
                        assert(!overlaps(models[chosen].resolved.components, top_level("proc"@)));
                    } else if index < chosen {
                        assert(!overlaps(models[index as int].resolved.components, top_level("proc"@)));
                    }
                }
            }
            return Err(
                unsupported(
                    backend,
                    feature,
                    "bubblewrap's required fresh procfs mount would replace this filesystem rule",
                ),
            );
        }
        if any_allow_below_deny(resolved_rules, true) {
            return Err(
                unsupported(
                    backend,
                    SandboxFeature::NestedAllowUnderDeny,
                    "bubblewrap cannot reopen a nested read-only allow under a deny",
                ),
            );
        }
    }
    if backend == SandboxBackend::MacosSeatbelt {
        if any_root_denial(resolved_rules) {
            return Err(
                unsupported(
                    backend,
                    SandboxFeature::DeniedReadPaths,
                    "Seatbelt cannot express a root deny without leaving platform allowances readable",
                ),
            );
        }
        if any_seatbelt_write(policy, resolved_rules) {
            return Err(
                unsupported(
                    backend,
                    SandboxFeature::DeniedWritePaths,
                    "Seatbelt runtime allowances would reopen writes below this read-only rule",
                ),
            );
        }
        if any_allow_below_deny(resolved_rules, false) {
            return Err(
                unsupported(
                    backend,
                    SandboxFeature::NestedAllowUnderDeny,
                    "Seatbelt final deny rules cannot reopen a nested allow",
                ),
            );
        }
    }
    Ok(())
}

/// The restricted-token backend takes only policies with host reads, no denials,
/// and no network isolation: everything else would be silently unenforced.
pub proof fn restricted_token_never_weakens(policy: PolicyModel, rules: Seq<ResolvedRuleModel>)
    requires
        backend_refusal(policy, rules, SandboxBackend::WindowsRestrictedToken) is None,
    ensures
        policy.base == FileSystemBase::HostReadOnly,
        policy.network == NetworkPolicy::Unrestricted,
        forall|index: int| 0 <= index < rules.len() ==> (#[trigger] rules[index]).rule.access != PathAccess::Deny,
{
}

/// No accepted Seatbelt policy reopens anything below a denied location.
pub proof fn seatbelt_denials_are_final(policy: PolicyModel, rules: Seq<ResolvedRuleModel>, deny: int, other: int)
    requires
        backend_refusal(policy, rules, SandboxBackend::MacosSeatbelt) is None,
        0 <= deny < rules.len(),
        0 <= other < rules.len(),
        rules[deny].rule.access == PathAccess::Deny,
        strictly_below(rules[other].resolved.components, rules[deny].resolved.components),
    ensures
        rules[other].rule.access == PathAccess::Deny,
{
}

proof fn lemma_same_rule(left: Seq<ResolvedRuleModel>, right: Seq<ResolvedRuleModel>, index: int) -> (place: int)
    requires
        left.to_multiset() == right.to_multiset(),
        0 <= index < left.len(),
    ensures
        0 <= place < right.len(),
        right[place] == left[index],
{
    broadcast use vstd::seq_lib::group_to_multiset_ensures;

    assert(left.contains(left[index]));
    assert(left.to_multiset().count(left[index]) > 0);
    assert(right.contains(left[index]));
    choose|place: int| 0 <= place < right.len() && right[place] == left[index]
}

/// The access that rules give at a path does not depend on their order.
pub proof fn explicit_access_ignores_rule_order(
    left: Seq<ResolvedRuleModel>,
    right: Seq<ResolvedRuleModel>,
    scope: RuleScope,
    path: Seq<ComponentModel>,
)
    requires
        left.to_multiset() == right.to_multiset(),
    ensures
        crate::policy::access::explicit_access(left, scope, path) == crate::policy::access::explicit_access(
            right,
            scope,
            path,
        ),
{
    if exists|index: int| crate::policy::access::governs(left, scope, path, index) {
        let index = choose|index: int| crate::policy::access::governs(left, scope, path, index);
        lemma_governing_rule_moves(left, right, scope, path, index);
    } else if exists|index: int| crate::policy::access::governs(right, scope, path, index) {
        let index = choose|index: int| crate::policy::access::governs(right, scope, path, index);
        lemma_governing_rule_moves(right, left, scope, path, index);
    }
}

proof fn lemma_governing_rule_moves(
    left: Seq<ResolvedRuleModel>,
    right: Seq<ResolvedRuleModel>,
    scope: RuleScope,
    path: Seq<ComponentModel>,
    index: int,
)
    requires
        left.to_multiset() == right.to_multiset(),
        crate::policy::access::governs(left, scope, path, index),
    ensures
        crate::policy::access::explicit_access(left, scope, path) == crate::policy::access::explicit_access(
            right,
            scope,
            path,
        ),
{
    let place = lemma_same_rule(left, right, index);
    assert(crate::policy::access::covers(right, scope, path, place));
    assert forall|other: int| #[trigger]
        crate::policy::access::covers(right, scope, path, other) implies crate::policy::access::precedence_le(
        crate::policy::access::rule_precedence_at(right, scope, other),
        crate::policy::access::rule_precedence_at(right, scope, place),
    ) by {
        let source = lemma_same_rule(right, left, other);
        assert(crate::policy::access::covers(left, scope, path, source));
    }
    assert(crate::policy::access::governs(right, scope, path, place));
    crate::policy::access::governing_rule_decides(left, scope, path, index);
    crate::policy::access::governing_rule_decides(right, scope, path, place);
}

proof fn lemma_first_overlap_exists(rules: Seq<ResolvedRuleModel>, location: Seq<ComponentModel>, index: int)
    requires
        0 <= index < rules.len(),
        overlaps(rules[index].resolved.components, location),
    ensures
        exists|first: int| first_overlap(rules, location, first),
    decreases index,
{
    if forall|earlier: int| 0 <= earlier < index ==> !overlaps((#[trigger] rules[earlier]).resolved.components, location) {
        assert(first_overlap(rules, location, index));
    } else {
        let earlier = choose|earlier: int|
            0 <= earlier < index && overlaps((#[trigger] rules[earlier]).resolved.components, location);
        lemma_first_overlap_exists(rules, location, earlier);
    }
}

proof fn lemma_ancestor_moves(
    left: Seq<ResolvedRuleModel>,
    right: Seq<ResolvedRuleModel>,
    scope: RuleScope,
    location: Seq<ComponentModel>,
)
    requires
        left.to_multiset() == right.to_multiset(),
        has_writable_ancestor(left, scope, location),
    ensures
        has_writable_ancestor(right, scope, location),
{
    let index = choose|index: int|
        0 <= index < left.len() && (#[trigger] left[index]).rule.access == PathAccess::Write && strictly_below(
            location,
            left[index].location(scope),
        );
    let place = lemma_same_rule(left, right, index);
    assert(right[place].rule.access == PathAccess::Write);
}

proof fn lemma_reopened_carveout_moves(left: Seq<ResolvedRuleModel>, right: Seq<ResolvedRuleModel>)
    requires
        left.to_multiset() == right.to_multiset(),
        reopens_carveout(left),
    ensures
        reopens_carveout(right),
{
    let index = choose|index: int|
        0 <= index < left.len() && carves_out_writable_parent(left, #[trigger] left[index])
            && has_reopened_descendant(left, left[index].resolved.components);
    let rule = left[index];
    let location = rule.resolved.components;
    let place = lemma_same_rule(left, right, index);
    explicit_access_ignores_rule_order(left, right, RuleScope::Resolved, location);
    explicit_access_ignores_rule_order(left, right, RuleScope::Lexical, rule.rule.path.components);
    if has_writable_ancestor(left, RuleScope::Resolved, location) {
        lemma_ancestor_moves(left, right, RuleScope::Resolved, location);
    } else {
        lemma_ancestor_moves(left, right, RuleScope::Lexical, rule.rule.path.components);
    }
    let reopened = choose|index: int|
        0 <= index < left.len() && (#[trigger] left[index]).rule.access == PathAccess::Write && strictly_below(
            left[index].resolved.components,
            location,
        ) && crate::policy::access::explicit_access(
            left,
            RuleScope::Resolved,
            left[index].resolved.components,
        ) == Some(PathAccess::Write);
    let reopened_place = lemma_same_rule(left, right, reopened);
    explicit_access_ignores_rule_order(left, right, RuleScope::Resolved, left[reopened].resolved.components);
    assert(right[reopened_place].rule.access == PathAccess::Write);
    assert(carves_out_writable_parent(right, right[place]));
    assert(has_reopened_descendant(right, right[place].resolved.components));
}

proof fn lemma_nested_allow_moves(left: Seq<ResolvedRuleModel>, right: Seq<ResolvedRuleModel>, reads_only: bool)
    requires
        left.to_multiset() == right.to_multiset(),
        allow_below_deny(left, reads_only),
    ensures
        allow_below_deny(right, reads_only),
{
    let (deny, allow) = choose|deny: int, allow: int|
        0 <= deny < left.len() && 0 <= allow < left.len() && (#[trigger] left[deny]).rule.access == PathAccess::Deny
            && reopens((#[trigger] left[allow]).rule.access, reads_only) && strictly_below(
            left[allow].resolved.components,
            left[deny].resolved.components,
        );
    let deny_place = lemma_same_rule(left, right, deny);
    let allow_place = lemma_same_rule(left, right, allow);
    assert(right[deny_place].rule.access == PathAccess::Deny);
    assert(reopens(right[allow_place].rule.access, reads_only));
}

proof fn lemma_refusal_moves(
    policy: PolicyModel,
    left: Seq<ResolvedRuleModel>,
    right: Seq<ResolvedRuleModel>,
    backend: SandboxBackend,
)
    requires
        left.to_multiset() == right.to_multiset(),
        backend_refusal(policy, left, backend) is Some,
    ensures
        backend_refusal(policy, right, backend) is Some,
{
    match backend {
        SandboxBackend::WindowsRestrictedToken => {
            if has_access(left, PathAccess::Deny) {
                let index = choose|index: int|
                    0 <= index < left.len() && (#[trigger] left[index]).rule.access == PathAccess::Deny;
                let place = lemma_same_rule(left, right, index);
                assert(right[place].rule.access == PathAccess::Deny);
            } else if reopens_carveout(left) {
                lemma_reopened_carveout_moves(left, right);
            }
        },
        SandboxBackend::LinuxBubblewrap => {
            if writes_filesystem_root(left) {
                let index = choose|index: int|
                    0 <= index < left.len() && (#[trigger] left[index]).rule.access == PathAccess::Write
                        && !left[index].rule.path.has_parent();
                let place = lemma_same_rule(left, right, index);
                assert(right[place].rule.access == PathAccess::Write);
            } else if reads_writable_dev(left) {
                let index = choose|index: int|
                    0 <= index < left.len() && (#[trigger] left[index]).rule.access == PathAccess::Read
                        && left[index].probe.overlaps_writable_dev;
                let place = lemma_same_rule(left, right, index);
                assert(right[place].rule.access == PathAccess::Read);
            } else if exists|index: int| first_overlap(left, top_level("proc"@), index) {
                let index = choose|index: int| first_overlap(left, top_level("proc"@), index);
                let place = lemma_same_rule(left, right, index);
                lemma_first_overlap_exists(right, top_level("proc"@), place);
            } else {
                lemma_nested_allow_moves(left, right, true);
            }
        },
        SandboxBackend::MacosSeatbelt => {
            if denies_filesystem_root(left) {
                let index = choose|index: int|
                    0 <= index < left.len() && (#[trigger] left[index]).rule.access == PathAccess::Deny
                        && !left[index].resolved.has_parent();
                let place = lemma_same_rule(left, right, index);
                assert(right[place].rule.access == PathAccess::Deny);
            } else if seatbelt_reopens_writes(policy, left) {
                let index = choose|index: int|
                    0 <= index < left.len() && (#[trigger] left[index]).rule.access == PathAccess::Read && ((
                    policy.base == FileSystemBase::PlatformMinimal && left[index].probe.overlaps_platform_writes)
                        || overlaps(left[index].resolved.components, top_level("dev"@)));
                let place = lemma_same_rule(left, right, index);
                assert(right[place].rule.access == PathAccess::Read);
            } else {
                lemma_nested_allow_moves(left, right, false);
            }
        },
        _ => {},
    }
}

/// Whether a backend accepts a policy does not depend on the order of its rules.
pub proof fn acceptance_ignores_rule_order(
    policy: PolicyModel,
    left: Seq<ResolvedRuleModel>,
    right: Seq<ResolvedRuleModel>,
    backend: SandboxBackend,
)
    requires
        left.to_multiset() == right.to_multiset(),
    ensures
        backend_refusal(policy, left, backend) is None <==> backend_refusal(policy, right, backend) is None,
{
    if backend_refusal(policy, left, backend) is Some {
        lemma_refusal_moves(policy, left, right, backend);
    }
    if backend_refusal(policy, right, backend) is Some {
        lemma_refusal_moves(policy, right, left, backend);
    }
}

/// Whether one location is the other one or lies above it.
pub open spec fn stands_above(upper: Seq<ComponentModel>, lower: Seq<ComponentModel>) -> bool {
    upper.len() <= lower.len() && forall|index: int| 0 <= index < upper.len() ==> upper[index] == lower[index]
}

proof fn lemma_stands_above(upper: Seq<ComponentModel>, lower: Seq<ComponentModel>)
    ensures
        stands_above(upper, lower) == upper.is_prefix_of(lower),
{
    if upper.is_prefix_of(lower) {
        assert forall|index: int| 0 <= index < upper.len() implies upper[index] == lower[index] by {
            assert(lower.subrange(0, upper.len() as int)[index] == upper[index]);
        }
    }
    if stands_above(upper, lower) {
        assert(upper =~= lower.subrange(0, upper.len() as int));
    }
}

/// Bubblewrap accepts a policy exactly when no rule would open the whole filesystem for
/// writing, be weakened by the device mount, be replaced by the fresh process filesystem,
/// or ask for reads below a denial. Nothing else is refused, whatever the network.
pub proof fn bubblewrap_accepts_what_it_enforces(policy: PolicyModel, rules: Seq<ResolvedRuleModel>)
    ensures
        backend_refusal(policy, rules, SandboxBackend::LinuxBubblewrap) is None <==> {
            &&& forall|index: int|
                0 <= index < rules.len() ==> {
                    let rule = #[trigger] rules[index];
                    &&& rule.rule.access == PathAccess::Write ==> rule.rule.path.has_parent()
                    &&& rule.rule.access == PathAccess::Read ==> !rule.probe.overlaps_writable_dev
                    &&& !stands_above(rule.resolved.components, top_level("proc"@))
                    &&& !stands_above(top_level("proc"@), rule.resolved.components)
                }
            &&& forall|deny: int, allow: int|
                0 <= deny < rules.len() && 0 <= allow < rules.len() && (#[trigger] rules[deny]).rule.access
                    == PathAccess::Deny && (#[trigger] rules[allow]).rule.access == PathAccess::Read ==> {
                    ||| rules[allow].resolved.components == rules[deny].resolved.components
                    ||| !stands_above(rules[deny].resolved.components, rules[allow].resolved.components)
                }
        },
        backend_refusal(policy, rules, SandboxBackend::LinuxBubblewrap) matches Some(refusal) ==> {
            &&& refusal.feature == SandboxFeature::DeniedReadPaths || refusal.feature == SandboxFeature::DeniedWritePaths
                || refusal.feature == SandboxFeature::NestedAllowUnderDeny
            &&& refusal.feature == SandboxFeature::DeniedReadPaths ==> has_access(rules, PathAccess::Deny)
        },
        top_level("proc"@) == seq![
            ComponentModel::RootDir,
            ComponentModel::Normal(NativeText::Unicode("proc"@)),
        ],
{
    let proc_location = top_level("proc"@);
    assert forall|index: int| 0 <= index < rules.len() implies overlaps(
        (#[trigger] rules[index]).resolved.components,
        proc_location,
    ) == (stands_above(rules[index].resolved.components, proc_location) || stands_above(
        proc_location,
        rules[index].resolved.components,
    )) by {
        lemma_stands_above(rules[index].resolved.components, proc_location);
        lemma_stands_above(proc_location, rules[index].resolved.components);
    }
    assert forall|deny: int, allow: int| 0 <= deny < rules.len() && 0 <= allow < rules.len() implies strictly_below(
        (#[trigger] rules[allow]).resolved.components,
        (#[trigger] rules[deny]).resolved.components,
    ) == (rules[allow].resolved.components != rules[deny].resolved.components && stands_above(
        rules[deny].resolved.components,
        rules[allow].resolved.components,
    )) by {
        lemma_stands_above(rules[deny].resolved.components, rules[allow].resolved.components);
    }
    if exists|index: int| 0 <= index < rules.len() && overlaps((#[trigger] rules[index]).resolved.components, proc_location) {
        let index = choose|index: int|
            0 <= index < rules.len() && overlaps((#[trigger] rules[index]).resolved.components, proc_location);
        lemma_first_overlap_exists(rules, proc_location, index);
    }
}

/// Seatbelt accepts a policy exactly when no rule denies a whole filesystem, no read-only
/// rule is reopened by what every launch may write, and nothing is allowed below a denial.
/// Nothing else is refused, whatever the network.
pub proof fn seatbelt_accepts_what_it_enforces(policy: PolicyModel, rules: Seq<ResolvedRuleModel>)
    ensures
        backend_refusal(policy, rules, SandboxBackend::MacosSeatbelt) is None <==> {
            &&& forall|index: int|
                0 <= index < rules.len() ==> {
                    let rule = #[trigger] rules[index];
                    &&& rule.rule.access == PathAccess::Deny ==> rule.resolved.has_parent()
                    &&& rule.rule.access == PathAccess::Read ==> {
                        &&& !stands_above(rule.resolved.components, top_level("dev"@))
                        &&& !stands_above(top_level("dev"@), rule.resolved.components)
                        &&& policy.base == FileSystemBase::PlatformMinimal ==> !rule.probe.overlaps_platform_writes
                    }
                }
            &&& forall|deny: int, allow: int|
                0 <= deny < rules.len() && 0 <= allow < rules.len() && (#[trigger] rules[deny]).rule.access
                    == PathAccess::Deny && (#[trigger] rules[allow]).rule.access != PathAccess::Deny ==> {
                    ||| rules[allow].resolved.components == rules[deny].resolved.components
                    ||| !stands_above(rules[deny].resolved.components, rules[allow].resolved.components)
                }
        },
        backend_refusal(policy, rules, SandboxBackend::MacosSeatbelt) matches Some(refusal) ==> {
            &&& refusal.feature == SandboxFeature::DeniedReadPaths ==> has_access(rules, PathAccess::Deny)
            &&& refusal.feature == SandboxFeature::DeniedWritePaths ==> has_access(rules, PathAccess::Read)
            &&& refusal.feature == SandboxFeature::DeniedReadPaths || refusal.feature == SandboxFeature::DeniedWritePaths
                || refusal.feature == SandboxFeature::NestedAllowUnderDeny
        },
{
    let dev = top_level("dev"@);
    assert forall|index: int| 0 <= index < rules.len() implies overlaps(
        (#[trigger] rules[index]).resolved.components,
        dev,
    ) == (stands_above(rules[index].resolved.components, dev) || stands_above(
        dev,
        rules[index].resolved.components,
    )) by {
        lemma_stands_above(rules[index].resolved.components, dev);
        lemma_stands_above(dev, rules[index].resolved.components);
    }
    assert forall|deny: int, allow: int| 0 <= deny < rules.len() && 0 <= allow < rules.len() implies strictly_below(
        (#[trigger] rules[allow]).resolved.components,
        (#[trigger] rules[deny]).resolved.components,
    ) == (rules[allow].resolved.components != rules[deny].resolved.components && stands_above(
        rules[deny].resolved.components,
        rules[allow].resolved.components,
    )) by {
        lemma_stands_above(rules[deny].resolved.components, rules[allow].resolved.components);
    }
}

/// The restricted-token backend refuses a policy for the first of these that holds, and
/// otherwise only for a writable rule below a read-only one: it does not read the whole
/// host, it denies a path, it denies the network. A policy with host reads, an open
/// network, no denial and no writable rule below a read-only one is accepted.
pub proof fn restricted_token_refuses_what_it_cannot_enforce(policy: PolicyModel, rules: Seq<ResolvedRuleModel>)
    ensures
        policy.base == FileSystemBase::PlatformMinimal ==> (backend_refusal(
            policy,
            rules,
            SandboxBackend::WindowsRestrictedToken,
        ) matches Some(refusal) && refusal.feature == SandboxFeature::MinimalReadPolicy),
        policy.base == FileSystemBase::HostReadOnly && (exists|index: int|
            0 <= index < rules.len() && (#[trigger] rules[index]).rule.access == PathAccess::Deny) ==> (
        backend_refusal(policy, rules, SandboxBackend::WindowsRestrictedToken) matches Some(refusal) && refusal.feature
            == SandboxFeature::DeniedReadPaths),
        policy.base == FileSystemBase::HostReadOnly && policy.network == NetworkPolicy::Denied && (forall|index: int|
            0 <= index < rules.len() ==> (#[trigger] rules[index]).rule.access != PathAccess::Deny) ==> (
        backend_refusal(policy, rules, SandboxBackend::WindowsRestrictedToken) matches Some(refusal) && refusal.feature
            == SandboxFeature::NetworkDenial),
        policy.base == FileSystemBase::HostReadOnly && policy.network == NetworkPolicy::Unrestricted && (forall|
            index: int|
            0 <= index < rules.len() ==> (#[trigger] rules[index]).rule.access != PathAccess::Deny) && (forall|
            upper: int,
            lower: int,
        |
            0 <= upper < rules.len() && 0 <= lower < rules.len() && (#[trigger] rules[upper]).rule.access
                == PathAccess::Read && (#[trigger] rules[lower]).rule.access == PathAccess::Write ==> !stands_above(
                rules[upper].resolved.components,
                rules[lower].resolved.components,
            )) ==> backend_refusal(policy, rules, SandboxBackend::WindowsRestrictedToken) is None,
{
    if reopens_carveout(rules) {
        let upper = choose|index: int|
            0 <= index < rules.len() && carves_out_writable_parent(rules, #[trigger] rules[index])
                && has_reopened_descendant(rules, rules[index].resolved.components);
        let location = rules[upper].resolved.components;
        let lower = choose|index: int|
            0 <= index < rules.len() && (#[trigger] rules[index]).rule.access == PathAccess::Write && strictly_below(
                rules[index].resolved.components,
                location,
            ) && crate::policy::access::explicit_access(
                rules,
                RuleScope::Resolved,
                rules[index].resolved.components,
            ) == Some(PathAccess::Write);
        lemma_stands_above(rules[upper].resolved.components, rules[lower].resolved.components);
    }
}

/// The restricted-token backend never accepts a writable root that is reopened below a
/// read-only part of it: three rules that stand below one another, write, read and write,
/// at places where no other rule stands, are refused whatever else is asked for.
pub proof fn restricted_token_refuses_reopened_parts(
    policy: PolicyModel,
    rules: Seq<ResolvedRuleModel>,
    outer: int,
    part: int,
    inner: int,
)
    requires
        0 <= outer < rules.len(),
        0 <= part < rules.len(),
        0 <= inner < rules.len(),
        rules[outer].rule.access == PathAccess::Write,
        rules[part].rule.access == PathAccess::Read,
        rules[inner].rule.access == PathAccess::Write,
        rules[outer].resolved.components != rules[part].resolved.components,
        rules[part].resolved.components != rules[inner].resolved.components,
        stands_above(rules[outer].resolved.components, rules[part].resolved.components),
        stands_above(rules[part].resolved.components, rules[inner].resolved.components),
        forall|other: int|
            0 <= other < rules.len() && other != part ==> (#[trigger] rules[other]).resolved.components
                != rules[part].resolved.components && rules[other].rule.path.components
                != rules[part].rule.path.components,
        forall|other: int|
            0 <= other < rules.len() && other != inner ==> (#[trigger] rules[other]).resolved.components
                != rules[inner].resolved.components,
    ensures
        backend_refusal(policy, rules, SandboxBackend::WindowsRestrictedToken) is Some,
{
    let part_location = rules[part].resolved.components;
    let inner_location = rules[inner].resolved.components;
    lemma_stands_above(rules[outer].resolved.components, part_location);
    lemma_stands_above(part_location, inner_location);
    lemma_sole_rule_decides(rules, RuleScope::Resolved, part);
    lemma_sole_rule_decides(rules, RuleScope::Lexical, part);
    lemma_sole_rule_decides(rules, RuleScope::Resolved, inner);
    assert(has_writable_ancestor(rules, RuleScope::Resolved, part_location)) by {
        assert(strictly_below(part_location, rules[outer].location(RuleScope::Resolved)));
    }
    assert(carves_out_writable_parent(rules, rules[part]));
    assert(strictly_below(rules[inner].resolved.components, part_location));
    assert(has_reopened_descendant(rules, part_location));
    assert(reopens_carveout(rules));
}

proof fn lemma_sole_rule_decides(rules: Seq<ResolvedRuleModel>, scope: RuleScope, index: int)
    requires
        0 <= index < rules.len(),
        forall|other: int|
            0 <= other < rules.len() && other != index ==> (#[trigger] rules[other]).location(scope)
                != rules[index].location(scope),
    ensures
        crate::policy::access::explicit_access(rules, scope, rules[index].location(scope)) == Some(
            rules[index].rule.access,
        ),
{
    let path = rules[index].location(scope);
    assert(path.subrange(0, path.len() as int) =~= path);
    assert forall|other: int|
        0 <= other < rules.len() && (#[trigger] rules[other]).location(scope).is_prefix_of(path) && other
            != index implies rules[other].location(scope).len() < path.len() by {
        lemma_stands_above(rules[other].location(scope), path);
        if rules[other].location(scope).len() == path.len() {
            assert(rules[other].location(scope) =~= path);
        }
    }
    crate::policy::access::the_deepest_strictest_rule_decides(rules, scope, path, index);
}

/// The other backends refuse nothing by themselves.
pub proof fn other_backends_refuse_nothing(policy: PolicyModel, rules: Seq<ResolvedRuleModel>)
    ensures
        backend_refusal(policy, rules, SandboxBackend::LinuxLandlock) is None,
        backend_refusal(policy, rules, SandboxBackend::WindowsElevated) is None,
{
}

/// A refusal of bubblewrap names what it cannot do: keep a path from being written where a
/// filesystem root is writable or the device mount meets a read-only rule; keep the access
/// of the first rule at the process filesystem; and else reopen reads below a denial.
pub proof fn bubblewrap_refusals_name_their_feature(policy: PolicyModel, rules: Seq<ResolvedRuleModel>, index: int)
    requires
        0 <= index < rules.len(),
    ensures
        ({
            let refusal = backend_refusal(policy, rules, SandboxBackend::LinuxBubblewrap);
            let location = seq![ComponentModel::RootDir, ComponentModel::Normal(NativeText::Unicode("proc"@))];
            let weakened = exists|other: int|
                0 <= other < rules.len() && {
                    let rule = #[trigger] rules[other];
                    ||| rule.rule.access == PathAccess::Write && !rule.rule.path.has_parent()
                    ||| rule.rule.access == PathAccess::Read && rule.probe.overlaps_writable_dev
                };
            &&& weakened ==> (refusal matches Some(refused) && refused.feature == SandboxFeature::DeniedWritePaths)
            &&& !weakened && overlaps(rules[index].resolved.components, location) && (forall|earlier: int|
                0 <= earlier < index ==> !overlaps((#[trigger] rules[earlier]).resolved.components, location)) ==> (
            refusal matches Some(refused) && refused.feature == if rules[index].rule.access == PathAccess::Deny {
                SandboxFeature::DeniedReadPaths
            } else {
                SandboxFeature::DeniedWritePaths
            })
            &&& !weakened && (forall|other: int|
                0 <= other < rules.len() ==> !overlaps((#[trigger] rules[other]).resolved.components, location))
                && refusal is Some ==> refusal->Some_0.feature == SandboxFeature::NestedAllowUnderDeny
        }),
{
    let location = top_level("proc"@);
    if exists|other: int| first_overlap(rules, location, other) {
        let first = choose|other: int| first_overlap(rules, location, other);
        assert(overlaps(rules[first].resolved.components, location));
        if first_overlap(rules, location, index) {
            if first < index {
                assert(!overlaps(rules[first].resolved.components, location));
            } else if index < first {
                assert(!overlaps(rules[index].resolved.components, location));
            }
        }
    }
    if overlaps(rules[index].resolved.components, location) && (forall|earlier: int|
        0 <= earlier < index ==> !overlaps((#[trigger] rules[earlier]).resolved.components, location)) {
        assert(first_overlap(rules, location, index));
    }
}

/// A refusal of Seatbelt names what it cannot do: deny a whole filesystem, keep what its
/// own allowances write read-only, and else allow anything below a denial.
pub proof fn seatbelt_refusals_name_their_feature(policy: PolicyModel, rules: Seq<ResolvedRuleModel>)
    ensures
        ({
            let refusal = backend_refusal(policy, rules, SandboxBackend::MacosSeatbelt);
            let location = seq![ComponentModel::RootDir, ComponentModel::Normal(NativeText::Unicode("dev"@))];
            let denied = exists|index: int|
                0 <= index < rules.len() && (#[trigger] rules[index]).rule.access == PathAccess::Deny
                    && !rules[index].resolved.has_parent();
            let reopened = exists|index: int|
                0 <= index < rules.len() && (#[trigger] rules[index]).rule.access == PathAccess::Read && (overlaps(
                    rules[index].resolved.components,
                    location,
                ) || (policy.base == FileSystemBase::PlatformMinimal && rules[index].probe.overlaps_platform_writes));
            &&& denied ==> (refusal matches Some(refused) && refused.feature == SandboxFeature::DeniedReadPaths)
            &&& !denied && reopened ==> (refusal matches Some(refused) && refused.feature
                == SandboxFeature::DeniedWritePaths)
            &&& !denied && !reopened && refusal is Some ==> refusal->Some_0.feature
                == SandboxFeature::NestedAllowUnderDeny
        }),
{
    assert(top_level("dev"@) =~= seq![ComponentModel::RootDir, ComponentModel::Normal(NativeText::Unicode("dev"@))]);
}

} // verus!
