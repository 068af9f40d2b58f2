//! What holds of every prepared policy.

use crate::error::SandboxErrorModel;
use crate::model;
use crate::model::Step;
use crate::native::{ComponentModel, PathModel};
use crate::policy::access::{ResolvedRuleModel, RuleScope};
use crate::policy::host::{InternalRootModel, MetadataResolutionModel, PresenceModel, ResolutionModel, RuleProbeModel};
use crate::policy::linux::CrossingsModel;
use crate::policy::prepare::{
    EntryModel, FileSystemAccessMode, FileSystemPathModel, FileSystemSpecialPath, NetworkSandboxPolicy,
};
use crate::types::{
    FileSystemBase, MissingPathBehavior, NetworkPolicy, PathAccess, PolicyModel, RuleModel, SandboxBackend,
};
use vstd::prelude::*;

verus! {

/// A rule that may be missing, and is, changes nothing: the policy prepares as it
/// does without the rule.
pub proof fn ignored_missing_rule_changes_nothing(
    policy: PolicyModel,
    probes: Seq<RuleProbeModel>,
    index: int,
    cwd: PathModel,
    backend: SandboxBackend,
    roots: Seq<InternalRootModel>,
    crossings: CrossingsModel,
)
    requires
        policy.rules.len() == probes.len(),
        0 <= index < policy.rules.len(),
        policy.rules[index].path.absolute,
        policy.rules[index].missing == MissingPathBehavior::Ignore,
        probes[index].presence is Missing,
    ensures
        crate::policy::prepare::prepared(policy, probes, cwd, backend, roots, crossings)
            == crate::policy::prepare::prepared(
            PolicyModel { rules: policy.rules.remove(index), ..policy },
            probes.remove(index),
            cwd,
            backend,
            roots,
            crossings,
        ),
{
    let with = crate::policy::prepare::rule_steps(policy.rules, probes);
    let without = crate::policy::prepare::rule_steps(policy.rules.remove(index), probes.remove(index));
    let before = with.take(index);
    let after = with.skip(index + 1);
    let skip = seq![Step::<ResolvedRuleModel, SandboxErrorModel>::Skip];
    assert(with[index] == Step::<ResolvedRuleModel, SandboxErrorModel>::Skip);
    assert(with =~= before + skip + after);
    assert(without =~= before + after);
    model::lemma_collected_concat(before + skip, after);
    model::lemma_collected_concat(before, skip);
    model::lemma_collected_concat(before, after);
    reveal_with_fuel(model::collected, 2);
    assert(model::collected(skip) == Ok::<Seq<ResolvedRuleModel>, SandboxErrorModel>(Seq::empty()));
    if let Ok(kept) = model::collected(before) {
        assert(kept + Seq::empty() =~= kept);
    }
}

/// Every rule of a prepared policy has an absolute path that is valid Unicode.
pub proof fn prepared_rules_are_absolute_unicode(
    rules: Seq<RuleModel>,
    probes: Seq<RuleProbeModel>,
    kept: Seq<ResolvedRuleModel>,
    index: int,
)
    requires
        rules.len() == probes.len(),
        model::collected(crate::policy::prepare::rule_steps(rules, probes)) == Ok::<
            Seq<ResolvedRuleModel>,
            SandboxErrorModel,
        >(kept),
        0 <= index < kept.len(),
    ensures
        kept[index].rule.path.absolute,
        kept[index].rule.path.text.is_unicode(),
        kept[index].resolved.text.is_unicode(),
        kept[index].probe.presence is Present,
{
    let steps = crate::policy::prepare::rule_steps(rules, probes);
    let source = model::lemma_collected_source(steps, index);
    assert(steps[source] == crate::policy::prepare::rule_step(rules[source], probes[source]));
}

/// A policy is prepared only if no rule denies or opens for writing anything at or
/// below a path that the backend itself needs, in either spelling.
pub proof fn internal_roots_stay_protected(
    policy: PolicyModel,
    probes: Seq<RuleProbeModel>,
    cwd: PathModel,
    backend: SandboxBackend,
    roots: Seq<InternalRootModel>,
    crossings: CrossingsModel,
    rules: Seq<ResolvedRuleModel>,
    index: int,
    access: PathAccess,
)
    requires
        crate::policy::prepare::prepared(policy, probes, cwd, backend, roots, crossings) is Ok,
        model::collected(crate::policy::prepare::rule_steps(policy.rules, probes)) == Ok::<
            Seq<ResolvedRuleModel>,
            SandboxErrorModel,
        >(rules),
        0 <= index < roots.len(),
        access != PathAccess::Read,
    ensures
        roots[index].resolution is Resolved,
        !crate::policy::internal::internal_reached(
            rules,
            roots[index].path,
            roots[index].resolution->Resolved_0,
            access,
        ),
{
    let steps = crate::policy::prepare::internal_steps(rules, roots, backend);
    model::lemma_collected_has_no_failure(steps, index);
    assert(steps[index] == crate::policy::prepare::internal_step(rules, roots[index], backend));
}

/// A prepared policy restricts the network exactly when the request denies it.
pub proof fn network_denial_is_kept(
    policy: PolicyModel,
    probes: Seq<RuleProbeModel>,
    cwd: PathModel,
    backend: SandboxBackend,
    roots: Seq<InternalRootModel>,
    crossings: CrossingsModel,
)
    requires
        crate::policy::prepare::prepared(policy, probes, cwd, backend, roots, crossings) is Ok,
    ensures
        crate::policy::prepare::prepared(policy, probes, cwd, backend, roots, crossings)->Ok_0.network
            == NetworkSandboxPolicy::Restricted <==> policy.network == NetworkPolicy::Denied,
{
}

/// No path of a policy that is prepared for bubblewrap crosses a writable symlink: a policy
/// for which the host found any is refused.
pub proof fn prepared_paths_are_stable(
    policy: PolicyModel,
    probes: Seq<RuleProbeModel>,
    cwd: PathModel,
    roots: Seq<InternalRootModel>,
    crossings: CrossingsModel,
    index: int,
)
    requires
        crate::policy::prepare::prepared(policy, probes, cwd, SandboxBackend::LinuxBubblewrap, roots, crossings) is Ok,
    ensures
        0 <= index < crossings.read_only.len() ==> crossings.read_only[index] is None,
        0 <= index < crossings.unreadable.len() ==> crossings.unreadable[index] is None,
{
    if 0 <= index < crossings.read_only.len() {
        crate::policy::linux::lemma_no_symlink(crossings.read_only, index);
    }
    if 0 <= index < crossings.unreadable.len() {
        crate::policy::linux::lemma_no_symlink(crossings.unreadable, index);
    }
}

/// The number of items that the steps before `index` keep.
spec fn kept_before(steps: Seq<Step<ResolvedRuleModel, SandboxErrorModel>>, index: int) -> int
    decreases index,
{
    if index <= 0 {
        0
    } else {
        kept_before(steps, index - 1) + if steps[index - 1] is Keep {
            1int
        } else {
            0
        }
    }
}

proof fn lemma_kept_place(steps: Seq<Step<ResolvedRuleModel, SandboxErrorModel>>, index: int)
    requires
        model::collected(steps) is Ok,
        0 <= index < steps.len(),
        steps[index] is Keep,
    ensures
        0 <= kept_before(steps, index) < model::collected(steps)->Ok_0.len(),
        steps[index] == Step::<ResolvedRuleModel, SandboxErrorModel>::Keep(
            model::collected(steps)->Ok_0[kept_before(steps, index)],
        ),
        model::collected(steps.take(index)) is Ok,
        model::collected(steps.take(index))->Ok_0.len() == kept_before(steps, index),
    decreases steps.len(),
{
    lemma_kept_count(steps);
    let last = steps.len() - 1;
    let shorter = steps.drop_last();
    assert(steps.take(last) =~= shorter);
    if index < last {
        lemma_kept_place(shorter, index);
        lemma_same_count(steps, shorter, index);
        assert(shorter.take(index) =~= steps.take(index));
    } else {
        lemma_kept_count(shorter);
        lemma_same_count(steps, shorter, index);
    }
}

proof fn lemma_same_count(
    left: Seq<Step<ResolvedRuleModel, SandboxErrorModel>>,
    right: Seq<Step<ResolvedRuleModel, SandboxErrorModel>>,
    index: int,
)
    requires
        0 <= index <= left.len(),
        index <= right.len(),
        forall|i: int| 0 <= i < index ==> left[i] == right[i],
    ensures
        kept_before(left, index) == kept_before(right, index),
    decreases index,
{
    if index > 0 {
        lemma_same_count(left, right, index - 1);
    }
}

proof fn lemma_kept_count(steps: Seq<Step<ResolvedRuleModel, SandboxErrorModel>>)
    requires
        model::collected(steps) is Ok,
    ensures
        model::collected(steps)->Ok_0.len() == kept_before(steps, steps.len() as int),
    decreases steps.len(),
{
    if steps.len() > 0 {
        lemma_kept_count(steps.drop_last());
        lemma_same_count(steps, steps.drop_last(), steps.len() - 1);
    }
}

proof fn lemma_kept_before_grows(steps: Seq<Step<ResolvedRuleModel, SandboxErrorModel>>, first: int, second: int)
    requires
        0 <= first < second < steps.len(),
        steps[first] is Keep,
    ensures
        kept_before(steps, first) < kept_before(steps, second),
    decreases second,
{
    if first < second - 1 {
        lemma_kept_before_grows(steps, first, second - 1);
    }
}

proof fn lemma_rule_entry_place(rules: Seq<ResolvedRuleModel>, backend: SandboxBackend, index: int)
    requires
        0 <= index < rules.len(),
    ensures
        ({
            let place = crate::policy::prepare::entries_of_rules(rules.take(index), backend).len();
            let entries = crate::policy::prepare::entries_of_rules(rules, backend);
            &&& place < entries.len()
            &&& entries[place as int] == crate::policy::prepare::entries_of_rule(rules[index].rule, backend)[0]
            &&& backend == SandboxBackend::MacosSeatbelt && rules[index].rule.access == PathAccess::Deny ==> place + 1
                < entries.len() && entries[place as int + 1] == crate::policy::prepare::entries_of_rule(
                rules[index].rule,
                backend,
            )[1]
        }),
    decreases rules.len(),
{
    let last = rules.len() - 1;
    if index < last {
        let shorter = rules.drop_last();
        lemma_rule_entry_place(shorter, backend, index);
        assert(shorter.take(index) =~= rules.take(index));
    } else {
        assert(rules.take(index) =~= rules.drop_last());
    }
}

proof fn lemma_rule_entries_grow(rules: Seq<ResolvedRuleModel>, backend: SandboxBackend, first: int, second: int)
    requires
        0 <= first < second <= rules.len(),
    ensures
        crate::policy::prepare::entries_of_rules(rules.take(first), backend).len()
            < crate::policy::prepare::entries_of_rules(rules.take(second), backend).len(),
    decreases second,
{
    model::lemma_take_push(rules, second - 1);
    if first < second - 1 {
        lemma_rule_entries_grow(rules, backend, first, second - 1);
    }
}

proof fn lemma_rule_entry_source(rules: Seq<ResolvedRuleModel>, backend: SandboxBackend, place: int) -> (source: int)
    requires
        0 <= place < crate::policy::prepare::entries_of_rules(rules, backend).len(),
    ensures
        0 <= source < rules.len(),
        crate::policy::prepare::entries_of_rule(rules[source].rule, backend).contains(
            crate::policy::prepare::entries_of_rules(rules, backend)[place],
        ),
    decreases rules.len(),
{
    let before = crate::policy::prepare::entries_of_rules(rules.drop_last(), backend);
    if place < before.len() {
        lemma_rule_entry_source(rules.drop_last(), backend, place)
    } else {
        let own = crate::policy::prepare::entries_of_rule(rules.last().rule, backend);
        assert(own[place - before.len()] == crate::policy::prepare::entries_of_rules(rules, backend)[place]);
        rules.len() - 1
    }
}

proof fn lemma_metadata_source(
    rules: Seq<ResolvedRuleModel>,
    base: FileSystemBase,
    writable: Seq<ResolvedRuleModel>,
    place: int,
) -> (source: (int, int))
    requires
        0 <= place < crate::policy::prepare::metadata_steps(rules, base, writable).len(),
    ensures
        0 <= source.0 < writable.len(),
        writable[source.0].rule.access == PathAccess::Write,
        writable[source.0].probe.is_directory,
        0 <= source.1 < writable[source.0].probe.metadata.len(),
        crate::policy::prepare::metadata_steps(rules, base, writable)[place] == crate::policy::prepare::metadata_step(
            rules,
            base,
            writable[source.0].resolved,
            writable[source.0].probe.metadata[source.1],
        ),
    decreases writable.len(),
{
    let before = crate::policy::prepare::metadata_steps(rules, base, writable.drop_last());
    if place < before.len() {
        lemma_metadata_source(rules, base, writable.drop_last(), place)
    } else {
        (writable.len() - 1, place - before.len())
    }
}

proof fn lemma_metadata_place(
    rules: Seq<ResolvedRuleModel>,
    base: FileSystemBase,
    writable: Seq<ResolvedRuleModel>,
    index: int,
    item: int,
) -> (place: int)
    requires
        0 <= index < writable.len(),
        writable[index].rule.access == PathAccess::Write,
        writable[index].probe.is_directory,
        0 <= item < writable[index].probe.metadata.len(),
    ensures
        0 <= place < crate::policy::prepare::metadata_steps(rules, base, writable).len(),
        crate::policy::prepare::metadata_steps(rules, base, writable)[place] == crate::policy::prepare::metadata_step(
            rules,
            base,
            writable[index].resolved,
            writable[index].probe.metadata[item],
        ),
    decreases writable.len(),
{
    if index < writable.len() - 1 {
        lemma_metadata_place(rules, base, writable.drop_last(), index, item)
    } else {
        crate::policy::prepare::metadata_steps(rules, base, writable.drop_last()).len() + item
    }
}

proof fn lemma_collected_entry(steps: Seq<Step<EntryModel, SandboxErrorModel>>, index: int)
    requires
        model::collected(steps) is Ok,
        0 <= index < steps.len(),
        steps[index] is Keep,
    ensures
        model::collected(steps)->Ok_0.contains(steps[index]->Keep_0),
    decreases steps.len(),
{
    let kept = model::collected(steps)->Ok_0;
    let before = model::collected(steps.drop_last())->Ok_0;
    if index < steps.len() - 1 {
        lemma_collected_entry(steps.drop_last(), index);
        let place = choose|place: int| 0 <= place < before.len() && before[place] == steps[index]->Keep_0;
        assert(kept[place] == steps[index]->Keep_0);
    } else {
        assert(kept[kept.len() - 1] == steps[index]->Keep_0);
    }
}

/// The rule at `index` takes part in a policy: its path is there.
pub open spec fn takes_part(policy: PolicyModel, probes: Seq<RuleProbeModel>, index: int) -> bool {
    0 <= index < policy.rules.len() && probes[index].presence is Present
}

/// Whether an entry is the one for the rule's own path with the rule's own access.
pub open spec fn is_entry_of(entry: EntryModel, rule: RuleModel) -> bool {
    &&& entry.path == (FileSystemPathModel::Path { path: rule.path })
    &&& rule.access == PathAccess::Read <==> entry.access == FileSystemAccessMode::Read
    &&& rule.access == PathAccess::Write <==> entry.access == FileSystemAccessMode::Write
    &&& rule.access == PathAccess::Deny <==> entry.access == FileSystemAccessMode::Deny
}

/// Every rule whose path is there has an entry of its own in a prepared policy, for its own
/// path and with exactly its access, and the entries stand in the order of the rules. On
/// Seatbelt a denial has a pattern of its own besides, which matches that path alone.
pub proof fn rules_keep_their_path_and_access(
    policy: PolicyModel,
    probes: Seq<RuleProbeModel>,
    cwd: PathModel,
    backend: SandboxBackend,
    roots: Seq<InternalRootModel>,
    crossings: CrossingsModel,
    first: int,
    second: int,
)
    requires
        policy.rules.len() == probes.len(),
        crate::policy::prepare::prepared(policy, probes, cwd, backend, roots, crossings) is Ok,
        takes_part(policy, probes, first),
    ensures
        ({
            let entries = crate::policy::prepare::prepared(policy, probes, cwd, backend, roots, crossings)->Ok_0
                .file_system;
            &&& exists|place: int| 0 < place < entries.len() && #[trigger] is_entry_of(entries[place], policy.rules[first])
            &&& takes_part(policy, probes, second) && first < second ==> exists|place: int, later: int|
                0 < place < later < entries.len() && #[trigger] is_entry_of(entries[place], policy.rules[first])
                    && #[trigger] is_entry_of(entries[later], policy.rules[second])
            &&& backend == SandboxBackend::MacosSeatbelt && policy.rules[first].access == PathAccess::Deny ==> exists|
                place: int|
                0 < place < entries.len() && (#[trigger] entries[place]).access == FileSystemAccessMode::Deny && (
                entries[place].path matches FileSystemPathModel::GlobPattern { pattern }
                    && crate::policy::glob::only_match(pattern) == Some(policy.rules[first].path.text->Unicode_0))
        }),
{
    let steps = crate::policy::prepare::rule_steps(policy.rules, probes);
    let rules = model::collected(steps)->Ok_0;
    let entries = crate::policy::prepare::prepared(policy, probes, cwd, backend, roots, crossings)->Ok_0.file_system;
    model::lemma_collected_has_no_failure(steps, first);
    assert(steps[first] == crate::policy::prepare::rule_step(policy.rules[first], probes[first]));
    lemma_kept_place(steps, first);
    let kept = kept_before(steps, first);
    assert(rules[kept].rule == policy.rules[first]);
    lemma_rule_entry_place(rules, backend, kept);
    let place = 1 + crate::policy::prepare::entries_of_rules(rules.take(kept), backend).len();
    assert(is_entry_of(entries[place as int], policy.rules[first]));
    if backend == SandboxBackend::MacosSeatbelt && policy.rules[first].access == PathAccess::Deny {
        crate::policy::glob::escaped_paths_match_themselves_only(policy.rules[first].path.text->Unicode_0);
        assert(entries[place as int + 1].access == FileSystemAccessMode::Deny);
    }
    if takes_part(policy, probes, second) && first < second {
        model::lemma_collected_has_no_failure(steps, second);
        assert(steps[second] == crate::policy::prepare::rule_step(policy.rules[second], probes[second]));
        lemma_kept_place(steps, second);
        lemma_kept_before_grows(steps, first, second);
        let other = kept_before(steps, second);
        lemma_rule_entry_place(rules, backend, other);
        lemma_rule_entries_grow(rules, backend, kept, other);
        let later = 1 + crate::policy::prepare::entries_of_rules(rules.take(other), backend).len();
        assert(is_entry_of(entries[later as int], policy.rules[second]));
    }
}

/// Whether the policy leaves a location writable: a rule that asks for writes stands at it
/// or above it, and no rule that stands deeper, or as deep with a denial, takes it away.
pub open spec fn leaves_writable(
    policy: PolicyModel,
    probes: Seq<RuleProbeModel>,
    location: Seq<ComponentModel>,
    index: int,
) -> bool {
    &&& takes_part(policy, probes, index)
    &&& policy.rules[index].access == PathAccess::Write
    &&& probes[index].resolution->Resolved_0.components.is_prefix_of(location)
    &&& forall|other: int| #[trigger]
        takes_part(policy, probes, other) && probes[other].resolution->Resolved_0.components.is_prefix_of(location)
            && policy.rules[other].access != PathAccess::Write ==> {
            let depth = probes[index].resolution->Resolved_0.components.len();
            ||| probes[other].resolution->Resolved_0.components.len() < depth
            ||| probes[other].resolution->Resolved_0.components.len() == depth && policy.rules[other].access
                == PathAccess::Read
        }
}

/// The location of a metadata entry of the rule at `index`.
pub open spec fn metadata_location(probes: Seq<RuleProbeModel>, index: int, item: int) -> Seq<ComponentModel> {
    match probes[index].metadata[item].resolution {
        MetadataResolutionModel::Resolved(path) => path.components,
        _ => probes[index].resolution->Resolved_0.components.push(
            ComponentModel::Normal(probes[index].metadata[item].name),
        ),
    }
}

/// Whether a path is restored metadata: it belongs to a directory that a rule opens for
/// writing, and the policy leaves its location writable.
pub open spec fn is_restored_metadata(
    policy: PolicyModel,
    probes: Seq<RuleProbeModel>,
    path: PathModel,
    index: int,
    item: int,
) -> bool {
    &&& takes_part(policy, probes, index)
    &&& policy.rules[index].access == PathAccess::Write
    &&& probes[index].is_directory
    &&& 0 <= item < probes[index].metadata.len()
    &&& probes[index].metadata[item].path == path
    &&& exists|writer: int| leaves_writable(policy, probes, metadata_location(probes, index, item), writer)
}

proof fn lemma_kept_rules(policy: PolicyModel, probes: Seq<RuleProbeModel>, kept: int) -> (index: int)
    requires
        policy.rules.len() == probes.len(),
        model::collected(crate::policy::prepare::rule_steps(policy.rules, probes)) is Ok,
        0 <= kept < model::collected(crate::policy::prepare::rule_steps(policy.rules, probes))->Ok_0.len(),
    ensures
        takes_part(policy, probes, index),
        ({
            let rule = model::collected(crate::policy::prepare::rule_steps(policy.rules, probes))->Ok_0[kept];
            &&& rule.rule == policy.rules[index]
            &&& rule.probe == probes[index]
            &&& probes[index].resolution == ResolutionModel::Resolved(rule.resolved)
        }),
{
    let steps = crate::policy::prepare::rule_steps(policy.rules, probes);
    let source = model::lemma_collected_source(steps, kept);
    assert(steps[source] == crate::policy::prepare::rule_step(policy.rules[source], probes[source]));
    source
}

proof fn lemma_writable_location(policy: PolicyModel, probes: Seq<RuleProbeModel>, location: Seq<ComponentModel>)
    requires
        policy.rules.len() == probes.len(),
        model::collected(crate::policy::prepare::rule_steps(policy.rules, probes)) is Ok,
    ensures
        crate::policy::prepare::effective_access(
            model::collected(crate::policy::prepare::rule_steps(policy.rules, probes))->Ok_0,
            policy.base,
            location,
        ) == PathAccess::Write <==> exists|writer: int| leaves_writable(policy, probes, location, writer),
{
    let steps = crate::policy::prepare::rule_steps(policy.rules, probes);
    let rules = model::collected(steps)->Ok_0;
    let scope = RuleScope::Resolved;
    if crate::policy::prepare::effective_access(rules, policy.base, location) == PathAccess::Write {
        let kept = crate::policy::access::explicit_access_comes_from_a_rule(rules, scope, location);
        let writer = lemma_kept_rules(policy, probes, kept);
        assert forall|other: int| #[trigger]
            takes_part(policy, probes, other) && probes[other].resolution->Resolved_0.components.is_prefix_of(
                location,
            ) && policy.rules[other].access != PathAccess::Write implies {
            let depth = probes[writer].resolution->Resolved_0.components.len();
            ||| probes[other].resolution->Resolved_0.components.len() < depth
            ||| probes[other].resolution->Resolved_0.components.len() == depth && policy.rules[other].access
                == PathAccess::Read
        } by {
            model::lemma_collected_has_no_failure(steps, other);
            assert(steps[other] == crate::policy::prepare::rule_step(policy.rules[other], probes[other]));
            lemma_kept_place(steps, other);
            assert(rules[kept_before(steps, other)].location(scope).is_prefix_of(location));
        }
        assert(leaves_writable(policy, probes, location, writer));
    }
    if exists|writer: int| leaves_writable(policy, probes, location, writer) {
        let writer = choose|writer: int| leaves_writable(policy, probes, location, writer);
        model::lemma_collected_has_no_failure(steps, writer);
        assert(steps[writer] == crate::policy::prepare::rule_step(policy.rules[writer], probes[writer]));
        lemma_kept_place(steps, writer);
        let place = kept_before(steps, writer);
        assert(rules[place].location(scope).is_prefix_of(location));
        crate::policy::access::explicit_access_is_given_where_covered(rules, scope, location);
        assert(crate::policy::access::covers(rules, scope, location, place));
        let decides = crate::policy::access::explicit_access_comes_from_a_rule(rules, scope, location);
        let index = lemma_kept_rules(policy, probes, decides);
        assert(takes_part(policy, probes, index));
        assert(rules[decides].resolved == probes[index].resolution->Resolved_0);
    }
}

/// Nothing stands in a prepared policy that was not asked for. It opens with reads of the
/// baseline; an entry is writable only at a path for which some rule asks for writes, or at
/// metadata of such a directory that the policy leaves writable; an entry is denied only
/// where a rule denies it; and an entry is readable only where a rule or the backend itself
/// needs it.
pub proof fn prepared_entries_were_asked_for(
    policy: PolicyModel,
    probes: Seq<RuleProbeModel>,
    cwd: PathModel,
    backend: SandboxBackend,
    roots: Seq<InternalRootModel>,
    crossings: CrossingsModel,
    place: int,
)
    requires
        policy.rules.len() == probes.len(),
        crate::policy::prepare::prepared(policy, probes, cwd, backend, roots, crossings) is Ok,
        0 <= place < crate::policy::prepare::prepared(policy, probes, cwd, backend, roots, crossings)->Ok_0
            .file_system.len(),
    ensures
        ({
            let entry = crate::policy::prepare::prepared(policy, probes, cwd, backend, roots, crossings)->Ok_0
                .file_system[place];
            &&& entry.path is Special <==> place == 0
            &&& match entry.path {
                FileSystemPathModel::Special { value } => entry.access == FileSystemAccessMode::Read && (value
                    == FileSystemSpecialPath::Root <==> policy.base == FileSystemBase::HostReadOnly),
                FileSystemPathModel::GlobPattern { pattern } => {
                    &&& entry.access == FileSystemAccessMode::Deny
                    &&& backend == SandboxBackend::MacosSeatbelt
                    &&& exists|index: int| #[trigger]
                        takes_part(policy, probes, index) && policy.rules[index].access == PathAccess::Deny
                            && crate::policy::glob::only_match(pattern) == Some(
                            policy.rules[index].path.text->Unicode_0,
                        )
                },
                FileSystemPathModel::Path { path } => match entry.access {
                    FileSystemAccessMode::Write => {
                        ||| exists|index: int| #[trigger]
                            takes_part(policy, probes, index) && policy.rules[index].access == PathAccess::Write
                                && policy.rules[index].path == path
                        ||| exists|index: int, item: int| is_restored_metadata(policy, probes, path, index, item)
                    },
                    FileSystemAccessMode::Deny => exists|index: int| #[trigger]
                        takes_part(policy, probes, index) && policy.rules[index].access == PathAccess::Deny
                            && policy.rules[index].path == path,
                    FileSystemAccessMode::Read => {
                        ||| exists|index: int| #[trigger]
                            takes_part(policy, probes, index) && policy.rules[index].access == PathAccess::Read
                                && policy.rules[index].path == path
                        ||| exists|index: int| 0 <= index < roots.len() && (#[trigger] roots[index]).path == path
                    },
                },
            }
        }),
{
    let steps = crate::policy::prepare::rule_steps(policy.rules, probes);
    let rules = model::collected(steps)->Ok_0;
    let entries = crate::policy::prepare::prepared(policy, probes, cwd, backend, roots, crossings)->Ok_0.file_system;
    let entry = entries[place];
    let ruled = crate::policy::prepare::entries_of_rules(rules, backend);
    let own = crate::policy::prepare::entries_of_roots(roots);
    if place == 0 {
        assert(entry == crate::policy::prepare::base_entry(policy.base));
    } else if place < 1 + ruled.len() {
        assert(entry == ruled[place - 1]);
        let source = lemma_rule_entry_source(rules, backend, place - 1);
        let index = lemma_kept_rules(policy, probes, source);
        crate::policy::glob::escaped_paths_match_themselves_only(policy.rules[index].path.text->Unicode_0);
        assert(takes_part(policy, probes, index));
    } else if place < 1 + ruled.len() + own.len() {
        let index = place - 1 - ruled.len();
        assert(entry == own[index]);
        assert(roots[index].path == entry.path->path);
    } else {
        let metadata = crate::policy::prepare::metadata_steps(rules, policy.base, rules);
        let kept = place - 1 - ruled.len() - own.len();
        assert(entry == model::collected(metadata)->Ok_0[kept]);
        let step = model::lemma_collected_source(metadata, kept);
        let (source, item) = lemma_metadata_source(rules, policy.base, rules, step);
        let index = lemma_kept_rules(policy, probes, source);
        let location = metadata_location(probes, index, item);
        lemma_writable_location(policy, probes, location);
        assert(is_restored_metadata(policy, probes, entry.path->path, index, item));
    }
}

/// What the backend itself needs is readable in every prepared policy; and metadata of a
/// directory that a rule opens for writing is writable where the policy leaves it so.
pub proof fn needed_and_restored_paths_have_entries(
    policy: PolicyModel,
    probes: Seq<RuleProbeModel>,
    cwd: PathModel,
    backend: SandboxBackend,
    roots: Seq<InternalRootModel>,
    crossings: CrossingsModel,
    path: PathModel,
    index: int,
    item: int,
)
    requires
        policy.rules.len() == probes.len(),
        crate::policy::prepare::prepared(policy, probes, cwd, backend, roots, crossings) is Ok,
    ensures
        ({
            let entries = crate::policy::prepare::prepared(policy, probes, cwd, backend, roots, crossings)->Ok_0
                .file_system;
            &&& 0 <= index < roots.len() ==> entries.contains(
                EntryModel {
                    path: FileSystemPathModel::Path { path: roots[index].path },
                    access: FileSystemAccessMode::Read,
                },
            )
            &&& is_restored_metadata(policy, probes, path, index, item) ==> entries.contains(
                EntryModel { path: FileSystemPathModel::Path { path }, access: FileSystemAccessMode::Write },
            )
        }),
{
    let steps = crate::policy::prepare::rule_steps(policy.rules, probes);
    let rules = model::collected(steps)->Ok_0;
    let entries = crate::policy::prepare::prepared(policy, probes, cwd, backend, roots, crossings)->Ok_0.file_system;
    let ruled = crate::policy::prepare::entries_of_rules(rules, backend);
    let own = crate::policy::prepare::entries_of_roots(roots);
    if 0 <= index < roots.len() {
        assert(entries[1 + ruled.len() + index] == own[index]);
    }
    if is_restored_metadata(policy, probes, path, index, item) {
        let metadata = crate::policy::prepare::metadata_steps(rules, policy.base, rules);
        model::lemma_collected_has_no_failure(steps, index);
        assert(steps[index] == crate::policy::prepare::rule_step(policy.rules[index], probes[index]));
        lemma_kept_place(steps, index);
        let kept = kept_before(steps, index);
        let step = lemma_metadata_place(rules, policy.base, rules, kept, item);
        model::lemma_collected_has_no_failure(metadata, step);
        lemma_writable_location(policy, probes, metadata_location(probes, index, item));
        lemma_collected_entry(metadata, step);
        let restored = model::collected(metadata)->Ok_0;
        let place = choose|place: int| 0 <= place < restored.len() && restored[place] == metadata[step]->Keep_0;
        assert(entries[1 + ruled.len() + own.len() + place] == restored[place]);
    }
}

/// In a prepared policy the rules give nothing but reads to a path that the backend itself
/// needs, neither at its spelling nor at its location, and neither there nor at any rule's
/// place below it.
pub proof fn needed_paths_stay_readable_and_unwritable(
    policy: PolicyModel,
    probes: Seq<RuleProbeModel>,
    cwd: PathModel,
    backend: SandboxBackend,
    roots: Seq<InternalRootModel>,
    crossings: CrossingsModel,
    rules: Seq<ResolvedRuleModel>,
    index: int,
    kept: int,
)
    requires
        crate::policy::prepare::prepared(policy, probes, cwd, backend, roots, crossings) is Ok,
        model::collected(crate::policy::prepare::rule_steps(policy.rules, probes)) == Ok::<
            Seq<ResolvedRuleModel>,
            SandboxErrorModel,
        >(rules),
        0 <= index < roots.len(),
    ensures
        roots[index].path.absolute,
        roots[index].path.text.is_unicode(),
        roots[index].resolution matches ResolutionModel::Resolved(resolved) && {
            let spelled = roots[index].path.components;
            let located = resolved.components;
            let lexical = RuleScope::Lexical;
            let canonical = RuleScope::Resolved;
            &&& resolved.text.is_unicode()
            &&& gives_reads_at_most(rules, lexical, spelled)
            &&& gives_reads_at_most(rules, canonical, located)
            &&& 0 <= kept < rules.len() && spelled.is_prefix_of(rules[kept].rule.path.components)
                ==> gives_reads_at_most(rules, lexical, rules[kept].rule.path.components)
            &&& 0 <= kept < rules.len() && located.is_prefix_of(rules[kept].resolved.components)
                ==> gives_reads_at_most(rules, canonical, rules[kept].resolved.components)
        },
{
    let steps = crate::policy::prepare::internal_steps(rules, roots, backend);
    model::lemma_collected_has_no_failure(steps, index);
    assert(steps[index] == crate::policy::prepare::internal_step(rules, roots[index], backend));
    let spelled = roots[index].path.components;
    let located = roots[index].resolution->Resolved_0.components;
    if 0 <= kept < rules.len() {
        assert(!crate::policy::internal::nested_access(rules, RuleScope::Lexical, spelled, PathAccess::Deny, kept));
        assert(!crate::policy::internal::nested_access(rules, RuleScope::Lexical, spelled, PathAccess::Write, kept));
        assert(!crate::policy::internal::nested_access(rules, RuleScope::Resolved, located, PathAccess::Deny, kept));
        assert(!crate::policy::internal::nested_access(rules, RuleScope::Resolved, located, PathAccess::Write, kept));
    }
}

/// Whether the rules say nothing of a path, or allow it to be read.
pub open spec fn gives_reads_at_most(
    rules: Seq<ResolvedRuleModel>,
    scope: RuleScope,
    path: Seq<ComponentModel>,
) -> bool {
    crate::policy::access::explicit_access(rules, scope, path) is None || crate::policy::access::explicit_access(
        rules,
        scope,
        path,
    ) == Some(PathAccess::Read)
}

/// Whether a rule can be kept or left out: its path is absolute, and it is there under a
/// Unicode name at a Unicode location, or it may be missing and is.
pub open spec fn is_usable(rule: RuleModel, probe: RuleProbeModel) -> bool {
    &&& rule.path.absolute
    &&& match probe.presence {
        PresenceModel::Present => rule.path.text.is_unicode() && (probe.resolution matches ResolutionModel::Resolved(
            resolved,
        ) && resolved.text.is_unicode()),
        PresenceModel::Missing => rule.missing == MissingPathBehavior::Ignore,
        PresenceModel::Unknown(_) => false,
    }
}

proof fn lemma_usable_rules_collect(rules: Seq<RuleModel>, probes: Seq<RuleProbeModel>, count: int)
    requires
        rules.len() == probes.len(),
        0 <= count <= rules.len(),
        forall|index: int| 0 <= index < rules.len() ==> #[trigger] is_usable(rules[index], probes[index]),
    ensures
        model::collected(crate::policy::prepare::rule_steps(rules, probes).take(count)) is Ok,
    decreases count,
{
    let steps = crate::policy::prepare::rule_steps(rules, probes);
    model::lemma_take_all(steps);
    if count > 0 {
        lemma_usable_rules_collect(rules, probes, count - 1);
        model::lemma_collected_step(steps, count - 1);
        assert(is_usable(rules[count - 1], probes[count - 1]));
    }
}

proof fn lemma_collects<T>(steps: Seq<Step<T, SandboxErrorModel>>)
    requires
        forall|index: int| 0 <= index < steps.len() ==> !((#[trigger] steps[index]) is Fail),
    ensures
        model::collected(steps) is Ok,
    decreases steps.len(),
{
    if steps.len() > 0 {
        let shorter = steps.drop_last();
        assert forall|index: int| 0 <= index < shorter.len() implies !((#[trigger] shorter[index]) is Fail) by {
            assert(shorter[index] == steps[index]);
        }
        lemma_collects(shorter);
    }
}

/// A policy is refused for a reason and for no other. It is prepared where its directory is
/// absolute, every rule is usable, the backend accepts the rules that take part, what the
/// backend needs lies apart from every rule but those that allow reads, all metadata could
/// be looked up, and no path crosses a writable symlink.
pub proof fn sound_policies_are_prepared(
    policy: PolicyModel,
    probes: Seq<RuleProbeModel>,
    cwd: PathModel,
    backend: SandboxBackend,
    roots: Seq<InternalRootModel>,
    crossings: CrossingsModel,
)
    requires
        policy.rules.len() == probes.len(),
        cwd.absolute,
        forall|index: int|
            0 <= index < policy.rules.len() ==> #[trigger] is_usable(policy.rules[index], probes[index]),
        crate::policy::backend::backend_refusal(
            policy,
            model::collected(crate::policy::prepare::rule_steps(policy.rules, probes))->Ok_0,
            backend,
        ) is None,
        forall|root: int, index: int|
            #![trigger roots[root], policy.rules[index]]
            0 <= root < roots.len() && takes_part(policy, probes, index) && policy.rules[index].access
                != PathAccess::Read ==> {
                &&& !roots[root].path.components.is_prefix_of(policy.rules[index].path.components)
                &&& !policy.rules[index].path.components.is_prefix_of(roots[root].path.components)
                &&& !roots[root].resolution->Resolved_0.components.is_prefix_of(
                    probes[index].resolution->Resolved_0.components,
                )
                &&& !probes[index].resolution->Resolved_0.components.is_prefix_of(
                    roots[root].resolution->Resolved_0.components,
                )
            },
        forall|root: int|
            0 <= root < roots.len() ==> (#[trigger] roots[root]).path.absolute && roots[root].path.text.is_unicode()
                && (roots[root].resolution matches ResolutionModel::Resolved(resolved) && resolved.text.is_unicode()),
        forall|index: int, item: int|
            #![trigger probes[index].metadata[item]]
            0 <= index < probes.len() && 0 <= item < probes[index].metadata.len() ==> {
                let resolution = probes[index].metadata[item].resolution;
                resolution is Resolved || resolution is Missing
            },
        backend == SandboxBackend::LinuxBubblewrap ==> {
            &&& forall|index: int| 0 <= index < crossings.read_only.len() ==> crossings.read_only[index] is None
            &&& forall|index: int| 0 <= index < crossings.unreadable.len() ==> crossings.unreadable[index] is None
        },
    ensures
        crate::policy::prepare::prepared(policy, probes, cwd, backend, roots, crossings) is Ok,
{
    let steps = crate::policy::prepare::rule_steps(policy.rules, probes);
    lemma_usable_rules_collect(policy.rules, probes, steps.len() as int);
    model::lemma_take_all(steps);
    let rules = model::collected(steps)->Ok_0;
    let internal = crate::policy::prepare::internal_steps(rules, roots, backend);
    assert forall|root: int| 0 <= root < internal.len() implies !((#[trigger] internal[root]) is Fail) by {
        let spelled = roots[root].path.components;
        let located = roots[root].resolution->Resolved_0.components;
        assert(internal[root] == crate::policy::prepare::internal_step(rules, roots[root], backend));
        lemma_unreached(policy, probes, rules, RuleScope::Lexical, spelled, roots[root]);
        lemma_unreached(policy, probes, rules, RuleScope::Resolved, located, roots[root]);
    }
    lemma_collects(internal);
    let metadata = crate::policy::prepare::metadata_steps(rules, policy.base, rules);
    assert forall|place: int| 0 <= place < metadata.len() implies !((#[trigger] metadata[place]) is Fail) by {
        let (source, item) = lemma_metadata_source(rules, policy.base, rules, place);
        let index = lemma_kept_rules(policy, probes, source);
        let resolution = probes[index].metadata[item].resolution;
        assert(resolution is Resolved || resolution is Missing);
    }
    lemma_collects(metadata);
    assert(forall|index: int| !crate::policy::linux::first_symlink(crossings.read_only, index)
        || backend != SandboxBackend::LinuxBubblewrap);
}

proof fn lemma_unreached(
    policy: PolicyModel,
    probes: Seq<RuleProbeModel>,
    rules: Seq<ResolvedRuleModel>,
    scope: RuleScope,
    location: Seq<ComponentModel>,
    root: InternalRootModel,
)
    requires
        policy.rules.len() == probes.len(),
        model::collected(crate::policy::prepare::rule_steps(policy.rules, probes)) == Ok::<
            Seq<ResolvedRuleModel>,
            SandboxErrorModel,
        >(rules),
        location == if scope == RuleScope::Lexical {
            root.path.components
        } else {
            root.resolution->Resolved_0.components
        },
        forall|index: int|
            #![trigger policy.rules[index]]
            takes_part(policy, probes, index) && policy.rules[index].access != PathAccess::Read ==> {
                &&& !root.path.components.is_prefix_of(policy.rules[index].path.components)
                &&& !policy.rules[index].path.components.is_prefix_of(root.path.components)
                &&& !root.resolution->Resolved_0.components.is_prefix_of(
                    probes[index].resolution->Resolved_0.components,
                )
                &&& !probes[index].resolution->Resolved_0.components.is_prefix_of(
                    root.resolution->Resolved_0.components,
                )
            },
    ensures
        !crate::policy::internal::reaches(rules, scope, location, PathAccess::Deny),
        !crate::policy::internal::reaches(rules, scope, location, PathAccess::Write),
{
    if crate::policy::access::explicit_access(rules, scope, location) is Some {
        let kept = crate::policy::access::explicit_access_comes_from_a_rule(rules, scope, location);
        let index = lemma_kept_rules(policy, probes, kept);
        assert(policy.rules[index].access == PathAccess::Read);
    }
    assert forall|kept: int, access: PathAccess| access != PathAccess::Read implies !(
    #[trigger] crate::policy::internal::nested_access(rules, scope, location, access, kept)) by {
        if crate::policy::internal::nested_access(rules, scope, location, access, kept) {
            let below = rules[kept].location(scope);
            let decides = crate::policy::access::explicit_access_comes_from_a_rule(rules, scope, below);
            let index = lemma_kept_rules(policy, probes, decides);
            lemma_prefixes_of_one_path(location, rules[decides].location(scope), below);
            assert(policy.rules[index].access == access);
        }
    }
}

proof fn lemma_prefixes_of_one_path(left: Seq<ComponentModel>, right: Seq<ComponentModel>, path: Seq<ComponentModel>)
    requires
        left.is_prefix_of(path),
        right.is_prefix_of(path),
    ensures
        left.is_prefix_of(right) || right.is_prefix_of(left),
{
    if left.len() <= right.len() {
        assert(left =~= right.subrange(0, left.len() as int));
    } else {
        assert(right =~= left.subrange(0, right.len() as int));
    }
}

/// A policy is not prepared where its directory is relative, where a rule is not usable, or
/// where a path that the backend needs is relative or unknown.
pub proof fn unusable_policies_are_refused(
    policy: PolicyModel,
    probes: Seq<RuleProbeModel>,
    cwd: PathModel,
    backend: SandboxBackend,
    roots: Seq<InternalRootModel>,
    crossings: CrossingsModel,
    index: int,
)
    requires
        policy.rules.len() == probes.len(),
        crate::policy::prepare::prepared(policy, probes, cwd, backend, roots, crossings) is Ok,
    ensures
        cwd.absolute,
        0 <= index < policy.rules.len() ==> is_usable(policy.rules[index], probes[index]),
        crate::policy::backend::backend_refusal(
            policy,
            model::collected(crate::policy::prepare::rule_steps(policy.rules, probes))->Ok_0,
            backend,
        ) is None,
{
    if 0 <= index < policy.rules.len() {
        let steps = crate::policy::prepare::rule_steps(policy.rules, probes);
        model::lemma_collected_has_no_failure(steps, index);
        assert(steps[index] == crate::policy::prepare::rule_step(policy.rules[index], probes[index]));
    }
}

pub(crate) proof fn lemma_metadata_failures(
    rules: Seq<ResolvedRuleModel>,
    base: FileSystemBase,
    writable: Seq<ResolvedRuleModel>,
)
    ensures
        forall|place: int|
            0 <= place < crate::policy::prepare::metadata_steps(rules, base, writable).len() ==> ((
            #[trigger] crate::policy::prepare::metadata_steps(rules, base, writable)[place]) matches Step::Fail(error)
                ==> error is InvalidPath),
{
    assert forall|place: int|
        0 <= place < crate::policy::prepare::metadata_steps(rules, base, writable).len() implies ((
    #[trigger] crate::policy::prepare::metadata_steps(rules, base, writable)[place]) matches Step::Fail(error)
        ==> error is InvalidPath) by {
        let (source, item) = lemma_metadata_source(rules, base, writable, place);
    }
}

} // verus!
