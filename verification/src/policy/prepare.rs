//! The entries that a backend enforces for one policy.

use crate::error::{SandboxError, SandboxErrorModel, SandboxFeature};
use crate::model;
use crate::model::Step;
use crate::native::{ComponentModel, NativePath, PathComponent, PathModel};
use crate::policy::access::{explicit_access_at, ResolvedRule, ResolvedRuleModel, RuleScope};
use crate::policy::backend::{unsupported, validate_backend_policy};
use crate::policy::glob::escape_literal_glob;
use crate::policy::host::{
    InternalRoot, InternalRootModel, MetadataProbe, MetadataProbeModel, MetadataResolution, MetadataResolutionModel,
    Presence, PresenceModel, Resolution, ResolutionModel, RuleProbe, RuleProbeModel,
};
use crate::policy::internal::explicit_access_for_internal;
use crate::policy::linux::{validate_path_stability, CrossingsModel, PathCrossings};
use crate::text::{concat2, concat4};
use crate::types::{
    FileSystemBase, MissingPathBehavior, NetworkPolicy, PathAccess, PathRule, PolicyModel, RuleModel, SandboxBackend,
    SandboxPolicy,
};
use vstd::prelude::*;
use vstd::string::*;

verus! {

/// A filesystem baseline that a backend knows by name.
#[derive(Clone, Copy, Debug, PartialEq, Eq, Structural)]
pub enum FileSystemSpecialPath {
    /// The roots required to launch ordinary programs.
    Minimal,
    /// The whole filesystem.
    Root,
}

/// Access that a backend grants to an entry.
#[derive(Clone, Copy, Debug, PartialEq, Eq, Structural)]
pub enum FileSystemAccessMode {
    Read,
    Write,
    Deny,
}

/// Network access that a backend grants.
#[derive(Clone, Copy, Debug, PartialEq, Eq, Structural)]
pub enum NetworkSandboxPolicy {
    Restricted,
    Enabled,
}

/// What an entry applies to.
#[derive(Debug, PartialEq, Eq)]
pub enum FileSystemPath {
    Special { value: FileSystemSpecialPath },
    Path { path: NativePath },
    GlobPattern { pattern: String },
}

/// What a [`FileSystemPath`] holds.
pub enum FileSystemPathModel {
    Special { value: FileSystemSpecialPath },
    Path { path: PathModel },
    GlobPattern { pattern: Seq<char> },
}

impl DeepView for FileSystemPath {
    type V = FileSystemPathModel;

    open spec fn deep_view(&self) -> FileSystemPathModel {
        match self {
            FileSystemPath::Special { value } => FileSystemPathModel::Special { value: *value },
            FileSystemPath::Path { path } => FileSystemPathModel::Path { path: path@ },
            FileSystemPath::GlobPattern { pattern } => FileSystemPathModel::GlobPattern { pattern: pattern@ },
        }
    }
}

/// One filesystem entry, in the order in which the backend applies them.
#[derive(Debug, PartialEq, Eq)]
pub struct FileSystemSandboxEntry {
    pub path: FileSystemPath,
    pub access: FileSystemAccessMode,
}

/// What a [`FileSystemSandboxEntry`] holds.
pub struct EntryModel {
    pub path: FileSystemPathModel,
    pub access: FileSystemAccessMode,
}

impl DeepView for FileSystemSandboxEntry {
    type V = EntryModel;

    open spec fn deep_view(&self) -> EntryModel {
        EntryModel { path: self.path.deep_view(), access: self.access }
    }
}

/// A policy in the form that the backend enforces.
#[derive(Debug, PartialEq, Eq)]
pub struct PreparedPolicy {
    pub file_system: Vec<FileSystemSandboxEntry>,
    pub network: NetworkSandboxPolicy,
}

/// What a [`PreparedPolicy`] holds.
pub struct PreparedModel {
    pub file_system: Seq<EntryModel>,
    pub network: NetworkSandboxPolicy,
}

impl DeepView for PreparedPolicy {
    type V = PreparedModel;

    open spec fn deep_view(&self) -> PreparedModel {
        PreparedModel { file_system: self.file_system.deep_view(), network: self.network }
    }
}

impl View for PreparedPolicy {
    type V = PreparedModel;

    open spec fn view(&self) -> PreparedModel {
        self.deep_view()
    }
}

/// A policy in the form that the backend would enforce, before its paths are known to be
/// stable. The host finds out from it which writable symlinks the paths cross.
#[derive(Debug, PartialEq, Eq)]
pub struct PolicyDraft {
    pub file_system: Vec<FileSystemSandboxEntry>,
    pub network: NetworkSandboxPolicy,
}

impl DeepView for PolicyDraft {
    type V = PreparedModel;

    open spec fn deep_view(&self) -> PreparedModel {
        PreparedModel { file_system: self.file_system.deep_view(), network: self.network }
    }
}

impl View for PolicyDraft {
    type V = PreparedModel;

    open spec fn view(&self) -> PreparedModel {
        self.deep_view()
    }
}

/// The error for a path that is not absolute.
pub open spec fn relative_path_error(path: PathModel, description: Seq<char>) -> SandboxErrorModel {
    SandboxErrorModel::InvalidPath { path, message: description + " must be absolute"@ }
}

/// Checks that a path is absolute.
pub fn validate_absolute_path(path: &NativePath, description: &str) -> (result: Result<(), SandboxError>)
    ensures
        if path@.absolute {
            result is Ok
        } else {
            result matches Err(error) && error@ == relative_path_error(path@, description@)
        },
{
    if path.absolute {
        Ok(())
    } else {
        Err(
            SandboxError::InvalidPath {
                path: path.clone(),
                message: concat2(description, " must be absolute"),
            },
        )
    }
}

/// The error for an existing path that the backend cannot be given.
pub open spec fn encoding_error(
    path: PathModel,
    resolution: ResolutionModel,
    description: Seq<char>,
) -> Option<SandboxErrorModel> {
    if !path.text.is_unicode() {
        Some(
            SandboxErrorModel::InvalidPath {
                path,
                message: description + " must be valid UTF-8 for the selected backend"@,
            },
        )
    } else {
        match resolution {
            ResolutionModel::Failed(reason) => Some(
                SandboxErrorModel::InvalidPath {
                    path,
                    message: "failed to resolve "@ + description + ": "@ + reason,
                },
            ),
            ResolutionModel::Resolved(resolved) => if resolved.text.is_unicode() {
                None
            } else {
                Some(
                    SandboxErrorModel::InvalidPath {
                        path,
                        message: description
                            + " resolves to a path that is not valid UTF-8 for the selected backend"@,
                    },
                )
            },
        }
    }
}

/// Checks that an existing path and its location are valid Unicode.
pub fn validate_existing_path_encoding(
    path: &NativePath,
    resolution: &Resolution,
    description: &str,
) -> (result: Result<(), SandboxError>)
    ensures
        match encoding_error(path@, resolution@, description@) {
            Some(expected) => result matches Err(error) && error@ == expected,
            None => result is Ok,
        },
{
    if !path.is_unicode() {
        return Err(
            SandboxError::InvalidPath {
                path: path.clone(),
                message: concat2(description, " must be valid UTF-8 for the selected backend"),
            },
        );
    }
    match resolution {
        Resolution::Failed(reason) => Err(
            SandboxError::InvalidPath {
                path: path.clone(),
                message: concat4("failed to resolve ", description, ": ", reason.as_str()),
            },
        ),
        Resolution::Resolved(resolved) => {
            if resolved.is_unicode() {
                Ok(())
            } else {
                Err(
                    SandboxError::InvalidPath {
                        path: path.clone(),
                        message: concat2(
                            description,
                            " resolves to a path that is not valid UTF-8 for the selected backend",
                        ),
                    },
                )
            }
        },
    }
}

/// What one rule contributes: itself when its path is there, nothing when it may be missing.
pub open spec fn rule_step(rule: RuleModel, probe: RuleProbeModel) -> Step<ResolvedRuleModel, SandboxErrorModel> {
    if !rule.path.absolute {
        Step::Fail(relative_path_error(rule.path, "a filesystem rule"@))
    } else {
        match probe.presence {
            PresenceModel::Present => match encoding_error(rule.path, probe.resolution, "a filesystem rule"@) {
                Some(error) => Step::Fail(error),
                None => Step::Keep(ResolvedRuleModel { rule, resolved: probe.resolution->Resolved_0, probe }),
            },
            PresenceModel::Missing => if rule.missing == MissingPathBehavior::Ignore {
                Step::Skip
            } else {
                Step::Fail(
                    SandboxErrorModel::InvalidPath {
                        path: rule.path,
                        message: "the requested policy path does not exist"@,
                    },
                )
            },
            PresenceModel::Unknown(reason) => Step::Fail(
                SandboxErrorModel::InvalidPath {
                    path: rule.path,
                    message: "failed to inspect the requested policy path: "@ + reason,
                },
            ),
        }
    }
}

/// What the rules contribute, in order.
pub open spec fn rule_steps(
    rules: Seq<RuleModel>,
    probes: Seq<RuleProbeModel>,
) -> Seq<Step<ResolvedRuleModel, SandboxErrorModel>> {
    Seq::new(rules.len(), |index: int| rule_step(rules[index], probes[index]))
}

fn existing_rule<'a>(rule: &'a PathRule, probe: &'a RuleProbe) -> (result: Result<
    Option<ResolvedRule<'a>>,
    SandboxError,
>)
    ensures
        match rule_step(rule@, probe@) {
            Step::Keep(kept) => result matches Ok(Some(resolved)) && resolved@ == kept,
            Step::Skip => result matches Ok(None),
            Step::Fail(expected) => result matches Err(error) && error@ == expected,
        },
{
    validate_absolute_path(&rule.path, "a filesystem rule")?;
    match &probe.presence {
        Presence::Present => {
            validate_existing_path_encoding(&rule.path, &probe.resolution, "a filesystem rule")?;
            match &probe.resolution {
                Resolution::Resolved(resolved) => Ok(Some(ResolvedRule { rule, resolved, probe })),
                Resolution::Failed(_) => Ok(None),
            }
        },
        Presence::Missing => {
            if rule.missing == MissingPathBehavior::Ignore {
                Ok(None)
            } else {
                Err(
                    SandboxError::InvalidPath {
                        path: rule.path.clone(),
                        message: "the requested policy path does not exist".to_owned(),
                    },
                )
            }
        },
        Presence::Unknown(reason) => Err(
            SandboxError::InvalidPath {
                path: rule.path.clone(),
                message: concat2("failed to inspect the requested policy path: ", reason.as_str()),
            },
        ),
    }
}

/// The rules whose paths exist, each with the location that the host resolved it to.
pub fn existing_rules<'a>(rules: &'a Vec<PathRule>, probes: &'a Vec<RuleProbe>) -> (result: Result<
    Vec<ResolvedRule<'a>>,
    SandboxError,
>)
    requires
        rules@.len() == probes@.len(),
    ensures
        match model::collected(rule_steps(rules.deep_view(), probes.deep_view())) {
            Ok(kept) => result matches Ok(existing) && existing.deep_view() == kept,
            Err(expected) => result matches Err(error) && error@ == expected,
        },
{
    let ghost steps = rule_steps(rules.deep_view(), probes.deep_view());
    let mut existing: Vec<ResolvedRule<'a>> = Vec::new();
    proof {
        model::lemma_take_all(steps);
        assert(existing.deep_view() =~= Seq::empty());
    }
    for index in 0..rules.len()
        invariant
            rules@.len() == probes@.len(),
            steps == rule_steps(rules.deep_view(), probes.deep_view()),
            model::collected(steps.take(index as int)) == Ok::<Seq<ResolvedRuleModel>, SandboxErrorModel>(
                existing.deep_view(),
            ),
    {
        proof {
            model::lemma_collected_step(steps, index as int);
            assert(steps[index as int] == rule_step(rules@[index as int]@, probes@[index as int]@));
        }
        if let Some(kept) = existing_rule(&rules[index], &probes[index])? {
            let ghost before = existing;
            existing.push(kept);
            proof {
                model::lemma_deep_push(before, existing, kept);
            }
        }
    }
    proof {
        model::lemma_take_all(steps);
    }
    Ok(existing)
}

/// What one internal root contributes: nothing, unless it cannot be kept readable and unwritable.
pub open spec fn internal_step(
    rules: Seq<ResolvedRuleModel>,
    root: InternalRootModel,
    backend: SandboxBackend,
) -> Step<(), SandboxErrorModel> {
    if !root.path.absolute {
        Step::Fail(relative_path_error(root.path, "an internal sandbox helper"@))
    } else {
        match encoding_error(root.path, root.resolution, "an internal sandbox helper"@) {
            Some(error) => Step::Fail(error),
            None => match crate::policy::internal::internal_conflict(
                rules,
                root.path,
                root.resolution->Resolved_0,
            ) {
                Some(PathAccess::Deny) => Step::Fail(
                    SandboxErrorModel::UnsupportedPolicy {
                        backend,
                        feature: SandboxFeature::DeniedReadPaths,
                        message: "a deny rule covers a path required by the sandbox backend"@,
                    },
                ),
                Some(PathAccess::Write) => Step::Fail(
                    SandboxErrorModel::UnsupportedPolicy {
                        backend,
                        feature: SandboxFeature::DeniedWritePaths,
                        message: "a write rule covers a path that the sandbox backend must keep read-only"@,
                    },
                ),
                _ => Step::Skip,
            },
        }
    }
}

/// What the internal roots contribute, in order.
pub open spec fn internal_steps(
    rules: Seq<ResolvedRuleModel>,
    roots: Seq<InternalRootModel>,
    backend: SandboxBackend,
) -> Seq<Step<(), SandboxErrorModel>> {
    Seq::new(roots.len(), |index: int| internal_step(rules, roots[index], backend))
}

fn validate_internal_root(rules: &Vec<ResolvedRule>, root: &InternalRoot, backend: SandboxBackend) -> (result: Result<
    (),
    SandboxError,
>)
    ensures
        match internal_step(rules.deep_view(), root@, backend) {
            Step::Fail(expected) => result matches Err(error) && error@ == expected,
            _ => result is Ok,
        },
{
    validate_absolute_path(&root.path, "an internal sandbox helper")?;
    validate_existing_path_encoding(&root.path, &root.resolution, "an internal sandbox helper")?;
    match explicit_access_for_internal(rules, root)? {
        Some(PathAccess::Deny) => Err(
            unsupported(
                backend,
                SandboxFeature::DeniedReadPaths,
                "a deny rule covers a path required by the sandbox backend",
            ),
        ),
        Some(PathAccess::Write) => Err(
            unsupported(
                backend,
                SandboxFeature::DeniedWritePaths,
                "a write rule covers a path that the sandbox backend must keep read-only",
            ),
        ),
        _ => Ok(()),
    }
}

fn validate_internal_roots(rules: &Vec<ResolvedRule>, roots: &Vec<InternalRoot>, backend: SandboxBackend) -> (result:
    Result<(), SandboxError>)
    ensures
        match model::collected(internal_steps(rules.deep_view(), roots.deep_view(), backend)) {
            Ok(_) => result is Ok,
            Err(expected) => result matches Err(error) && error@ == expected,
        },
{
    let ghost steps = internal_steps(rules.deep_view(), roots.deep_view(), backend);
    proof {
        model::lemma_take_all(steps);
    }
    for index in 0..roots.len()
        invariant
            steps == internal_steps(rules.deep_view(), roots.deep_view(), backend),
            model::collected(steps.take(index as int)) is Ok,
    {
        proof {
            model::lemma_collected_step(steps, index as int);
            assert(steps[index as int] == internal_step(rules.deep_view(), roots@[index as int]@, backend));
        }
        validate_internal_root(rules, &roots[index], backend)?;
    }
    proof {
        model::lemma_take_all(steps);
    }
    Ok(())
}

/// The backend's form of an access.
pub open spec fn access_mode(access: PathAccess) -> FileSystemAccessMode {
    match access {
        PathAccess::Read => FileSystemAccessMode::Read,
        PathAccess::Write => FileSystemAccessMode::Write,
        PathAccess::Deny => FileSystemAccessMode::Deny,
    }
}

/// The backend's form of an access.
pub fn codex_access(access: PathAccess) -> (result: FileSystemAccessMode)
    ensures
        result == access_mode(access),
{
    match access {
        PathAccess::Read => FileSystemAccessMode::Read,
        PathAccess::Write => FileSystemAccessMode::Write,
        PathAccess::Deny => FileSystemAccessMode::Deny,
    }
}

/// An entry for a path and what lies below it.
pub open spec fn path_entry(path: PathModel, access: FileSystemAccessMode) -> EntryModel {
    EntryModel { path: FileSystemPathModel::Path { path }, access }
}

/// The entries of one rule. On Seatbelt a denial also closes its subtree after all
/// platform allowances, so that it stays authoritative under a default root.
pub open spec fn entries_of_rule(rule: RuleModel, backend: SandboxBackend) -> Seq<EntryModel> {
    let entry = path_entry(rule.path, access_mode(rule.access));
    if backend == SandboxBackend::MacosSeatbelt && rule.access == PathAccess::Deny {
        seq![
            entry,
            EntryModel {
                path: FileSystemPathModel::GlobPattern {
                    pattern: crate::policy::glob::glob_escaped(rule.path.text->Unicode_0),
                },
                access: FileSystemAccessMode::Deny,
            },
        ]
    } else {
        seq![entry]
    }
}

/// The entries of the rules, in order.
pub open spec fn entries_of_rules(rules: Seq<ResolvedRuleModel>, backend: SandboxBackend) -> Seq<EntryModel>
    decreases rules.len(),
{
    if rules.len() == 0 {
        Seq::empty()
    } else {
        entries_of_rules(rules.drop_last(), backend) + entries_of_rule(rules.last().rule, backend)
    }
}

/// The entry that opens the policy: reads of the baseline.
pub open spec fn base_entry(base: FileSystemBase) -> EntryModel {
    EntryModel {
        path: FileSystemPathModel::Special {
            value: match base {
                FileSystemBase::PlatformMinimal => FileSystemSpecialPath::Minimal,
                FileSystemBase::HostReadOnly => FileSystemSpecialPath::Root,
            },
        },
        access: FileSystemAccessMode::Read,
    }
}

/// The entries that keep internal roots readable.
pub open spec fn entries_of_roots(roots: Seq<InternalRootModel>) -> Seq<EntryModel> {
    roots.map_values(|root: InternalRootModel| path_entry(root.path, FileSystemAccessMode::Read))
}

/// The access at a location: the explicit one, or that of the baseline.
pub open spec fn effective_access(
    rules: Seq<ResolvedRuleModel>,
    base: FileSystemBase,
    location: Seq<ComponentModel>,
) -> PathAccess {
    match crate::policy::access::explicit_access(rules, RuleScope::Resolved, location) {
        Some(access) => access,
        None => match base {
            FileSystemBase::PlatformMinimal => PathAccess::Deny,
            FileSystemBase::HostReadOnly => PathAccess::Read,
        },
    }
}

/// What one metadata entry contributes: a write where the policy leaves its location writable.
pub open spec fn metadata_step(
    rules: Seq<ResolvedRuleModel>,
    base: FileSystemBase,
    resolved_rule: PathModel,
    probe: MetadataProbeModel,
) -> Step<EntryModel, SandboxErrorModel> {
    match probe.resolution {
        MetadataResolutionModel::Unresolved(reason) => Step::Fail(
            SandboxErrorModel::InvalidPath {
                path: probe.path,
                message: "failed to resolve protected metadata path: "@ + reason,
            },
        ),
        MetadataResolutionModel::Uninspected(reason) => Step::Fail(
            SandboxErrorModel::InvalidPath {
                path: probe.path,
                message: "failed to inspect protected metadata path: "@ + reason,
            },
        ),
        MetadataResolutionModel::Resolved(path) => if effective_access(rules, base, path.components)
            == PathAccess::Write {
            Step::Keep(path_entry(probe.path, FileSystemAccessMode::Write))
        } else {
            Step::Skip
        },
        MetadataResolutionModel::Missing => if effective_access(
            rules,
            base,
            resolved_rule.child_components(probe.name),
        ) == PathAccess::Write {
            Step::Keep(path_entry(probe.path, FileSystemAccessMode::Write))
        } else {
            Step::Skip
        },
    }
}

/// What the metadata entries of one writable directory contribute.
pub open spec fn metadata_steps_of_rule(
    rules: Seq<ResolvedRuleModel>,
    base: FileSystemBase,
    rule: ResolvedRuleModel,
) -> Seq<Step<EntryModel, SandboxErrorModel>> {
    if rule.rule.access == PathAccess::Write && rule.probe.is_directory {
        Seq::new(
            rule.probe.metadata.len(),
            |index: int| metadata_step(rules, base, rule.resolved, rule.probe.metadata[index]),
        )
    } else {
        Seq::empty()
    }
}

/// What the metadata entries of all writable directories contribute.
pub open spec fn metadata_steps(
    rules: Seq<ResolvedRuleModel>,
    base: FileSystemBase,
    writable: Seq<ResolvedRuleModel>,
) -> Seq<Step<EntryModel, SandboxErrorModel>>
    decreases writable.len(),
{
    if writable.len() == 0 {
        Seq::empty()
    } else {
        metadata_steps(rules, base, writable.drop_last()) + metadata_steps_of_rule(rules, base, writable.last())
    }
}

fn effective_access_at(rules: &Vec<ResolvedRule>, base: FileSystemBase, location: &Vec<PathComponent>) -> (result:
    PathAccess)
    ensures
        result == effective_access(rules.deep_view(), base, location.deep_view()),
{
    match explicit_access_at(rules, RuleScope::Resolved, location) {
        Some(access) => access,
        None => match base {
            FileSystemBase::PlatformMinimal => PathAccess::Deny,
            FileSystemBase::HostReadOnly => PathAccess::Read,
        },
    }
}

fn metadata_entry(
    rules: &Vec<ResolvedRule>,
    base: FileSystemBase,
    resolved_rule: &NativePath,
    probe: &MetadataProbe,
) -> (result: Result<Option<FileSystemSandboxEntry>, SandboxError>)
    ensures
        match metadata_step(rules.deep_view(), base, resolved_rule@, probe@) {
            Step::Keep(entry) => result matches Ok(Some(kept)) && kept.deep_view() == entry,
            Step::Skip => result matches Ok(None),
            Step::Fail(expected) => result matches Err(error) && error@ == expected,
        },
{
    let access = match &probe.resolution {
        MetadataResolution::Unresolved(reason) => {
            return Err(
                SandboxError::InvalidPath {
                    path: probe.path.clone(),
                    message: concat2("failed to resolve protected metadata path: ", reason.as_str()),
                },
            );
        },
        MetadataResolution::Uninspected(reason) => {
            return Err(
                SandboxError::InvalidPath {
                    path: probe.path.clone(),
                    message: concat2("failed to inspect protected metadata path: ", reason.as_str()),
                },
            );
        },
        MetadataResolution::Resolved(path) => effective_access_at(rules, base, &path.components),
        MetadataResolution::Missing => {
            let NativePath { text: _, absolute: _, mut components } = resolved_rule.clone();
            let ghost before = components;
            let name = PathComponent::Normal(probe.name.clone());
            components.push(name);
            proof {
                model::lemma_deep_push(before, components, name);
            }
            effective_access_at(rules, base, &components)
        },
    };
    if access == PathAccess::Write {
        Ok(
            Some(
                FileSystemSandboxEntry {
                    path: FileSystemPath::Path { path: probe.path.clone() },
                    access: FileSystemAccessMode::Write,
                },
            ),
        )
    } else {
        Ok(None)
    }
}

fn metadata_entries_of_rule(rules: &Vec<ResolvedRule>, base: FileSystemBase, rule: &ResolvedRule) -> (result: Result<
    Vec<FileSystemSandboxEntry>,
    SandboxError,
>)
    requires
        rule@.rule.access == PathAccess::Write && rule@.probe.is_directory,
    ensures
        match model::collected(metadata_steps_of_rule(rules.deep_view(), base, rule@)) {
            Ok(kept) => result matches Ok(entries) && entries.deep_view() == kept,
            Err(expected) => result matches Err(error) && error@ == expected,
        },
{
    let ghost steps = metadata_steps_of_rule(rules.deep_view(), base, rule@);
    let mut entries: Vec<FileSystemSandboxEntry> = Vec::new();
    let probes = &rule.probe.metadata;
    proof {
        model::lemma_take_all(steps);
        assert(entries.deep_view() =~= Seq::empty());
    }
    for index in 0..probes.len()
        invariant
            probes == rule.probe.metadata,
            steps.len() == probes@.len(),
            forall|i: int|
                0 <= i < probes@.len() ==> #[trigger] steps[i] == metadata_step(
                    rules.deep_view(),
                    base,
                    rule.resolved@,
                    probes@[i]@,
                ),
            steps == metadata_steps_of_rule(rules.deep_view(), base, rule@),
            model::collected(steps.take(index as int)) == Ok::<Seq<EntryModel>, SandboxErrorModel>(
                entries.deep_view(),
            ),
    {
        proof {
            model::lemma_collected_step(steps, index as int);
        }
        if let Some(kept) = metadata_entry(rules, base, rule.resolved, &probes[index])? {
            let ghost before = entries;
            entries.push(kept);
            proof {
                model::lemma_deep_push(before, entries, kept);
            }
        }
    }
    proof {
        model::lemma_take_all(steps);
    }
    Ok(entries)
}

proof fn lemma_deep_append<T: DeepView>(before: Vec<T>, after: Vec<T>, more: Vec<T>)
    requires
        after@ == before@ + more@,
    ensures
        after.deep_view() == before.deep_view() + more.deep_view(),
{
    assert(after.deep_view() =~= before.deep_view() + more.deep_view());
}

proof fn lemma_metadata_steps_prefix(
    rules: Seq<ResolvedRuleModel>,
    base: FileSystemBase,
    writable: Seq<ResolvedRuleModel>,
    count: int,
)
    requires
        0 <= count <= writable.len(),
        model::collected(metadata_steps(rules, base, writable.take(count))) is Err,
    ensures
        model::collected(metadata_steps(rules, base, writable)) == model::collected(
            metadata_steps(rules, base, writable.take(count)),
        ),
    decreases writable.len() - count,
{
    if count == writable.len() {
        model::lemma_take_all(writable);
    } else {
        model::lemma_take_push(writable, count);
        model::lemma_collected_concat(
            metadata_steps(rules, base, writable.take(count)),
            metadata_steps_of_rule(rules, base, writable[count]),
        );
        lemma_metadata_steps_prefix(rules, base, writable, count + 1);
    }
}

fn metadata_entries(rules: &Vec<ResolvedRule>, base: FileSystemBase) -> (result: Result<
    Vec<FileSystemSandboxEntry>,
    SandboxError,
>)
    ensures
        match model::collected(metadata_steps(rules.deep_view(), base, rules.deep_view())) {
            Ok(kept) => result matches Ok(entries) && entries.deep_view() == kept,
            Err(expected) => result matches Err(error) && error@ == expected,
        },
{
    let ghost models = rules.deep_view();
    let mut entries: Vec<FileSystemSandboxEntry> = Vec::new();
    proof {
        model::lemma_take_all(models);
        assert(entries.deep_view() =~= Seq::empty());
    }
    for index in 0..rules.len()
        invariant
            models == rules.deep_view(),
            model::collected(metadata_steps(models, base, models.take(index as int))) == Ok::<
                Seq<EntryModel>,
                SandboxErrorModel,
            >(entries.deep_view()),
    {
        let rule = &rules[index];
        proof {
            assert(models[index as int] == rule@);
            model::lemma_take_push(models, index as int);
            model::lemma_collected_concat(
                metadata_steps(models, base, models.take(index as int)),
                metadata_steps_of_rule(models, base, rule@),
            );
        }
        if rule.rule.access == PathAccess::Write && rule.probe.is_directory {
            match metadata_entries_of_rule(rules, base, rule) {
                Ok(mut more) => {
                    let ghost before = entries;
                    let ghost added = more;
                    entries.append(&mut more);
                    proof {
                        lemma_deep_append(before, entries, added);
                    }
                },
                Err(error) => {
                    proof {
                        lemma_metadata_steps_prefix(models, base, models, index + 1);
                    }
                    return Err(error);
                },
            }
        } else {
            assert(entries.deep_view() + Seq::<EntryModel>::empty() =~= entries.deep_view());
        }
    }
    proof {
        model::lemma_take_all(models);
    }
    Ok(entries)
}

fn push_rule_entries(entries: &mut Vec<FileSystemSandboxEntry>, rule: &PathRule, backend: SandboxBackend) -> (result:
    Result<(), SandboxError>)
    requires
        rule@.path.text.is_unicode(),
    ensures
        result is Ok,
        final(entries).deep_view() == old(entries).deep_view() + entries_of_rule(rule@, backend),
{
    let ghost start = entries.deep_view();
    let ghost before = *entries;
    let entry = FileSystemSandboxEntry {
        path: FileSystemPath::Path { path: rule.path.clone() },
        access: codex_access(rule.access),
    };
    entries.push(entry);
    proof {
        model::lemma_deep_push(before, *entries, entry);
    }
    if backend == SandboxBackend::MacosSeatbelt && rule.access == PathAccess::Deny {
        let pattern = escape_literal_glob(&rule.path)?;
        let ghost before = *entries;
        let entry = FileSystemSandboxEntry {
            path: FileSystemPath::GlobPattern { pattern },
            access: FileSystemAccessMode::Deny,
        };
        entries.push(entry);
        proof {
            model::lemma_deep_push(before, *entries, entry);
        }
    }
    assert(entries.deep_view() =~= start + entries_of_rule(rule@, backend));
    Ok(())
}

/// The draft of a policy, or the first reason why there is none.
pub open spec fn drafted(
    policy: PolicyModel,
    probes: Seq<RuleProbeModel>,
    cwd: PathModel,
    backend: SandboxBackend,
    roots: Seq<InternalRootModel>,
) -> Result<PreparedModel, SandboxErrorModel> {
    if !cwd.absolute {
        Err(relative_path_error(cwd, "the command working directory"@))
    } else {
        match model::collected(rule_steps(policy.rules, probes)) {
            Err(error) => Err(error),
            Ok(rules) => match crate::policy::backend::backend_refusal(policy, rules, backend) {
                Some(refusal) => Err(refusal.error(backend)),
                None => match model::collected(internal_steps(rules, roots, backend)) {
                    Err(error) => Err(error),
                    Ok(_) => match model::collected(metadata_steps(rules, policy.base, rules)) {
                        Err(error) => Err(error),
                        Ok(metadata) => Ok(
                            PreparedModel {
                                file_system: seq![base_entry(policy.base)] + entries_of_rules(rules, backend)
                                    + entries_of_roots(roots) + metadata,
                                network: match policy.network {
                                    NetworkPolicy::Denied => NetworkSandboxPolicy::Restricted,
                                    NetworkPolicy::Unrestricted => NetworkSandboxPolicy::Enabled,
                                },
                            },
                        ),
                    },
                },
            },
        }
    }
}

/// The prepared form of a policy, or the first reason why there is none: its draft, unless
/// a path crosses a writable symlink where the backend needs stable paths.
pub open spec fn prepared(
    policy: PolicyModel,
    probes: Seq<RuleProbeModel>,
    cwd: PathModel,
    backend: SandboxBackend,
    roots: Seq<InternalRootModel>,
    crossings: CrossingsModel,
) -> Result<PreparedModel, SandboxErrorModel> {
    match drafted(policy, probes, cwd, backend, roots) {
        Err(error) => Err(error),
        Ok(draft) => match crate::policy::linux::crossing_refusal(crossings, backend) {
            Some(error) => Err(error),
            None => Ok(draft),
        },
    }
}

/// Turns a policy into the entries that the backend would enforce.
///
/// `probes` holds what the host reports about each rule, in the order of the rules.
pub fn draft_policy(
    policy: &SandboxPolicy,
    probes: &Vec<RuleProbe>,
    cwd: &NativePath,
    backend: SandboxBackend,
    internal_read_roots: &Vec<InternalRoot>,
) -> (result: Result<PolicyDraft, SandboxError>)
    requires
        policy.filesystem.rules@.len() == probes@.len(),
    ensures
        match drafted(policy@, probes.deep_view(), cwd@, backend, internal_read_roots.deep_view()) {
            Ok(expected) => result matches Ok(draft) && draft@ == expected,
            Err(expected) => result matches Err(error) && error@ == expected,
        },
{
    validate_absolute_path(cwd, "the command working directory")?;
    let rules = existing_rules(&policy.filesystem.rules, probes)?;
    let ghost models = rules.deep_view();
    validate_backend_policy(policy, &rules, backend)?;
    validate_internal_roots(&rules, internal_read_roots, backend)?;

    proof {
        assert forall|i: int| 0 <= i < models.len() implies (#[trigger] models[i]).rule.path.text.is_unicode() by {
            crate::policy::laws::prepared_rules_are_absolute_unicode(policy@.rules, probes.deep_view(), models, i);
        }
    }
    let base_path = match policy.filesystem.base {
        FileSystemBase::PlatformMinimal => FileSystemSpecialPath::Minimal,
        FileSystemBase::HostReadOnly => FileSystemSpecialPath::Root,
    };
    let mut entries: Vec<FileSystemSandboxEntry> = Vec::new();
    entries.push(
        FileSystemSandboxEntry {
            path: FileSystemPath::Special { value: base_path },
            access: FileSystemAccessMode::Read,
        },
    );
    let ghost base = seq![base_entry(policy@.base)];
    proof {
        model::lemma_take_all(models);
        assert(entries.deep_view() =~= base + entries_of_rules(models.take(0), backend));
    }
    for index in 0..rules.len()
        invariant
            models == rules.deep_view(),
            forall|i: int| 0 <= i < models.len() ==> (#[trigger] models[i]).rule.path.text.is_unicode(),
            entries.deep_view() == base + entries_of_rules(models.take(index as int), backend),
    {
        proof {
            assert(models[index as int] == rules@[index as int]@);
            model::lemma_take_push(models, index as int);
        }
        let pushed = push_rule_entries(&mut entries, rules[index].rule, backend);
        assert(pushed is Ok);
        assert(entries.deep_view() =~= base + entries_of_rules(models.take(index + 1), backend));
    }
    let ghost ruled = entries.deep_view();
    let ghost roots = internal_read_roots.deep_view();
    let ghost root_entries = entries_of_roots(roots);
    proof {
        model::lemma_take_all(models);
        model::lemma_take_all(root_entries);
        assert(ruled + root_entries.take(0) =~= ruled);
    }
    for index in 0..internal_read_roots.len()
        invariant
            roots == internal_read_roots.deep_view(),
            root_entries == entries_of_roots(roots),
            entries.deep_view() == ruled + root_entries.take(index as int),
    {
        let entry = FileSystemSandboxEntry {
            path: FileSystemPath::Path { path: internal_read_roots[index].path.clone() },
            access: FileSystemAccessMode::Read,
        };
        let ghost before = entries;
        entries.push(entry);
        proof {
            model::lemma_deep_push(before, entries, entry);
            model::lemma_take_push(root_entries, index as int);
            assert(roots[index as int] == internal_read_roots@[index as int].deep_view());
            assert(entry.deep_view() == root_entries[index as int]);
            assert(entries.deep_view() =~= ruled + root_entries.take(index + 1));
        }
    }
    proof {
        model::lemma_take_all(root_entries);
    }
    let mut metadata = metadata_entries(&rules, policy.filesystem.base)?;
    let ghost before = entries;
    let ghost added = metadata;
    entries.append(&mut metadata);
    proof {
        lemma_deep_append(before, entries, added);
    }
    let network = match policy.network {
        NetworkPolicy::Denied => NetworkSandboxPolicy::Restricted,
        NetworkPolicy::Unrestricted => NetworkSandboxPolicy::Enabled,
    };
    Ok(PolicyDraft { file_system: entries, network })
}

/// Whether the paths of a prepared policy must not cross writable symlinks.
pub fn requires_path_stability(backend: SandboxBackend) -> (result: bool)
    ensures
        result == (backend == SandboxBackend::LinuxBubblewrap),
{
    backend == SandboxBackend::LinuxBubblewrap
}

/// Makes a draft the policy that is enforced, unless its paths cross a writable symlink
/// where the backend needs stable paths. `crossings` is what the host found for the draft.
pub fn settle_policy(draft: PolicyDraft, backend: SandboxBackend, crossings: &PathCrossings) -> (result: Result<
    PreparedPolicy,
    SandboxError,
>)
    ensures
        match crate::policy::linux::crossing_refusal(crossings@, backend) {
            Some(expected) => result matches Err(error) && error@ == expected,
            None => result matches Ok(policy) && policy@ == draft@,
        },
{
    if requires_path_stability(backend) {
        validate_path_stability(&crossings.read_only, &crossings.unreadable, backend)?;
    }
    Ok(PreparedPolicy { file_system: draft.file_system, network: draft.network })
}

/// Turns a policy into the entries that the backend enforces.
///
/// `probes` holds what the host reports about each rule, in the order of the rules, and
/// `crossings` what it found for the draft of the policy.
pub fn prepare_policy(
    policy: &SandboxPolicy,
    probes: &Vec<RuleProbe>,
    cwd: &NativePath,
    backend: SandboxBackend,
    internal_read_roots: &Vec<InternalRoot>,
    crossings: &PathCrossings,
) -> (result: Result<PreparedPolicy, SandboxError>)
    requires
        policy.filesystem.rules@.len() == probes@.len(),
    ensures
        match prepared(
            policy@,
            probes.deep_view(),
            cwd@,
            backend,
            internal_read_roots.deep_view(),
            crossings@,
        ) {
            Ok(expected) => result matches Ok(prepared_policy) && prepared_policy@ == expected,
            Err(expected) => result matches Err(error) && error@ == expected,
        },
{
    let draft = draft_policy(policy, probes, cwd, backend, internal_read_roots)?;
    settle_policy(draft, backend, crossings)
}

/// A needed path that a rule conflicts with is refused for what the rule asks: for the
/// denial of its reads, or for the writes that the backend must keep from it. One without a
/// conflict, that is absolute and can be resolved and named, is not refused.
pub proof fn needed_paths_are_refused_for_their_conflict(
    rules: Seq<ResolvedRuleModel>,
    root: InternalRootModel,
    backend: SandboxBackend,
)
    requires
        root.path.absolute,
        encoding_error(root.path, root.resolution, "an internal sandbox helper"@) is None,
    ensures
        ({
            let conflict = crate::policy::internal::internal_conflict(rules, root.path, root.resolution->Resolved_0);
            let step = internal_step(rules, root, backend);
            &&& step is Fail <==> conflict is Some
            &&& conflict == Some(PathAccess::Deny) ==> step->Fail_0 is UnsupportedPolicy
                && step->Fail_0->UnsupportedPolicy_feature == SandboxFeature::DeniedReadPaths
                && step->Fail_0->UnsupportedPolicy_backend == backend
            &&& conflict == Some(PathAccess::Write) ==> step->Fail_0 is UnsupportedPolicy
                && step->Fail_0->UnsupportedPolicy_feature == SandboxFeature::DeniedWritePaths
                && step->Fail_0->UnsupportedPolicy_backend == backend
        }),
{
}

} // verus!
