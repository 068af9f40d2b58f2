//! Installing the persistent filters.

use crate::text::{concat3, concat5, decimal_string};
use crate::windows::failure::{Failure, FailureModel};
use crate::windows::namespace::WindowsSandboxPolicyNamespace;
use crate::windows::product::Guid;
use crate::windows::wfp::filter_specs::{filter_specs, FilterSpec};
use crate::windows::wfp::verify::{
    ensure_success_or, verify_provider, verify_sublayer, InstalledObjects, ProviderRecord, SublayerRecord,
};
use vstd::prelude::*;
use vstd::string::*;

verus! {

/// Result codes of the filtering engine.
pub const FWP_E_FILTER_NOT_FOUND: u32 = 0x8032_0003;

pub const FWP_E_NOT_FOUND: u32 = 0x8032_0008;

pub const FWP_E_ALREADY_EXISTS: u32 = 0x8032_0009;

/// One step of an installation. All steps that follow the start of the transaction
/// belong to it.
#[derive(Clone, Copy, Debug)]
pub enum InstallStep {
    OpenEngine,
    BeginTransaction,
    /// Add the provider, unless it is there already.
    AddProvider,
    /// Look the provider up, whether it was just added or not.
    VerifyProvider,
    /// Add the sublayer, unless it is there already.
    AddSublayer,
    /// Look the sublayer up, whether it was just added or not.
    VerifySublayer,
    /// Find the confined account.
    ResolveAccount,
    /// Build the condition that names the confined account.
    BuildUserCondition,
    /// Delete an old copy of a filter.
    DeleteFilter(Guid),
    AddFilter(FilterSpec),
    Commit,
}

/// The steps that replace the first `count` filters.
pub open spec fn filter_steps(namespace: WindowsSandboxPolicyNamespace, count: nat) -> Seq<InstallStep>
    decreases count,
{
    if count == 0 {
        Seq::empty()
    } else {
        let spec = crate::windows::wfp::filter_specs::filter_table()[count - 1];
        filter_steps(namespace, (count - 1) as nat) + seq![
            InstallStep::DeleteFilter(spec.key_in(namespace)),
            InstallStep::AddFilter(spec),
        ]
    }
}

/// The steps before the filters, in order.
pub open spec fn first_steps() -> Seq<InstallStep> {
    seq![
        InstallStep::OpenEngine,
        InstallStep::BeginTransaction,
        InstallStep::AddProvider,
        InstallStep::VerifyProvider,
        InstallStep::AddSublayer,
        InstallStep::VerifySublayer,
        InstallStep::ResolveAccount,
        InstallStep::BuildUserCondition,
    ]
}

/// The steps of an installation, in order.
pub open spec fn install_steps(namespace: WindowsSandboxPolicyNamespace) -> Seq<InstallStep> {
    first_steps() + filter_steps(namespace, crate::windows::wfp::filter_specs::filter_table().len()) + seq![InstallStep::Commit]
}

/// An installation for one account.
pub struct InstallPlan {
    pub account: String,
    pub namespace: WindowsSandboxPolicyNamespace,
    pub steps: Vec<InstallStep>,
    /// The number of filters that are installed once the transaction is committed.
    pub installed_filter_count: usize,
}

impl InstallPlan {
    /// Whether this is the installation for an account in a namespace.
    pub open spec fn is_for(self, account: Seq<char>, namespace: WindowsSandboxPolicyNamespace) -> bool {
        &&& self.account@ == account
        &&& self.namespace == namespace
        &&& self.steps@ == install_steps(namespace)
        &&& self.installed_filter_count == crate::windows::wfp::filter_specs::filter_table().len()
    }
}

/// Plans the installation of the persistent Codex filters for `account`.
///
/// This is intended to run from the already-elevated setup helper. Callers
/// should treat a failed installation as non-fatal to the rest of setup.
pub fn install_wfp_filters_for_account(account: &str) -> (result: InstallPlan)
    ensures
        result.is_for(account@, WindowsSandboxPolicyNamespace::Codex),
{
    install_wfp_filters_for_account_in_namespace(account, WindowsSandboxPolicyNamespace::Codex)
}

/// Plans the installation of the persistent filters for one closed Windows sandbox
/// policy namespace.
pub fn install_wfp_filters_for_account_in_namespace(
    account: &str,
    namespace: WindowsSandboxPolicyNamespace,
) -> (result: InstallPlan)
    ensures
        result.is_for(account@, namespace),
{
    let mut steps: Vec<InstallStep> = Vec::new();
    steps.push(InstallStep::OpenEngine);
    steps.push(InstallStep::BeginTransaction);
    steps.push(InstallStep::AddProvider);
    steps.push(InstallStep::VerifyProvider);
    steps.push(InstallStep::AddSublayer);
    steps.push(InstallStep::VerifySublayer);
    steps.push(InstallStep::ResolveAccount);
    steps.push(InstallStep::BuildUserCondition);
    let ghost lead = steps@;
    assert(lead =~= first_steps());
    let specs = filter_specs();
    assert(lead + filter_steps(namespace, 0) =~= lead);
    for index in 0..specs.len()
        invariant
            specs@ == crate::windows::wfp::filter_specs::filter_table(),
            steps@ == lead + filter_steps(namespace, index as nat),
    {
        let spec = specs[index];
        steps.push(InstallStep::DeleteFilter(spec.key(namespace)));
        steps.push(InstallStep::AddFilter(spec));
        assert(steps@ =~= lead + filter_steps(namespace, (index + 1) as nat));
    }
    steps.push(InstallStep::Commit);
    assert(steps@ =~= install_steps(namespace));
    InstallPlan { account: account.to_owned(), namespace, steps, installed_filter_count: specs.len() }
}

/// What came of a step: the host's code, or what a lookup gave.
pub enum InstallEvent {
    Code(u32),
    Provider(Result<ProviderRecord, Failure>),
    Sublayer(Result<SublayerRecord, Failure>),
    Account(Result<(), Failure>),
}

impl InstallStep {
    /// Whether an event can follow the step.
    pub open spec fn expects(self, event: InstallEvent) -> bool {
        match self {
            InstallStep::VerifyProvider => event is Provider,
            InstallStep::VerifySublayer => event is Sublayer,
            InstallStep::ResolveAccount => event is Account,
            _ => event is Code,
        }
    }
}

/// The operation behind a step, and the codes besides success that it accepts.
pub open spec fn step_operation(step: InstallStep, namespace: WindowsSandboxPolicyNamespace) -> (Seq<char>, Seq<u32>) {
    match step {
        InstallStep::OpenEngine => ("FwpmEngineOpen0"@, Seq::empty()),
        InstallStep::BeginTransaction => ("FwpmTransactionBegin0"@, Seq::empty()),
        InstallStep::AddProvider => ("FwpmProviderAdd0"@, seq![FWP_E_ALREADY_EXISTS]),
        InstallStep::AddSublayer => ("FwpmSubLayerAdd0"@, seq![FWP_E_ALREADY_EXISTS]),
        InstallStep::BuildUserCondition => ("BuildSecurityDescriptorW"@, Seq::empty()),
        InstallStep::DeleteFilter(_) => (
            "FwpmFilterDeleteByKey0"@,
            seq![FWP_E_FILTER_NOT_FOUND, FWP_E_NOT_FOUND],
        ),
        InstallStep::AddFilter(spec) => ("FwpmFilterAdd0("@ + spec.name_in(namespace) + ")"@, Seq::empty()),
        _ => ("FwpmTransactionCommit0"@, Seq::empty()),
    }
}

/// Why a step ends the installation, if it does.
pub open spec fn step_failure(
    step: InstallStep,
    namespace: WindowsSandboxPolicyNamespace,
    event: InstallEvent,
) -> Option<FailureModel> {
    match event {
        InstallEvent::Provider(provider) => crate::windows::wfp::verify::provider_check(provider),
        InstallEvent::Sublayer(sublayer) => crate::windows::wfp::verify::sublayer_check(sublayer),
        InstallEvent::Account(Err(failure)) => Some(failure@),
        InstallEvent::Account(Ok(_)) => None,
        InstallEvent::Code(code) => crate::windows::wfp::verify::operation_failure(
            code,
            step_operation(step, namespace).0,
            step_operation(step, namespace).1,
        ),
    }
}

fn code_outcome(step: InstallStep, namespace: WindowsSandboxPolicyNamespace, code: u32) -> (result: Result<(), Failure>)
    ensures
        match crate::windows::wfp::verify::operation_failure(
            code,
            step_operation(step, namespace).0,
            step_operation(step, namespace).1,
        ) {
            Some(expected) => result matches Err(failure) && failure@ == expected,
            None => result is Ok,
        },
{
    let mut accepted: Vec<u32> = Vec::new();
    match step {
        InstallStep::OpenEngine => ensure_success_or(code, "FwpmEngineOpen0", &accepted),
        InstallStep::BeginTransaction => ensure_success_or(code, "FwpmTransactionBegin0", &accepted),
        InstallStep::AddProvider => {
            accepted.push(FWP_E_ALREADY_EXISTS);
            assert(accepted@ =~= seq![FWP_E_ALREADY_EXISTS]);
            ensure_success_or(code, "FwpmProviderAdd0", &accepted)
        },
        InstallStep::AddSublayer => {
            accepted.push(FWP_E_ALREADY_EXISTS);
            assert(accepted@ =~= seq![FWP_E_ALREADY_EXISTS]);
            ensure_success_or(code, "FwpmSubLayerAdd0", &accepted)
        },
        InstallStep::BuildUserCondition => ensure_success_or(code, "BuildSecurityDescriptorW", &accepted),
        InstallStep::DeleteFilter(_) => {
            accepted.push(FWP_E_FILTER_NOT_FOUND);
            accepted.push(FWP_E_NOT_FOUND);
            assert(accepted@ =~= seq![FWP_E_FILTER_NOT_FOUND, FWP_E_NOT_FOUND]);
            ensure_success_or(code, "FwpmFilterDeleteByKey0", &accepted)
        },
        InstallStep::AddFilter(spec) => {
            let operation = concat3("FwpmFilterAdd0(", spec.name(namespace), ")");
            ensure_success_or(code, operation.as_str(), &accepted)
        },
        _ => ensure_success_or(code, "FwpmTransactionCommit0", &accepted),
    }
}

/// Judges a step by what came of it.
pub fn step_outcome(step: InstallStep, namespace: WindowsSandboxPolicyNamespace, event: &InstallEvent) -> (result: Result<
    (),
    Failure,
>)
    requires
        step.expects(*event),
    ensures
        match step_failure(step, namespace, *event) {
            Some(expected) => result matches Err(failure) && failure@ == expected,
            None => result is Ok,
        },
{
    match event {
        InstallEvent::Provider(provider) => verify_provider(provider),
        InstallEvent::Sublayer(sublayer) => verify_sublayer(sublayer),
        InstallEvent::Account(Ok(_)) => Ok(()),
        InstallEvent::Account(Err(failure)) => Err(failure.clone()),
        InstallEvent::Code(code) => code_outcome(step, namespace, *code),
    }
}

/// How an installation goes on.
pub enum InstallProgress {
    /// Perform the step at this place.
    Perform(usize),
    /// The transaction is committed, with this many filters.
    Installed(usize),
    /// A transaction that was begun is to be aborted, which leaves the old filters.
    Failed { failure: Failure, abort: bool },
}

/// What an [`InstallProgress`] holds.
pub enum InstallProgressModel {
    Perform(nat),
    Installed(nat),
    Failed { failure: FailureModel, abort: bool },
}

impl DeepView for InstallProgress {
    type V = InstallProgressModel;

    open spec fn deep_view(&self) -> InstallProgressModel {
        match self {
            InstallProgress::Perform(index) => InstallProgressModel::Perform(*index as nat),
            InstallProgress::Installed(count) => InstallProgressModel::Installed(*count as nat),
            InstallProgress::Failed { failure, abort } => InstallProgressModel::Failed {
                failure: failure@,
                abort: *abort,
            },
        }
    }
}

impl View for InstallProgress {
    type V = InstallProgressModel;

    open spec fn view(&self) -> InstallProgressModel {
        self.deep_view()
    }
}

/// How an installation goes on after the step at a place.
pub open spec fn after_installing(
    namespace: WindowsSandboxPolicyNamespace,
    position: int,
    event: InstallEvent,
) -> InstallProgressModel {
    let steps = install_steps(namespace);
    match step_failure(steps[position], namespace, event) {
        Some(failure) => InstallProgressModel::Failed { failure, abort: position >= 2 },
        None => if position + 1 < steps.len() {
            InstallProgressModel::Perform((position + 1) as nat)
        } else {
            InstallProgressModel::Installed(crate::windows::wfp::filter_specs::filter_table().len())
        },
    }
}

/// Decides how an installation goes on after the step at a place. It starts with the
/// first step and passes every one in order.
pub fn after_install_step(plan: &InstallPlan, position: usize, event: InstallEvent) -> (result: InstallProgress)
    requires
        plan.is_for(plan.account@, plan.namespace),
        position < plan.steps@.len(),
        plan.steps@[position as int].expects(event),
    ensures
        result@ == after_installing(plan.namespace, position as int, event),
{
    match step_outcome(plan.steps[position], plan.namespace, &event) {
        Err(failure) => InstallProgress::Failed { failure, abort: position >= 2 },
        Ok(_) => {
            if position < plan.steps.len() - 1 {
                InstallProgress::Perform(position + 1)
            } else {
                InstallProgress::Installed(plan.installed_filter_count)
            }
        },
    }
}

/// How an installation ended.
pub enum InstallOutcome {
    Installed(usize),
    Failed(Failure),
    /// It panicked, with this message where there was one.
    Panicked(Option<String>),
}

/// The line that reports how an installation ended.
pub open spec fn outcome_line(offline_username: Seq<char>, outcome: InstallOutcome) -> Seq<char> {
    match outcome {
        InstallOutcome::Installed(count) => "WFP setup succeeded for "@ + offline_username + " with "@
            + crate::text::decimal(count as nat) + " installed filters"@,
        InstallOutcome::Failed(failure) => "WFP setup failed for "@ + offline_username + ": "@ + failure@.message
            + "; continuing elevated setup"@,
        InstallOutcome::Panicked(message) => "WFP setup panicked for "@ + offline_username + ": "@ + (match message {
            Some(message) => message@,
            None => "unknown panic payload"@,
        }) + "; continuing elevated setup"@,
    }
}

/// The line that reports how an installation ended. Setup goes on in every case.
pub fn install_wfp_filters(offline_username: &str, outcome: &InstallOutcome) -> (result: String)
    ensures
        result@ == outcome_line(offline_username@, *outcome),
{
    match outcome {
        InstallOutcome::Installed(count) => {
            let digits = decimal_string(*count as u64);
            concat5(
                "WFP setup succeeded for ",
                offline_username,
                " with ",
                digits.as_str(),
                " installed filters",
            )
        },
        InstallOutcome::Failed(failure) => concat5(
            "WFP setup failed for ",
            offline_username,
            ": ",
            failure.message.as_str(),
            "; continuing elevated setup",
        ),
        InstallOutcome::Panicked(Some(message)) => concat5(
            "WFP setup panicked for ",
            offline_username,
            ": ",
            message.as_str(),
            "; continuing elevated setup",
        ),
        InstallOutcome::Panicked(None) => concat5(
            "WFP setup panicked for ",
            offline_username,
            ": ",
            "unknown panic payload",
            "; continuing elevated setup",
        ),
    }
}

proof fn lemma_filter_steps_at(namespace: WindowsSandboxPolicyNamespace, count: nat, index: int)
    requires
        0 <= index < count,
    ensures
        filter_steps(namespace, count).len() == 2 * count,
        filter_steps(namespace, count)[2 * index] == InstallStep::DeleteFilter(
            crate::windows::wfp::filter_specs::filter_table()[index].key_in(namespace),
        ),
        filter_steps(namespace, count)[2 * index + 1] == InstallStep::AddFilter(
            crate::windows::wfp::filter_specs::filter_table()[index],
        ),
    decreases count,
{
    if count > 1 {
        if index < count - 1 {
            lemma_filter_steps_at(namespace, (count - 1) as nat, index);
        } else {
            lemma_filter_steps_at(namespace, (count - 1) as nat, 0);
        }
    } else {
        assert(filter_steps(namespace, 0).len() == 0);
    }
}

/// Every filter of the table is deleted right before it is added again, so that an
/// installation replaces what an earlier one left and nothing else.
pub proof fn installation_replaces_every_filter(namespace: WindowsSandboxPolicyNamespace, index: int)
    requires
        0 <= index < crate::windows::wfp::filter_specs::filter_table().len(),
    ensures
        install_steps(namespace)[8 + 2 * index] == InstallStep::DeleteFilter(
            crate::windows::wfp::filter_specs::filter_table()[index].key_in(namespace),
        ),
        install_steps(namespace)[8 + 2 * index + 1] == InstallStep::AddFilter(
            crate::windows::wfp::filter_specs::filter_table()[index],
        ),
        install_steps(namespace).last() == InstallStep::Commit,
        install_steps(namespace).len() == 9 + 2 * crate::windows::wfp::filter_specs::filter_table().len(),
{
    lemma_filter_steps_at(namespace, crate::windows::wfp::filter_specs::filter_table().len(), index);
}

/// Console's identities of the provider, the sublayer, and all filters are apart from
/// those of Codex.
pub proof fn product_keys_are_disjoint(first: int, second: int)
    requires
        0 <= first < source_keys().len(),
        0 <= second < source_keys().len(),
    ensures
        crate::windows::product::WindowsSandboxProduct::Console.mapped_key(source_keys()[first])
            != crate::windows::product::WindowsSandboxProduct::Codex.mapped_key(source_keys()[second]),
{
    if first == second {
        crate::windows::product::key_transform_is_an_involution(source_keys()[first]);
    } else {
        lemma_source_keys_differ(first, second);
    }
}

/// The identities of the provider, the sublayer, and the Codex filters.
pub open spec fn source_keys() -> Seq<Guid> {
    seq![
        crate::windows::wfp::verify::provider_identity(),
        crate::windows::wfp::verify::sublayer_identity(),
    ] + crate::windows::wfp::filter_specs::filter_table().map_values(|spec: FilterSpec| spec.codex_key)
}

proof fn lemma_source_keys_differ(first: int, second: int)
    requires
        0 <= first < source_keys().len(),
        0 <= second < source_keys().len(),
        first != second,
    ensures
        source_keys()[first].data4 != source_keys()[second].data4,
{
    let table = crate::windows::wfp::filter_specs::filter_table();
    if first >= 2 {
        assert(source_keys()[first] == table[first - 2].codex_key);
    }
    if second >= 2 {
        assert(source_keys()[second] == table[second - 2].codex_key);
    }
    if first >= 2 && second >= 2 {
        crate::windows::wfp::filter_specs::filter_keys_are_disjoint(
            first - 2,
            WindowsSandboxPolicyNamespace::Codex,
            second - 2,
            WindowsSandboxPolicyNamespace::Codex,
        );
    }
}

/// A filter as the host stores it under its identity.
pub struct StoredFilter {
    pub spec: FilterSpec,
    pub namespace: WindowsSandboxPolicyNamespace,
    /// The account whose traffic is blocked.
    pub account: Seq<char>,
}

/// The filters that a transaction holds after its steps.
pub open spec fn filters_after(
    filters: Map<Guid, StoredFilter>,
    steps: Seq<InstallStep>,
    namespace: WindowsSandboxPolicyNamespace,
    account: Seq<char>,
) -> Map<Guid, StoredFilter>
    decreases steps.len(),
{
    if steps.len() == 0 {
        filters
    } else {
        let before = filters_after(filters, steps.drop_last(), namespace, account);
        match steps.last() {
            InstallStep::DeleteFilter(key) => before.remove(key),
            InstallStep::AddFilter(spec) => before.insert(
                spec.key_in(namespace),
                StoredFilter { spec, namespace, account },
            ),
            _ => before,
        }
    }
}

/// The filters that the host stores once an installation got this far: those of the
/// transaction where it was committed, else those of before.
pub open spec fn stored_filters(
    filters: Map<Guid, StoredFilter>,
    progress: InstallProgressModel,
    namespace: WindowsSandboxPolicyNamespace,
    account: Seq<char>,
) -> Map<Guid, StoredFilter> {
    if progress is Installed {
        filters_after(filters, install_steps(namespace), namespace, account)
    } else {
        filters
    }
}

/// Whether an identity is that of one of the first `count` filters.
pub open spec fn is_filter_key(namespace: WindowsSandboxPolicyNamespace, count: nat, key: Guid) -> bool {
    exists|index: int|
        0 <= index < count && (#[trigger] crate::windows::wfp::filter_specs::filter_table()[index]).key_in(namespace)
            == key
}

/// Whether the first `count` filters are stored, each under its identity and scoped to the
/// account.
pub open spec fn holds_filters(
    filters: Map<Guid, StoredFilter>,
    namespace: WindowsSandboxPolicyNamespace,
    account: Seq<char>,
    count: nat,
) -> bool {
    let table = crate::windows::wfp::filter_specs::filter_table();
    forall|index: int|
        0 <= index < count ==> {
            let key = (#[trigger] table[index]).key_in(namespace);
            filters.contains_key(key) && filters[key] == (StoredFilter { spec: table[index], namespace, account })
        }
}

/// Whether the same is stored under an identity.
pub open spec fn stores_same(before: Map<Guid, StoredFilter>, after: Map<Guid, StoredFilter>, key: Guid) -> bool {
    &&& after.contains_key(key) <==> before.contains_key(key)
    &&& before.contains_key(key) ==> after[key] == before[key]
}

proof fn lemma_first_steps(filters: Map<Guid, StoredFilter>, namespace: WindowsSandboxPolicyNamespace, account: Seq<char>)
    ensures
        filters_after(filters, first_steps(), namespace, account) == filters,
{
    let s8 = first_steps();
    let s7 = s8.drop_last();
    let s6 = s7.drop_last();
    let s5 = s6.drop_last();
    let s4 = s5.drop_last();
    let s3 = s4.drop_last();
    let s2 = s3.drop_last();
    let s1 = s2.drop_last();
    let s0 = s1.drop_last();
    assert(filters_after(filters, s0, namespace, account) == filters);
    assert(filters_after(filters, s1, namespace, account) == filters);
    assert(filters_after(filters, s2, namespace, account) == filters);
    assert(filters_after(filters, s3, namespace, account) == filters);
    assert(filters_after(filters, s4, namespace, account) == filters);
    assert(filters_after(filters, s5, namespace, account) == filters);
    assert(filters_after(filters, s6, namespace, account) == filters);
    assert(filters_after(filters, s7, namespace, account) == filters);
}

proof fn lemma_filters_after(
    filters: Map<Guid, StoredFilter>,
    namespace: WindowsSandboxPolicyNamespace,
    account: Seq<char>,
    count: nat,
)
    requires
        count <= crate::windows::wfp::filter_specs::filter_table().len(),
    ensures
        ({
            let after = filters_after(filters, first_steps() + filter_steps(namespace, count), namespace, account);
            &&& holds_filters(after, namespace, account, count)
            &&& forall|key: Guid|
                !is_filter_key(namespace, count, key) ==> #[trigger] stores_same(filters, after, key)
        }),
    decreases count,
{
    let table = crate::windows::wfp::filter_specs::filter_table();
    let steps = first_steps() + filter_steps(namespace, count);
    if count == 0 {
        assert(steps =~= first_steps());
        lemma_first_steps(filters, namespace, account);
    } else {
        let earlier = (count - 1) as nat;
        let spec = table[count - 1];
        let lead = first_steps() + filter_steps(namespace, earlier);
        lemma_filters_after(filters, namespace, account, earlier);
        assert(steps =~= lead.push(InstallStep::DeleteFilter(spec.key_in(namespace))).push(InstallStep::AddFilter(spec)));
        let deleted = lead.push(InstallStep::DeleteFilter(spec.key_in(namespace)));
        assert(steps.drop_last() =~= deleted);
        assert(deleted.drop_last() =~= lead);
        let before = filters_after(filters, lead, namespace, account);
        let after = filters_after(filters, steps, namespace, account);
        assert(filters_after(filters, deleted, namespace, account) == before.remove(spec.key_in(namespace)));
        assert(after == before.remove(spec.key_in(namespace)).insert(
            spec.key_in(namespace),
            StoredFilter { spec, namespace, account },
        ));
        assert forall|index: int| 0 <= index < count implies {
            let key = (#[trigger] table[index]).key_in(namespace);
            after.contains_key(key) && after[key] == (StoredFilter { spec: table[index], namespace, account })
        } by {
            if index < count - 1 {
                crate::windows::wfp::filter_specs::filter_keys_are_disjoint(
                    index,
                    namespace,
                    count - 1,
                    namespace,
                );
            }
        }
        assert forall|key: Guid| !is_filter_key(namespace, count, key) implies #[trigger] stores_same(
            filters,
            after,
            key,
        ) by {
            assert(table[count - 1].key_in(namespace) != key);
            assert(!is_filter_key(namespace, earlier, key)) by {
                if is_filter_key(namespace, earlier, key) {
                    let index = choose|index: int|
                        0 <= index < earlier && (#[trigger] table[index]).key_in(namespace) == key;
                    assert(table[index].key_in(namespace) == key);
                }
            }
            assert(stores_same(filters, before, key));
        }
    }
}

/// An installation that succeeds has installed all twelve filters, each under its identity
/// and scoped to the account. One that fails leaves what was stored. Neither touches what
/// is stored under any other identity, those of the other namespace among them.
pub proof fn installations_are_all_or_nothing(
    filters: Map<Guid, StoredFilter>,
    namespace: WindowsSandboxPolicyNamespace,
    account: Seq<char>,
    position: int,
    event: InstallEvent,
    key: Guid,
)
    requires
        0 <= position < install_steps(namespace).len(),
        install_steps(namespace)[position].expects(event),
    ensures
        ({
            let table = crate::windows::wfp::filter_specs::filter_table();
            let progress = after_installing(namespace, position, event);
            let after = stored_filters(filters, progress, namespace, account);
            &&& progress matches InstallProgressModel::Installed(count) ==> {
                &&& count == 12
                &&& position == install_steps(namespace).len() - 1
                &&& holds_filters(after, namespace, account, table.len())
            }
            &&& progress is Failed ==> after == filters
            &&& !is_filter_key(namespace, table.len(), key) ==> stores_same(filters, after, key)
        }),
{
    let table = crate::windows::wfp::filter_specs::filter_table();
    let lead = first_steps() + filter_steps(namespace, table.len());
    lemma_filters_after(filters, namespace, account, table.len());
    assert(install_steps(namespace) =~= lead.push(InstallStep::Commit));
    assert(install_steps(namespace).drop_last() =~= lead);
    assert(filters_after(filters, install_steps(namespace), namespace, account) == filters_after(
        filters,
        lead,
        namespace,
        account,
    ));
}

/// An installation in one namespace leaves every filter of the other as it is.
pub proof fn installations_keep_the_other_namespace(
    filters: Map<Guid, StoredFilter>,
    namespace: WindowsSandboxPolicyNamespace,
    other: WindowsSandboxPolicyNamespace,
    account: Seq<char>,
    position: int,
    event: InstallEvent,
    index: int,
)
    requires
        namespace != other,
        0 <= position < install_steps(namespace).len(),
        install_steps(namespace)[position].expects(event),
        0 <= index < crate::windows::wfp::filter_specs::filter_table().len(),
    ensures
        ({
            let key = crate::windows::wfp::filter_specs::filter_table()[index].key_in(other);
            let after = stored_filters(filters, after_installing(namespace, position, event), namespace, account);
            stores_same(filters, after, key)
        }),
{
    let table = crate::windows::wfp::filter_specs::filter_table();
    let key = table[index].key_in(other);
    if is_filter_key(namespace, table.len(), key) {
        let own = choose|own: int| 0 <= own < table.len() && (#[trigger] table[own]).key_in(namespace) == key;
        crate::windows::wfp::filter_specs::filter_keys_are_disjoint(own, namespace, index, other);
    }
    installations_are_all_or_nothing(filters, namespace, account, position, event, key);
}

/// Whether the objects that a verification looks at are those of the stored filters: each
/// filter that is stored is found as it was added, and no other is.
pub open spec fn shows(
    objects: InstalledObjects,
    filters: Map<Guid, StoredFilter>,
    namespace: WindowsSandboxPolicyNamespace,
) -> bool {
    let table = crate::windows::wfp::filter_specs::filter_table();
    &&& objects.well_formed()
    &&& crate::windows::wfp::verify::provider_check(objects.provider) is None
    &&& crate::windows::wfp::verify::sublayer_check(objects.sublayer) is None
    &&& objects.user matches Ok(user) && user is Bytes
    &&& forall|index: int| #![trigger objects.filters@[index]]
        0 <= index < table.len() ==> match objects.filters@[index] {
            Ok(record) => filters.contains_key(table[index].key_in(namespace))
                && crate::windows::wfp::verify::is_record_of(
                record,
                filters[table[index].key_in(namespace)].spec,
                namespace,
                objects.user->Ok_0,
            ),
            Err(_) => !filters.contains_key(table[index].key_in(namespace)),
        }
}

/// Verifying what an installation stored succeeds, and fails as soon as any of its filters
/// is gone; where a single one is gone, the failure names it.
pub proof fn installed_filters_verify(
    filters: Map<Guid, StoredFilter>,
    namespace: WindowsSandboxPolicyNamespace,
    account: Seq<char>,
    removed: Set<Guid>,
    objects: InstalledObjects,
    index: int,
)
    requires
        shows(
            objects,
            filters_after(filters, install_steps(namespace), namespace, account).remove_keys(removed),
            namespace,
        ),
        0 <= index < crate::windows::wfp::filter_specs::filter_table().len(),
    ensures
        ({
            let table = crate::windows::wfp::filter_specs::filter_table();
            let failure = crate::windows::wfp::verify::verification_failure(objects, namespace);
            &&& failure is None <==> (forall|i: int|
                0 <= i < table.len() ==> !removed.contains((#[trigger] table[i]).key_in(namespace)))
            &&& removed == set![table[index].key_in(namespace)] ==> failure == Some(
                FailureModel::plain(
                    "WFP filter "@ + table[index].name_in(namespace) + " is unavailable: "@
                        + objects.filters@[index]->Err_0@.message,
                ),
            ) && objects.filters@[index] is Err
        }),
{
    let table = crate::windows::wfp::filter_specs::filter_table();
    let user = objects.user->Ok_0;
    let installed = filters_after(filters, install_steps(namespace), namespace, account);
    let lead = first_steps() + filter_steps(namespace, table.len());
    lemma_filters_after(filters, namespace, account, table.len());
    assert(install_steps(namespace) =~= lead.push(InstallStep::Commit));
    assert(install_steps(namespace).drop_last() =~= lead);
    assert forall|i: int| 0 <= i < table.len() implies (crate::windows::wfp::verify::filter_check(
        #[trigger] objects.filters@[i],
        table[i],
        namespace,
        user,
    ) is None <==> !removed.contains(table[i].key_in(namespace))) && (objects.filters@[i] is Err <==> removed.contains(
        table[i].key_in(namespace),
    )) by {
        assert(installed.contains_key(table[i].key_in(namespace)));
        if objects.filters@[i] is Ok {
            crate::windows::wfp::verify::lemma_records_pass(objects.filters@[i]->Ok_0, table[i], namespace, user);
        }
    }
    crate::windows::wfp::verify::lemma_verification(objects, namespace);
    if removed == set![table[index].key_in(namespace)] {
        assert forall|i: int| 0 <= i < table.len() && i != index implies !removed.contains(
            (#[trigger] table[i]).key_in(namespace),
        ) by {
            crate::windows::wfp::filter_specs::filter_keys_are_disjoint(i, namespace, index, namespace);
        }
        assert(removed.contains(table[index].key_in(namespace)));
        assert(crate::windows::wfp::verify::first_bad_filter(objects.filters@, namespace, user, index));
    }
    if forall|i: int| 0 <= i < table.len() ==> !removed.contains((#[trigger] table[i]).key_in(namespace)) {
        assert forall|i: int| 0 <= i < table.len() implies crate::windows::wfp::verify::filter_check(
            #[trigger] objects.filters@[i],
            table[i],
            namespace,
            user,
        ) is None by {
            assert(!removed.contains(table[i].key_in(namespace)));
        }
    } else {
        let i = choose|i: int| 0 <= i < table.len() && removed.contains((#[trigger] table[i]).key_in(namespace));
        assert(crate::windows::wfp::verify::filter_check(objects.filters@[i], table[i], namespace, user) is Some);
    }
}

/// A step goes on after success. Besides it, only what is there already may be added
/// again, where it is then looked up, and only what is not there may be left undeleted.
pub proof fn steps_go_on_after_success(
    step: InstallStep,
    namespace: WindowsSandboxPolicyNamespace,
    code: u32,
)
    ensures
        step_failure(step, namespace, InstallEvent::Code(code)) is None <==> {
            ||| code == 0
            ||| code == 0x8032_0009 && (step is AddProvider || step is AddSublayer)
            ||| (code == 0x8032_0003 || code == 0x8032_0008) && step is DeleteFilter
        },
{
    let accepted = step_operation(step, namespace).1;
    if step is AddProvider || step is AddSublayer {
        assert(accepted[0] == 0x8032_0009);
    }
    if step is DeleteFilter {
        assert(accepted[0] == 0x8032_0003);
        assert(accepted[1] == 0x8032_0008);
    }
}

/// A lookup of the provider or the sublayer goes on only where it found what this library
/// installs, and the account has to be known.
pub proof fn steps_go_on_after_good_lookups(step: InstallStep, namespace: WindowsSandboxPolicyNamespace, event: InstallEvent)
    ensures
        event matches InstallEvent::Provider(provider) ==> (step_failure(step, namespace, event) is None
            <==> crate::windows::wfp::verify::provider_check(provider) is None),
        event matches InstallEvent::Sublayer(sublayer) ==> (step_failure(step, namespace, event) is None
            <==> crate::windows::wfp::verify::sublayer_check(sublayer) is None),
        event matches InstallEvent::Account(account) ==> (step_failure(step, namespace, event) is None <==> account
            is Ok),
{
}

/// An installation passes its steps one by one, ends with the last one, and aborts a
/// failed transaction exactly where one was begun.
pub proof fn installations_pass_every_step(
    namespace: WindowsSandboxPolicyNamespace,
    position: int,
    event: InstallEvent,
)
    requires
        0 <= position < install_steps(namespace).len(),
        install_steps(namespace)[position].expects(event),
    ensures
        ({
            let steps = install_steps(namespace);
            let progress = after_installing(namespace, position, event);
            &&& progress is Failed <==> step_failure(steps[position], namespace, event) is Some
            &&& progress matches InstallProgressModel::Perform(next) ==> next == position + 1 && next < steps.len()
            &&& progress is Installed ==> steps[position] is Commit
            &&& progress matches InstallProgressModel::Failed { abort, .. } ==> (abort <==> exists|earlier: int|
                0 <= earlier < position && (#[trigger] steps[earlier]) is BeginTransaction)
        }),
{
    let steps = install_steps(namespace);
    let table = crate::windows::wfp::filter_specs::filter_table();
    installation_replaces_every_filter(namespace, 0);
    assert(steps[0] is OpenEngine);
    assert(steps[1] is BeginTransaction);
}

/// No filter is touched before the transaction was begun, the provider and the sublayer
/// were looked up, and the condition for the account was built; the plan is the account's
/// own, in its own namespace.
pub proof fn filters_are_added_for_a_known_account(plan: InstallPlan, account: Seq<char>, namespace: WindowsSandboxPolicyNamespace, position: int)
    requires
        plan.is_for(account, namespace),
        0 <= position < plan.steps@.len(),
        plan.steps@[position] is AddFilter || plan.steps@[position] is DeleteFilter,
    ensures
        plan.account@ == account,
        plan.namespace == namespace,
        plan.installed_filter_count == 12,
        exists|earlier: int| 0 <= earlier < position && (#[trigger] plan.steps@[earlier]) is BeginTransaction,
        exists|earlier: int| 0 <= earlier < position && (#[trigger] plan.steps@[earlier]) is VerifyProvider,
        exists|earlier: int| 0 <= earlier < position && (#[trigger] plan.steps@[earlier]) is VerifySublayer,
        exists|earlier: int| 0 <= earlier < position && (#[trigger] plan.steps@[earlier]) is ResolveAccount,
        exists|earlier: int| 0 <= earlier < position && (#[trigger] plan.steps@[earlier]) is BuildUserCondition,
{
    let steps = plan.steps@;
    let first = first_steps();
    assert(steps[0] == first[0] && steps[1] == first[1] && steps[2] == first[2] && steps[3] == first[3]);
    assert(steps[4] == first[4] && steps[5] == first[5] && steps[6] == first[6] && steps[7] == first[7]);
    assert(position >= 8);
}

} // verus!
