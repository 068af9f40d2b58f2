//! The persistent deny-write entries of workspace capabilities.
//!
//! Setup leaves access-control entries in place across target generations. The paths
//! per capability are kept, so that a later policy can revoke the carve-outs that are
//! no longer requested without disturbing denials owned by another capability.

use crate::model;
use crate::native::{NativePath, NativeText, PathModel};
use crate::text::concat2;
use crate::windows::failure::{Failure, FailureModel};
use vstd::prelude::*;
use vstd::string::*;

verus! {

/// A path with the key by which two spellings of it are one.
#[derive(Debug)]
pub struct KeyedPath {
    pub path: NativePath,
    pub key: String,
}

/// What a [`KeyedPath`] holds.
pub struct KeyedModel {
    pub path: PathModel,
    pub key: Seq<char>,
}

impl DeepView for KeyedPath {
    type V = KeyedModel;

    open spec fn deep_view(&self) -> KeyedModel {
        KeyedModel { path: self.path@, key: self.key@ }
    }
}

impl View for KeyedPath {
    type V = KeyedModel;

    open spec fn view(&self) -> KeyedModel {
        self.deep_view()
    }
}

impl Clone for KeyedPath {
    fn clone(&self) -> (result: Self)
        ensures
            result@ == self@,
    {
        KeyedPath { path: self.path.clone(), key: self.key.clone() }
    }
}

/// The paths denied to one capability.
#[derive(Debug)]
pub struct PrincipalPaths {
    pub principal: String,
    pub paths: Vec<KeyedPath>,
}

/// What a [`PrincipalPaths`] holds.
pub struct PrincipalModel {
    pub principal: Seq<char>,
    pub paths: Seq<KeyedModel>,
}

impl DeepView for PrincipalPaths {
    type V = PrincipalModel;

    open spec fn deep_view(&self) -> PrincipalModel {
        PrincipalModel { principal: self.principal@, paths: self.paths.deep_view() }
    }
}

impl View for PrincipalPaths {
    type V = PrincipalModel;

    open spec fn view(&self) -> PrincipalModel {
        self.deep_view()
    }
}

/// Whether the capabilities are in the order of their text, each once.
pub open spec fn principals_in_order(principals: Seq<PrincipalModel>) -> bool {
    forall|first: int, second: int|
        0 <= first < second < principals.len() ==> crate::order::name_less(
            NativeText::Unicode((#[trigger] principals[first]).principal),
            NativeText::Unicode((#[trigger] principals[second]).principal),
        )
}

/// Whether some path has the key.
pub open spec fn has_key(paths: Seq<KeyedModel>, key: Seq<char>) -> bool {
    exists|index: int| 0 <= index < paths.len() && (#[trigger] paths[index]).key == key
}

/// The paths without those whose key came before.
pub open spec fn without_repeats(paths: Seq<KeyedModel>) -> Seq<KeyedModel>
    decreases paths.len(),
{
    if paths.len() == 0 {
        Seq::empty()
    } else {
        let before = without_repeats(paths.drop_last());
        if has_key(before, paths.last().key) {
            before
        } else {
            before.push(paths.last())
        }
    }
}

/// The paths whose key is not among others, in order.
pub open spec fn not_among(paths: Seq<KeyedModel>, others: Seq<KeyedModel>) -> Seq<KeyedModel>
    decreases paths.len(),
{
    if paths.len() == 0 {
        Seq::empty()
    } else {
        let before = not_among(paths.drop_last(), others);
        if has_key(others, paths.last().key) {
            before
        } else {
            before.push(paths.last())
        }
    }
}

/// The paths of a principal; none where it has no entry.
pub open spec fn paths_of(principals: Seq<PrincipalModel>, principal: Seq<char>) -> Seq<KeyedModel>
    decreases principals.len(),
{
    if principals.len() == 0 {
        Seq::empty()
    } else if principals.last().principal == principal {
        principals.last().paths
    } else {
        paths_of(principals.drop_last(), principal)
    }
}

/// Whether no two entries have the same principal.
pub open spec fn one_entry_each(principals: Seq<PrincipalModel>) -> bool {
    forall|first: int, second: int|
        0 <= first < second < principals.len() ==> (#[trigger] principals[first]).principal != (
        #[trigger] principals[second]).principal
}

/// What is applied: for every principal its desired paths, each once.
pub open spec fn applied(desired: Seq<PrincipalModel>) -> Seq<PrincipalModel> {
    desired.map_values(
        |entry: PrincipalModel|
            PrincipalModel { principal: entry.principal, paths: without_repeats(entry.paths) },
    )
}

/// What is stale of one principal's earlier paths.
pub open spec fn stale(entry: PrincipalModel, now: Seq<PrincipalModel>) -> PrincipalModel {
    PrincipalModel { principal: entry.principal, paths: not_among(entry.paths, paths_of(now, entry.principal)) }
}

/// The entries that hold some path, in order.
pub open spec fn with_paths(entries: Seq<PrincipalModel>) -> Seq<PrincipalModel>
    decreases entries.len(),
{
    if entries.len() == 0 {
        Seq::empty()
    } else if entries.last().paths.len() > 0 {
        with_paths(entries.drop_last()).push(entries.last())
    } else {
        with_paths(entries.drop_last())
    }
}

/// What is revoked: for every principal of the earlier state its stale paths.
pub open spec fn revoked(previous: Seq<PrincipalModel>, now: Seq<PrincipalModel>) -> Seq<PrincipalModel> {
    with_paths(previous.map_values(|entry: PrincipalModel| stale(entry, now)))
}

/// The number of paths over all entries.
pub open spec fn path_count(entries: Seq<PrincipalModel>) -> nat
    decreases entries.len(),
{
    if entries.len() == 0 {
        0
    } else {
        path_count(entries.drop_last()) + entries.last().paths.len()
    }
}

/// One operation of a reconciliation.
#[derive(Debug)]
pub enum SyncStep {
    /// Convert the text of a desired capability.
    ConvertDesired(String),
    /// Deny the path to the capability that was converted last.
    Apply(NativePath),
    /// Convert the text of a stale capability.
    ConvertStale(String),
    /// Take the denial from the path, where it still exists.
    Revoke(NativePath),
    /// Store the new state. The host's error names the file.
    Store,
}

/// What a [`SyncStep`] holds.
pub enum SyncStepModel {
    ConvertDesired(Seq<char>),
    Apply(PathModel),
    ConvertStale(Seq<char>),
    Revoke(PathModel),
    Store,
}

impl DeepView for SyncStep {
    type V = SyncStepModel;

    open spec fn deep_view(&self) -> SyncStepModel {
        match self {
            SyncStep::ConvertDesired(principal) => SyncStepModel::ConvertDesired(principal@),
            SyncStep::Apply(path) => SyncStepModel::Apply(path@),
            SyncStep::ConvertStale(principal) => SyncStepModel::ConvertStale(principal@),
            SyncStep::Revoke(path) => SyncStepModel::Revoke(path@),
            SyncStep::Store => SyncStepModel::Store,
        }
    }
}

impl View for SyncStep {
    type V = SyncStepModel;

    open spec fn view(&self) -> SyncStepModel {
        self.deep_view()
    }
}

/// The operations for one capability: it is converted, then its paths follow in order.
pub open spec fn principal_steps(entry: PrincipalModel, stale: bool) -> Seq<SyncStepModel> {
    if stale {
        seq![SyncStepModel::ConvertStale(entry.principal)] + entry.paths.map_values(
            |path: KeyedModel| SyncStepModel::Revoke(path.path),
        )
    } else {
        seq![SyncStepModel::ConvertDesired(entry.principal)] + entry.paths.map_values(
            |path: KeyedModel| SyncStepModel::Apply(path.path),
        )
    }
}

/// The operations for all capabilities, in order.
pub open spec fn principals_steps(entries: Seq<PrincipalModel>, stale: bool) -> Seq<SyncStepModel>
    decreases entries.len(),
{
    if entries.len() == 0 {
        Seq::empty()
    } else {
        principals_steps(entries.drop_last(), stale) + principal_steps(entries.last(), stale)
    }
}

/// The operations of a reconciliation: everything is applied, then everything stale is
/// revoked, and only then the state is stored.
pub open spec fn sync_steps(apply: Seq<PrincipalModel>, revoke: Seq<PrincipalModel>) -> Seq<SyncStepModel> {
    (principals_steps(apply, false) + principals_steps(revoke, true)).push(SyncStepModel::Store)
}

/// One reconciliation.
#[derive(Debug)]
pub struct DenyWritePlan {
    /// The operations, in order. The first one that fails ends the reconciliation.
    pub steps: Vec<SyncStep>,
    /// The state to store.
    pub state: Vec<PrincipalPaths>,
}

impl DenyWritePlan {
    /// Whether the state is stored by the last operation, and by no other.
    pub open spec fn well_formed(self) -> bool {
        &&& self.steps@.len() > 0
        &&& forall|index: int|
            0 <= index < self.steps@.len() ==> ((#[trigger] self.steps@[index]) is Store <==> index
                == self.steps@.len() - 1)
        &&& path_count(self.state.deep_view()) <= usize::MAX
    }
}

fn push_principal_steps(steps: &mut Vec<SyncStep>, entry: &PrincipalPaths, stale: bool)
    ensures
        final(steps).deep_view() == old(steps).deep_view() + principal_steps(entry@, stale),
{
    let ghost models = entry.paths.deep_view();
    let ghost wanted = principal_steps(entry@, stale);
    let ghost start = steps.deep_view();
    let ghost before = *steps;
    let first = if stale {
        SyncStep::ConvertStale(entry.principal.clone())
    } else {
        SyncStep::ConvertDesired(entry.principal.clone())
    };
    steps.push(first);
    proof {
        model::lemma_deep_push(before, *steps, first);
        assert(wanted.take(1) =~= seq![first@]);
        assert(steps.deep_view() =~= start + wanted.take(1));
    }
    for index in 0..entry.paths.len()
        invariant
            models == entry.paths.deep_view(),
            wanted == principal_steps(entry@, stale),
            steps.deep_view() == start + wanted.take(index + 1),
    {
        let ghost before = *steps;
        let path = entry.paths[index].path.clone();
        let step = if stale {
            SyncStep::Revoke(path)
        } else {
            SyncStep::Apply(path)
        };
        steps.push(step);
        proof {
            model::lemma_deep_push(before, *steps, step);
            assert(models[index as int] == entry.paths@[index as int]@);
            assert(wanted[index + 1] == step@);
            model::lemma_take_push(wanted, index + 1);
            assert(steps.deep_view() =~= start + wanted.take(index + 2));
        }
    }
    proof {
        model::lemma_take_all(wanted);
    }
}

fn key_among(paths: &Vec<KeyedPath>, key: &String) -> (result: bool)
    ensures
        result == has_key(paths.deep_view(), key@),
{
    let ghost models = paths.deep_view();
    for index in 0..paths.len()
        invariant
            models == paths.deep_view(),
            forall|i: int| 0 <= i < index ==> (#[trigger] models[i]).key != key@,
    {
        assert(models[index as int] == paths@[index as int]@);
        if paths[index].key == *key {
            return true;
        }
    }
    false
}

/// The paths without those whose key came before.
pub fn apply_paths(paths: &Vec<KeyedPath>) -> (result: Vec<KeyedPath>)
    ensures
        result.deep_view() == without_repeats(paths.deep_view()),
{
    let ghost models = paths.deep_view();
    let mut kept: Vec<KeyedPath> = Vec::new();
    assert(kept.deep_view() =~= without_repeats(models.take(0)));
    for index in 0..paths.len()
        invariant
            models == paths.deep_view(),
            kept.deep_view() == without_repeats(models.take(index as int)),
    {
        proof {
            model::lemma_take_push(models, index as int);
            assert(models.take(index + 1).drop_last() =~= models.take(index as int));
            assert(models[index as int] == paths@[index as int]@);
        }
        if !key_among(&kept, &paths[index].key) {
            let ghost before = kept;
            let path = paths[index].clone();
            kept.push(path);
            proof {
                model::lemma_deep_push(before, kept, path);
            }
        }
    }
    proof {
        model::lemma_take_all(models);
    }
    kept
}

fn paths_not_among(paths: &Vec<KeyedPath>, others: &Vec<KeyedPath>) -> (result: Vec<KeyedPath>)
    ensures
        result.deep_view() == not_among(paths.deep_view(), others.deep_view()),
{
    let ghost models = paths.deep_view();
    let mut kept: Vec<KeyedPath> = Vec::new();
    assert(kept.deep_view() =~= not_among(models.take(0), others.deep_view()));
    for index in 0..paths.len()
        invariant
            models == paths.deep_view(),
            kept.deep_view() == not_among(models.take(index as int), others.deep_view()),
    {
        proof {
            model::lemma_take_push(models, index as int);
            assert(models.take(index + 1).drop_last() =~= models.take(index as int));
            assert(models[index as int] == paths@[index as int]@);
        }
        if !key_among(others, &paths[index].key) {
            let ghost before = kept;
            let path = paths[index].clone();
            kept.push(path);
            proof {
                model::lemma_deep_push(before, kept, path);
            }
        }
    }
    proof {
        model::lemma_take_all(models);
    }
    kept
}

fn copy_keyed(paths: &Vec<KeyedPath>) -> (result: Vec<KeyedPath>)
    ensures
        result.deep_view() == paths.deep_view(),
{
    let ghost models = paths.deep_view();
    let mut copy: Vec<KeyedPath> = Vec::new();
    assert(copy.deep_view() =~= models.take(0));
    for index in 0..paths.len()
        invariant
            models == paths.deep_view(),
            copy.deep_view() == models.take(index as int),
    {
        let ghost before = copy;
        let path = paths[index].clone();
        copy.push(path);
        proof {
            model::lemma_deep_push(before, copy, path);
            model::lemma_take_push(models, index as int);
            assert(models[index as int] == paths@[index as int]@);
        }
    }
    proof {
        model::lemma_take_all(models);
    }
    copy
}

fn stale_paths(entry: &PrincipalPaths, now: &Vec<PrincipalPaths>) -> (result: Vec<KeyedPath>)
    ensures
        result.deep_view() == stale(entry@, now.deep_view()).paths,
{
    let ghost models = now.deep_view();
    let mut index: usize = now.len();
    proof {
        model::lemma_take_all(models);
    }
    while index > 0
        invariant
            models == now.deep_view(),
            index <= now.len(),
            paths_of(models.take(index as int), entry@.principal) == paths_of(models, entry@.principal),
        decreases index,
    {
        index = index - 1;
        proof {
            assert(models.take(index + 1).drop_last() =~= models.take(index as int));
            assert(models.take(index + 1).last() == models[index as int]);
            assert(models[index as int] == now@[index as int]@);
        }
        if now[index].principal == entry.principal {
            return paths_not_among(&entry.paths, &now[index].paths);
        }
    }
    let none: Vec<KeyedPath> = Vec::new();
    assert(none.deep_view() =~= Seq::<KeyedModel>::empty());
    paths_not_among(&entry.paths, &none)
}

proof fn lemma_no_store(entries: Seq<PrincipalModel>, stale: bool)
    ensures
        forall|index: int|
            0 <= index < principals_steps(entries, stale).len() ==> !((#[trigger] principals_steps(entries, stale)[index])
                is Store),
    decreases entries.len(),
{
    if entries.len() > 0 {
        lemma_no_store(entries.drop_last(), stale);
        let before = principals_steps(entries.drop_last(), stale);
        assert forall|index: int| 0 <= index < principals_steps(entries, stale).len() implies !((
        #[trigger] principals_steps(entries, stale)[index]) is Store) by {
            if index < before.len() {
                assert(before[index] == principals_steps(entries, stale)[index]);
            } else {
                assert(principal_steps(entries.last(), stale)[index - before.len()] == principals_steps(
                    entries,
                    stale,
                )[index]);
            }
        }
    }
}

/// Plans the reconciliation of the complete persistent deny-write set owned by
/// standalone workspace capabilities.
///
/// Both lists stand for maps: their capabilities are in order, each once.
pub fn sync_persistent_deny_write_acls(desired: &Vec<PrincipalPaths>, previous: &Vec<PrincipalPaths>) -> (result: DenyWritePlan)
    requires
        principals_in_order(desired.deep_view()),
        principals_in_order(previous.deep_view()),
        path_count(with_paths(applied(desired.deep_view()))) <= usize::MAX,
    ensures
        result.well_formed(),
        result.steps.deep_view() == sync_steps(
            applied(desired.deep_view()),
            revoked(previous.deep_view(), applied(desired.deep_view())),
        ),
        result.state.deep_view() == with_paths(applied(desired.deep_view())),
{
    let ghost wanted = desired.deep_view();
    let ghost earlier = previous.deep_view();
    let mut apply: Vec<PrincipalPaths> = Vec::new();
    let mut state: Vec<PrincipalPaths> = Vec::new();
    let mut steps: Vec<SyncStep> = Vec::new();
    assert(steps.deep_view() =~= principals_steps(applied(wanted.take(0)), false));
    assert(apply.deep_view() =~= applied(wanted.take(0)));
    assert(state.deep_view() =~= with_paths(applied(wanted.take(0))));
    for index in 0..desired.len()
        invariant
            wanted == desired.deep_view(),
            apply.deep_view() == applied(wanted.take(index as int)),
            state.deep_view() == with_paths(applied(wanted.take(index as int))),
            steps.deep_view() == principals_steps(applied(wanted.take(index as int)), false),
    {
        let paths = apply_paths(&desired[index].paths);
        let ghost before = apply;
        let ghost before_state = state;
        let entry = PrincipalPaths { principal: desired[index].principal.clone(), paths: copy_keyed(&paths) };
        let kept = PrincipalPaths { principal: desired[index].principal.clone(), paths };
        let holds_paths = entry.paths.len() > 0;
        proof {
            assert(wanted[index as int] == desired@[index as int]@);
            assert(applied(wanted.take(index + 1)) =~= applied(wanted.take(index as int)).push(entry@));
            assert(applied(wanted.take(index + 1)).drop_last() =~= applied(wanted.take(index as int)));
        }
        push_principal_steps(&mut steps, &entry, false);
        apply.push(entry);
        proof {
            model::lemma_deep_push(before, apply, entry);
        }
        if holds_paths {
            state.push(kept);
            proof {
                model::lemma_deep_push(before_state, state, kept);
            }
        }
    }
    proof {
        model::lemma_take_all(wanted);
    }
    let ghost stale_entries = earlier.map_values(|entry: PrincipalModel| stale(entry, applied(wanted)));
    let ghost applying = principals_steps(applied(wanted), false);
    assert(steps.deep_view() =~= applying + principals_steps(with_paths(stale_entries.take(0)), true));
    for index in 0..previous.len()
        invariant
            earlier == previous.deep_view(),
            apply.deep_view() == applied(wanted),
            stale_entries == earlier.map_values(|entry: PrincipalModel| stale(entry, applied(wanted))),
            steps.deep_view() == applying + principals_steps(with_paths(stale_entries.take(index as int)), true),
    {
        let paths = stale_paths(&previous[index], &apply);
        let holds_paths = paths.len() > 0;
        let ghost kept = with_paths(stale_entries.take(index as int));
        let entry = PrincipalPaths { principal: previous[index].principal.clone(), paths };
        proof {
            assert(earlier[index as int] == previous@[index as int]@);
            assert(stale_entries[index as int] == entry@);
            assert(stale_entries.take(index + 1).drop_last() =~= stale_entries.take(index as int));
            assert(stale_entries.take(index + 1).last() == entry@);
        }
        if holds_paths {
            push_principal_steps(&mut steps, &entry, true);
            proof {
                assert(kept.push(entry@).drop_last() =~= kept);
                assert(steps.deep_view() =~= applying + principals_steps(kept.push(entry@), true));
            }
        }
    }
    proof {
        model::lemma_take_all(stale_entries);
    }
    let ghost before = steps;
    steps.push(SyncStep::Store);
    proof {
        model::lemma_deep_push(before, steps, SyncStep::Store);
        lemma_no_store(applied(wanted), false);
        lemma_no_store(with_paths(stale_entries), true);
        assert forall|index: int| 0 <= index < steps@.len() implies ((#[trigger] steps@[index]) is Store <==> index
            == steps@.len() - 1) by {
            assert(steps.deep_view()[index] == steps@[index]@);
            if index < steps@.len() - 1 {
                assert(before.deep_view()[index] == before@[index]@);
            }
        }
    }
    DenyWritePlan { steps, state }
}

/// What came of an operation of a reconciliation.
#[derive(Debug)]
pub enum SyncEvent {
    Succeeded,
    /// The path whose denial was to be revoked is gone, so nothing was revoked.
    Missing,
    /// The host's error, where there is one.
    Failed(String),
}

/// How a reconciliation goes on.
#[derive(Debug)]
pub enum SyncProgress {
    /// Perform the operation at this place.
    Perform(usize),
    /// The state is stored, with this many denied paths.
    Synced(usize),
    /// The state that was stored before still stands.
    Refused(Failure),
}

/// What a [`SyncProgress`] holds.
pub enum SyncProgressModel {
    Perform(nat),
    Synced(nat),
    Refused(FailureModel),
}

impl DeepView for SyncProgress {
    type V = SyncProgressModel;

    open spec fn deep_view(&self) -> SyncProgressModel {
        match self {
            SyncProgress::Perform(index) => SyncProgressModel::Perform(*index as nat),
            SyncProgress::Synced(count) => SyncProgressModel::Synced(*count as nat),
            SyncProgress::Refused(failure) => SyncProgressModel::Refused(failure@),
        }
    }
}

impl View for SyncProgress {
    type V = SyncProgressModel;

    open spec fn view(&self) -> SyncProgressModel {
        self.deep_view()
    }
}

/// The failure of an operation, with the host's error where there is one.
pub open spec fn sync_failure(step: SyncStepModel, error: Seq<char>) -> FailureModel {
    match step {
        SyncStepModel::ConvertDesired(_) => FailureModel::plain("convert deny-write capability SID failed"@),
        SyncStepModel::ConvertStale(_) => FailureModel::plain("convert stale deny-write capability SID failed"@),
        SyncStepModel::Apply(path) => FailureModel::plain(error).within(
            "apply deny-write ACE to "@ + path.text.display(),
        ),
        SyncStepModel::Revoke(path) => FailureModel::plain(error).within(
            "revoke stale deny-write ACE from "@ + path.text.display(),
        ),
        SyncStepModel::Store => FailureModel::plain(error),
    }
}

/// The failure of an operation of a reconciliation.
pub fn sync_step_failure(step: &SyncStep, error: &str) -> (result: Failure)
    ensures
        result@ == sync_failure(step@, error@),
{
    match step {
        SyncStep::ConvertDesired(_) => Failure::new("convert deny-write capability SID failed"),
        SyncStep::ConvertStale(_) => Failure::new("convert stale deny-write capability SID failed"),
        SyncStep::Apply(path) => {
            let shown = path.text.display();
            let context = concat2("apply deny-write ACE to ", shown.as_str());
            Failure::new(error).within(context.as_str())
        },
        SyncStep::Revoke(path) => {
            let shown = path.text.display();
            let context = concat2("revoke stale deny-write ACE from ", shown.as_str());
            Failure::new(error).within(context.as_str())
        },
        SyncStep::Store => Failure::new(error),
    }
}

/// How a reconciliation goes on after the operation at a place.
pub open spec fn after_syncing(
    steps: Seq<SyncStepModel>,
    state: Seq<PrincipalModel>,
    position: int,
    event: SyncEvent,
) -> SyncProgressModel {
    match event {
        SyncEvent::Failed(error) => SyncProgressModel::Refused(sync_failure(steps[position], error@)),
        _ => if position + 1 < steps.len() {
            SyncProgressModel::Perform((position + 1) as nat)
        } else {
            SyncProgressModel::Synced(path_count(state))
        },
    }
}

/// The stored state after the operation at a place.
pub open spec fn stored_after(
    steps: Seq<SyncStepModel>,
    state: Seq<PrincipalModel>,
    position: int,
    event: SyncEvent,
    stored: Seq<PrincipalModel>,
) -> Seq<PrincipalModel> {
    if steps[position] is Store && event is Succeeded {
        state
    } else {
        stored
    }
}

/// Decides how a reconciliation goes on after the operation at a place.
pub fn after_sync_step(plan: &DenyWritePlan, position: usize, event: SyncEvent) -> (result: SyncProgress)
    requires
        plan.well_formed(),
        position < plan.steps@.len(),
        event is Missing ==> plan.steps@[position as int] is Revoke,
    ensures
        result@ == after_syncing(plan.steps.deep_view(), plan.state.deep_view(), position as int, event),
{
    assert(plan.steps.deep_view()[position as int] == plan.steps@[position as int]@);
    match event {
        SyncEvent::Failed(error) => SyncProgress::Refused(sync_step_failure(&plan.steps[position], error.as_str())),
        _ => {
            if position < plan.steps.len() - 1 {
                SyncProgress::Perform(position + 1)
            } else {
                SyncProgress::Synced(applied_count(&plan.state))
            }
        },
    }
}

/// A reconciliation passes every operation in order and ends with the first that fails.
/// What is stored changes only with its success, which comes last: after any failure it
/// is what it was.
pub proof fn failures_leave_the_stored_state(
    plan: DenyWritePlan,
    position: int,
    event: SyncEvent,
    stored: Seq<PrincipalModel>,
)
    requires
        plan.well_formed(),
        0 <= position < plan.steps@.len(),
        event is Missing ==> plan.steps@[position] is Revoke,
    ensures
        ({
            let steps = plan.steps.deep_view();
            let state = plan.state.deep_view();
            let progress = after_syncing(steps, state, position, event);
            let after = stored_after(steps, state, position, event, stored);
            &&& progress is Synced ==> after == state && position == steps.len() - 1
            &&& !(progress is Synced) ==> after == stored
            &&& progress is Refused <==> event is Failed
            &&& progress matches SyncProgressModel::Perform(next) ==> next == position + 1
        }),
{
    assert(plan.steps.deep_view()[position] == plan.steps@[position]@);
}

/// The number of paths that stay denied.
pub fn applied_count(state: &Vec<PrincipalPaths>) -> (result: usize)
    requires
        path_count(state.deep_view()) <= usize::MAX,
    ensures
        result == path_count(state.deep_view()),
{
    let ghost models = state.deep_view();
    let mut count: usize = 0;
    proof {
        model::lemma_take_all(models);
    }
    for index in 0..state.len()
        invariant
            models == state.deep_view(),
            path_count(models) <= usize::MAX,
            count == path_count(models.take(index as int)),
    {
        proof {
            assert(models.take(index + 1).drop_last() =~= models.take(index as int));
            assert(models[index as int] == state@[index as int]@);
            lemma_count_grows(models, index + 1);
        }
        count = count + state[index].paths.len();
    }
    count
}

proof fn lemma_count_grows(entries: Seq<PrincipalModel>, count: int)
    requires
        0 <= count <= entries.len(),
    ensures
        path_count(entries.take(count)) <= path_count(entries),
    decreases entries.len() - count,
{
    if count < entries.len() {
        lemma_count_grows(entries, count + 1);
        assert(entries.take(count + 1).drop_last() =~= entries.take(count));
    } else {
        model::lemma_take_all(entries);
    }
}

proof fn lemma_without_repeats_keeps_keys(paths: Seq<KeyedModel>, key: Seq<char>)
    ensures
        has_key(without_repeats(paths), key) == has_key(paths, key),
    decreases paths.len(),
{
    if paths.len() > 0 {
        let init = paths.drop_last();
        let before = without_repeats(init);
        lemma_without_repeats_keeps_keys(init, key);
        if has_key(paths, key) {
            let index = choose|index: int| 0 <= index < paths.len() && (#[trigger] paths[index]).key == key;
            if index < init.len() {
                assert(init[index].key == key);
            }
        }
        if has_key(init, key) {
            let index = choose|index: int| 0 <= index < init.len() && (#[trigger] init[index]).key == key;
            assert(paths[index].key == key);
        }
        if has_key(before, key) && !has_key(before, paths.last().key) {
            let index = choose|index: int| 0 <= index < before.len() && (#[trigger] before[index]).key == key;
            assert(before.push(paths.last())[index].key == key);
        }
        if !has_key(before, paths.last().key) {
            let longer = before.push(paths.last());
            assert(longer[before.len() as int] == paths.last());
            if has_key(longer, key) {
                let index = choose|index: int| 0 <= index < longer.len() && (#[trigger] longer[index]).key == key;
                if index < before.len() {
                    assert(before[index].key == key);
                } else {
                    assert(paths[paths.len() - 1].key == key);
                }
            }
        }
        if paths.last().key == key {
            assert(paths[paths.len() - 1].key == key);
        }
    }
}

proof fn lemma_not_among_keeps(paths: Seq<KeyedModel>, others: Seq<KeyedModel>, key: Seq<char>)
    ensures
        has_key(not_among(paths, others), key) == (has_key(paths, key) && !has_key(others, key)),
    decreases paths.len(),
{
    if paths.len() > 0 {
        let init = paths.drop_last();
        let before = not_among(init, others);
        lemma_not_among_keeps(init, others, key);
        if has_key(paths, key) {
            let index = choose|index: int| 0 <= index < paths.len() && (#[trigger] paths[index]).key == key;
            if index < init.len() {
                assert(init[index].key == key);
            }
        }
        if has_key(init, key) {
            let index = choose|index: int| 0 <= index < init.len() && (#[trigger] init[index]).key == key;
            assert(paths[index].key == key);
        }
        if paths.last().key == key {
            assert(paths[paths.len() - 1].key == key);
        }
        if !has_key(others, paths.last().key) {
            let longer = before.push(paths.last());
            assert(longer[before.len() as int] == paths.last());
            if has_key(before, key) {
                let index = choose|index: int| 0 <= index < before.len() && (#[trigger] before[index]).key == key;
                assert(longer[index].key == key);
            }
            if has_key(longer, key) {
                let index = choose|index: int| 0 <= index < longer.len() && (#[trigger] longer[index]).key == key;
                if index < before.len() {
                    assert(before[index].key == key);
                }
            }
        }
    }
}

/// Whether a path with the key is desired for a principal.
pub open spec fn is_desired(desired: Seq<PrincipalModel>, principal: Seq<char>, key: Seq<char>) -> bool {
    exists|index: int|
        0 <= index < desired.len() && (#[trigger] desired[index]).principal == principal && has_key(
            desired[index].paths,
            key,
        )
}

proof fn lemma_applied_paths_of(desired: Seq<PrincipalModel>, principal: Seq<char>, key: Seq<char>)
    requires
        one_entry_each(desired),
    ensures
        has_key(paths_of(applied(desired), principal), key) == is_desired(desired, principal, key),
    decreases desired.len(),
{
    if desired.len() > 0 {
        let init = desired.drop_last();
        let last = desired.last();
        assert(applied(desired).drop_last() =~= applied(init));
        assert(applied(desired).last().principal == last.principal);
        lemma_without_repeats_keeps_keys(last.paths, key);
        if last.principal == principal {
            if is_desired(desired, principal, key) {
                let index = choose|index: int|
                    0 <= index < desired.len() && (#[trigger] desired[index]).principal == principal && has_key(
                        desired[index].paths,
                        key,
                    );
                if index < desired.len() - 1 {
                    assert(desired[index].principal != desired[desired.len() - 1].principal);
                }
            }
            if has_key(last.paths, key) {
                assert(desired[desired.len() - 1].principal == principal);
            }
        } else {
            assert forall|first: int, second: int| 0 <= first < second < init.len() implies (
            #[trigger] init[first]).principal != (#[trigger] init[second]).principal by {
                assert(desired[first].principal != desired[second].principal);
            }
            lemma_applied_paths_of(init, principal, key);
            if is_desired(desired, principal, key) {
                let index = choose|index: int|
                    0 <= index < desired.len() && (#[trigger] desired[index]).principal == principal && has_key(
                        desired[index].paths,
                        key,
                    );
                assert(init[index].principal == principal);
            }
            if is_desired(init, principal, key) {
                let index = choose|index: int|
                    0 <= index < init.len() && (#[trigger] init[index]).principal == principal && has_key(
                        init[index].paths,
                        key,
                    );
                assert(desired[index].principal == principal);
            }
        }
    } else {
        assert(applied(desired).len() == 0);
    }
}

/// A denied path of an earlier state is revoked if and only if it is not desired for
/// the same principal, whatever spelling it is desired by.
pub proof fn earlier_denials_stay_or_are_revoked(entry: PrincipalModel, desired: Seq<PrincipalModel>, index: int)
    requires
        one_entry_each(desired),
        0 <= index < entry.paths.len(),
    ensures
        has_key(stale(entry, applied(desired)).paths, entry.paths[index].key) <==> !is_desired(
            desired,
            entry.principal,
            entry.paths[index].key,
        ),
{
    assert(has_key(entry.paths, entry.paths[index].key));
    lemma_not_among_keeps(entry.paths, paths_of(applied(desired), entry.principal), entry.paths[index].key);
    lemma_applied_paths_of(desired, entry.principal, entry.paths[index].key);
}

/// Every desired path is denied, and nothing else is applied for its capability.
pub proof fn desired_paths_are_applied(desired: Seq<PrincipalModel>, index: int, key: Seq<char>)
    requires
        0 <= index < desired.len(),
    ensures
        applied(desired)[index].principal == desired[index].principal,
        has_key(applied(desired)[index].paths, key) <==> has_key(desired[index].paths, key),
{
    lemma_without_repeats_keeps_keys(desired[index].paths, key);
}

/// The operation that converts a capability.
pub open spec fn conversion_of(entry: PrincipalModel, stale: bool) -> SyncStepModel {
    if stale {
        SyncStepModel::ConvertStale(entry.principal)
    } else {
        SyncStepModel::ConvertDesired(entry.principal)
    }
}

/// The operation on one path of a capability.
pub open spec fn change_of(path: PathModel, stale: bool) -> SyncStepModel {
    if stale {
        SyncStepModel::Revoke(path)
    } else {
        SyncStepModel::Apply(path)
    }
}

/// Whether the operations for a capability stand at a place: it is converted there, and
/// its paths follow in order.
pub open spec fn stands_at(steps: Seq<SyncStepModel>, place: int, entry: PrincipalModel, stale: bool) -> bool {
    &&& 0 <= place
    &&& place + entry.paths.len() < steps.len()
    &&& steps[place] == conversion_of(entry, stale)
    &&& forall|index: int|
        0 <= index < entry.paths.len() ==> steps[place + 1 + index] == change_of(
            (#[trigger] entry.paths[index]).path,
            stale,
        )
}

/// Whether the operations for a capability stand somewhere.
pub open spec fn is_carried_out(steps: Seq<SyncStepModel>, entry: PrincipalModel, stale: bool) -> bool {
    exists|place: int| stands_at(steps, place, entry, stale)
}

proof fn lemma_entry_stands(entries: Seq<PrincipalModel>, stale: bool, index: int) -> (place: int)
    requires
        0 <= index < entries.len(),
    ensures
        stands_at(principals_steps(entries, stale), place, entries[index], stale),
    decreases entries.len(),
{
    let before = principals_steps(entries.drop_last(), stale);
    let steps = principals_steps(entries, stale);
    if index == entries.len() - 1 {
        let entry = entries[index];
        let own = principal_steps(entry, stale);
        assert(steps == before + own);
        assert(steps[before.len() as int] == own[0]);
        assert forall|at: int| 0 <= at < entry.paths.len() implies steps[before.len() + 1 + at] == change_of(
            (#[trigger] entry.paths[at]).path,
            stale,
        ) by {
            assert(steps[before.len() + 1 + at] == own[1 + at]);
        }
        before.len() as int
    } else {
        let place = lemma_entry_stands(entries.drop_last(), stale, index);
        let entry = entries[index];
        assert(entries.drop_last()[index] == entry);
        assert forall|at: int| 0 <= at < entry.paths.len() implies steps[place + 1 + at] == change_of(
            (#[trigger] entry.paths[at]).path,
            stale,
        ) by {
            assert(steps[place + 1 + at] == before[place + 1 + at]);
        }
        assert(steps[place] == before[place]);
        place
    }
}

/// Whether an operation is one of a list of capabilities: the conversion of one of them,
/// or the change of one of their paths.
pub open spec fn belongs_to(step: SyncStepModel, entries: Seq<PrincipalModel>, stale: bool) -> bool {
    exists|index: int|
        0 <= index < entries.len() && {
            let entry = #[trigger] entries[index];
            step == conversion_of(entry, stale) || changes_path_of(step, entry, stale)
        }
}

/// Whether an operation changes a path of a capability.
pub open spec fn changes_path_of(step: SyncStepModel, entry: PrincipalModel, stale: bool) -> bool {
    exists|at: int| 0 <= at < entry.paths.len() && step == change_of((#[trigger] entry.paths[at]).path, stale)
}

proof fn lemma_steps_belong(entries: Seq<PrincipalModel>, stale: bool, position: int)
    requires
        0 <= position < principals_steps(entries, stale).len(),
    ensures
        belongs_to(principals_steps(entries, stale)[position], entries, stale),
    decreases entries.len(),
{
    let before = principals_steps(entries.drop_last(), stale);
    let step = principals_steps(entries, stale)[position];
    if position < before.len() {
        lemma_steps_belong(entries.drop_last(), stale, position);
        let index = choose|index: int|
            0 <= index < entries.drop_last().len() && {
                let entry = #[trigger] entries.drop_last()[index];
                step == conversion_of(entry, stale) || changes_path_of(step, entry, stale)
            };
        assert(entries[index] == entries.drop_last()[index]);
    } else {
        let entry = entries[entries.len() - 1];
        let own = principal_steps(entry, stale);
        assert(step == own[position - before.len()]);
        if position > before.len() {
            let at = position - before.len() - 1;
            assert(step == change_of(entry.paths[at].path, stale));
            assert(changes_path_of(step, entry, stale));
        }
    }
}

proof fn lemma_kinds(step: SyncStepModel, entries: Seq<PrincipalModel>, stale: bool)
    requires
        belongs_to(step, entries, stale),
    ensures
        stale ==> step is Revoke || step is ConvertStale,
        !stale ==> step is Apply || step is ConvertDesired,
{
    let index = choose|index: int|
        0 <= index < entries.len() && {
            let entry = #[trigger] entries[index];
            step == conversion_of(entry, stale) || changes_path_of(step, entry, stale)
        };
    assert(step == conversion_of(entries[index], stale) || changes_path_of(step, entries[index], stale));
}

/// A reconciliation denies every path of every capability that it applies, each right
/// after its own capability was converted, revokes every stale one likewise, and does
/// nothing else before it stores the state. Nothing is revoked before everything is
/// applied.
pub proof fn reconciliations_apply_before_they_revoke(
    apply: Seq<PrincipalModel>,
    revoke: Seq<PrincipalModel>,
    position: int,
    later: int,
)
    requires
        0 <= position < sync_steps(apply, revoke).len() - 1,
        0 <= later < sync_steps(apply, revoke).len() - 1,
    ensures
        ({
            let steps = sync_steps(apply, revoke);
            &&& steps.last() is Store
            &&& forall|index: int|
                0 <= index < apply.len() ==> is_carried_out(
                    steps,
                    #[trigger] apply[index],
                    false,
                )
            &&& forall|index: int|
                0 <= index < revoke.len() ==> is_carried_out(
                    steps,
                    #[trigger] revoke[index],
                    true,
                )
            &&& belongs_to(steps[position], apply, false) || belongs_to(steps[position], revoke, true)
            &&& (steps[position] is Apply || steps[position] is ConvertDesired) && (steps[later] is Revoke
                || steps[later] is ConvertStale) ==> position < later
        }),
{
    let steps = sync_steps(apply, revoke);
    let first = principals_steps(apply, false);
    let second = principals_steps(revoke, true);
    assert forall|index: int| 0 <= index < apply.len() implies is_carried_out(steps, #[trigger] apply[index], false) by {
        let place = lemma_entry_stands(apply, false, index);
        let entry = apply[index];
        assert(steps[place] == first[place]);
        assert forall|at: int| 0 <= at < entry.paths.len() implies steps[place + 1 + at] == change_of(
            (#[trigger] entry.paths[at]).path,
            false,
        ) by {
            assert(steps[place + 1 + at] == first[place + 1 + at]);
        }
        assert(stands_at(steps, place, apply[index], false));
    }
    assert forall|index: int| 0 <= index < revoke.len() implies is_carried_out(steps, #[trigger] revoke[index], true) by {
        let place = lemma_entry_stands(revoke, true, index);
        let entry = revoke[index];
        assert(steps[first.len() + place] == second[place]);
        assert forall|at: int| 0 <= at < entry.paths.len() implies steps[first.len() + place + 1 + at] == change_of(
            (#[trigger] entry.paths[at]).path,
            true,
        ) by {
            assert(steps[first.len() + place + 1 + at] == second[place + 1 + at]);
        }
        assert(stands_at(steps, first.len() + place, revoke[index], true));
    }
    if position < first.len() {
        assert(steps[position] == first[position]);
        lemma_steps_belong(apply, false, position);
    } else {
        assert(steps[position] == second[position - first.len()]);
        lemma_steps_belong(revoke, true, position - first.len());
        lemma_kinds(steps[position], revoke, true);
    }
    if later < first.len() {
        assert(steps[later] == first[later]);
        lemma_steps_belong(apply, false, later);
        lemma_kinds(steps[later], apply, false);
    }
}

proof fn lemma_with_paths(entries: Seq<PrincipalModel>, entry: PrincipalModel)
    ensures
        with_paths(entries).contains(entry) <==> entries.contains(entry) && entry.paths.len() > 0,
        path_count(with_paths(entries)) == path_count(entries),
    decreases entries.len(),
{
    if entries.len() > 0 {
        let rest = entries.drop_last();
        let kept = with_paths(rest);
        lemma_with_paths(rest, entry);
        if rest.contains(entry) {
            let index = choose|index: int| 0 <= index < rest.len() && rest[index] == entry;
            assert(entries[index] == entry);
        }
        if entries.contains(entry) {
            let index = choose|index: int| 0 <= index < entries.len() && entries[index] == entry;
            if index < rest.len() {
                assert(rest[index] == entry);
            }
        }
        assert(entries[entries.len() - 1] == entries.last());
        if entries.last().paths.len() > 0 {
            let longer = kept.push(entries.last());
            assert(with_paths(entries) == longer);
            assert(longer.drop_last() =~= kept);
            assert(longer[kept.len() as int] == entries.last());
            if kept.contains(entry) {
                let index = choose|index: int| 0 <= index < kept.len() && kept[index] == entry;
                assert(longer[index] == entry);
            }
            if longer.contains(entry) {
                let index = choose|index: int| 0 <= index < longer.len() && longer[index] == entry;
                if index < kept.len() {
                    assert(kept[index] == entry);
                }
            }
        }
    }
}

/// What a reconciliation stores is what it applied: every capability with a denied path
/// is in the new state with all its paths, no other is, and as many paths are counted.
pub proof fn stored_states_are_what_was_applied(desired: Seq<PrincipalModel>, entry: PrincipalModel)
    ensures
        with_paths(applied(desired)).contains(entry) <==> applied(desired).contains(entry) && entry.paths.len() > 0,
        path_count(with_paths(applied(desired))) == path_count(applied(desired)),
{
    lemma_with_paths(applied(desired), entry);
}

/// Exactly the earlier capabilities that hold a stale path are revoked, each with all its
/// stale paths.
pub proof fn revocations_are_what_became_stale(
    previous: Seq<PrincipalModel>,
    now: Seq<PrincipalModel>,
    entry: PrincipalModel,
)
    ensures
        revoked(previous, now).contains(entry) <==> entry.paths.len() > 0 && exists|index: int|
            0 <= index < previous.len() && entry == stale(#[trigger] previous[index], now),
{
    let all = previous.map_values(|entry: PrincipalModel| stale(entry, now));
    lemma_with_paths(all, entry);
    if all.contains(entry) {
        let index = choose|index: int| 0 <= index < all.len() && all[index] == entry;
        assert(entry == stale(previous[index], now));
    }
    if exists|index: int| 0 <= index < previous.len() && entry == stale(#[trigger] previous[index], now) {
        let index = choose|index: int| 0 <= index < previous.len() && entry == stale(#[trigger] previous[index], now);
        assert(all[index] == entry);
    }
}

} // verus!
