//! Temporary access-control entries of one embedded process.

use crate::model;
use crate::native::{NativePath, PathModel};
use crate::text::concat2;
use crate::windows::failure::{Failure, FailureModel};
use vstd::prelude::*;
use vstd::string::*;

verus! {

/// How a capability's root relates to a path.
#[derive(Clone, Copy, Debug, PartialEq, Eq, Structural)]
pub struct RootRelation {
    /// The path lies at or below the root.
    pub contains: bool,
    /// One of both lies at or below the other.
    pub overlaps: bool,
    pub specificity: usize,
}

/// Whether the root at `index` is the most specific one that contains the path, and the
/// last such.
pub open spec fn is_matching_root(relations: Seq<RootRelation>, index: int) -> bool {
    &&& 0 <= index < relations.len()
    &&& relations[index].contains
    &&& forall|other: int|
        0 <= other < relations.len() && (#[trigger] relations[other]).contains ==> relations[other].specificity
            <= relations[index].specificity
    &&& forall|later: int|
        index < later < relations.len() && (#[trigger] relations[later]).contains ==> relations[later].specificity
            < relations[index].specificity
}

/// The root whose capability opens a path for writing: the most specific one that
/// contains it, and the last of equals.
pub fn matching_root_capability(relations: &Vec<RootRelation>) -> (result: Option<usize>)
    ensures
        match result {
            Some(index) => is_matching_root(relations@, index as int),
            None => forall|index: int| 0 <= index < relations@.len() ==> !(#[trigger] relations@[index]).contains,
        },
{
    let mut best: Option<usize> = None;
    for index in 0..relations.len()
        invariant
            match best {
                Some(found) => is_matching_root(relations@.take(index as int), found as int),
                None => forall|i: int| 0 <= i < index ==> !(#[trigger] relations@[i]).contains,
            },
    {
        let ghost seen = relations@.take(index as int);
        let ghost taken = relations@.take(index + 1);
        let relation = relations[index];
        if relation.contains {
            let better = match best {
                Some(found) => relation.specificity >= relations[found].specificity,
                None => true,
            };
            if better {
                proof {
                    assert(taken[index as int] == relation);
                    assert forall|other: int|
                        0 <= other < taken.len() && (#[trigger] taken[other]).contains implies taken[other].specificity
                        <= relation.specificity by {
                        if other < index {
                            assert(seen[other] == taken[other]);
                        }
                    }
                }
                best = Some(index);
            } else {
                proof {
                    let found = best->Some_0;
                    assert(taken[found as int] == seen[found as int]);
                    assert forall|other: int|
                        0 <= other < taken.len() && (#[trigger] taken[other]).contains implies taken[other].specificity
                        <= taken[found as int].specificity by {
                        if other < index {
                            assert(seen[other] == taken[other]);
                        }
                    }
                    assert forall|later: int|
                        found < later < taken.len() && (#[trigger] taken[later]).contains implies taken[later].specificity
                        < taken[found as int].specificity by {
                        if later < index {
                            assert(seen[later] == taken[later]);
                        }
                    }
                }
            }
        } else {
            proof {
                if let Some(found) = best {
                    assert(taken[found as int] == seen[found as int]);
                    assert forall|other: int|
                        0 <= other < taken.len() && (#[trigger] taken[other]).contains implies taken[other].specificity
                        <= taken[found as int].specificity by {
                        if other < index {
                            assert(seen[other] == taken[other]);
                        }
                    }
                    assert forall|later: int|
                        found < later < taken.len() && (#[trigger] taken[later]).contains implies taken[later].specificity
                        < taken[found as int].specificity by {
                        if later < index {
                            assert(seen[later] == taken[later]);
                        }
                    }
                }
            }
        }
    }
    assert(relations@.take(relations.len() as int) =~= relations@);
    best
}

/// The roots that overlap a path, in order.
pub open spec fn overlapping(relations: Seq<RootRelation>) -> Seq<usize>
    decreases relations.len(),
{
    if relations.len() == 0 {
        Seq::empty()
    } else if relations.last().overlaps {
        overlapping(relations.drop_last()).push((relations.len() - 1) as usize)
    } else {
        overlapping(relations.drop_last())
    }
}

/// The roots whose capabilities are denied writing to a path: those that overlap it, or
/// all where none does.
pub open spec fn denied_roots(relations: Seq<RootRelation>) -> Seq<usize> {
    if overlapping(relations).len() == 0 {
        Seq::new(relations.len(), |index: int| index as usize)
    } else {
        overlapping(relations)
    }
}

/// The roots whose capabilities are denied writing to a path.
pub fn deny_root_capabilities_for_path(relations: &Vec<RootRelation>) -> (result: Vec<usize>)
    ensures
        result@ == denied_roots(relations@),
{
    let mut roots: Vec<usize> = Vec::new();
    for index in 0..relations.len()
        invariant
            roots@ == overlapping(relations@.take(index as int)),
    {
        assert(relations@.take(index + 1).drop_last() =~= relations@.take(index as int));
        if relations[index].overlaps {
            roots.push(index);
        }
    }
    assert(relations@.take(relations.len() as int) =~= relations@);
    if roots.len() == 0 {
        for index in 0..relations.len()
            invariant
                roots@ == Seq::new(index as nat, |i: int| i as usize),
        {
            roots.push(index);
            assert(roots@ =~= Seq::new((index + 1) as nat, |i: int| i as usize));
        }
    }
    roots
}

/// Where an entry was added, and for which capability.
#[derive(Debug)]
pub enum AclTarget {
    Path(NativePath),
    NullDevice,
    WindowStation,
}

/// One entry to revoke.
#[derive(Debug)]
pub struct AclRevocation {
    pub target: AclTarget,
    pub sid: String,
}

/// What an [`AclTarget`] holds.
pub enum AclTargetModel {
    Path(PathModel),
    NullDevice,
    WindowStation,
}

/// What an [`AclRevocation`] holds.
pub struct RevocationModel {
    pub target: AclTargetModel,
    pub sid: Seq<char>,
}

impl DeepView for AclRevocation {
    type V = RevocationModel;

    open spec fn deep_view(&self) -> RevocationModel {
        RevocationModel {
            target: match self.target {
                AclTarget::Path(path) => AclTargetModel::Path(path@),
                AclTarget::NullDevice => AclTargetModel::NullDevice,
                AclTarget::WindowStation => AclTargetModel::WindowStation,
            },
            sid: self.sid@,
        }
    }
}

/// The entries that one process owns.
#[derive(Debug)]
pub struct EmbeddingAclLease {
    pub path_aces: Vec<(NativePath, String)>,
    pub null_device_aces: Vec<String>,
    pub window_station_aces: Vec<String>,
    /// Whether the cleanup takes the mutex of ACL changes. While the entries are being
    /// added the mutex is held already.
    pub serialize_cleanup: bool,
}

/// What an [`EmbeddingAclLease`] holds.
pub struct AclLeaseModel {
    pub path_aces: Seq<(PathModel, Seq<char>)>,
    pub null_device_aces: Seq<Seq<char>>,
    pub window_station_aces: Seq<Seq<char>>,
    pub serialize_cleanup: bool,
}

impl DeepView for EmbeddingAclLease {
    type V = AclLeaseModel;

    open spec fn deep_view(&self) -> AclLeaseModel {
        AclLeaseModel {
            path_aces: self.path_aces.deep_view(),
            null_device_aces: self.null_device_aces.deep_view(),
            window_station_aces: self.window_station_aces.deep_view(),
            serialize_cleanup: self.serialize_cleanup,
        }
    }
}

impl View for EmbeddingAclLease {
    type V = AclLeaseModel;

    open spec fn view(&self) -> AclLeaseModel {
        self.deep_view()
    }
}

/// The entries to revoke: those of the window station, of the null device, and of the
/// paths, each kind from the last one added to the first.
pub open spec fn cleanup(lease: AclLeaseModel) -> Seq<RevocationModel> {
    lease.window_station_aces.reverse().map_values(
        |sid: Seq<char>| RevocationModel { target: AclTargetModel::WindowStation, sid },
    ) + lease.null_device_aces.reverse().map_values(
        |sid: Seq<char>| RevocationModel { target: AclTargetModel::NullDevice, sid },
    ) + lease.path_aces.reverse().map_values(
        |entry: (PathModel, Seq<char>)| RevocationModel { target: AclTargetModel::Path(entry.0), sid: entry.1 },
    )
}

/// The entries that the end of a lease revokes: none where its cleanup needs the mutex
/// and did not get it.
pub open spec fn cleanup_under(lease: AclLeaseModel, locked: bool) -> Seq<RevocationModel> {
    if lease.serialize_cleanup && !locked {
        Seq::empty()
    } else {
        cleanup(lease)
    }
}

impl Default for EmbeddingAclLease {
    /// A lease that owns nothing.
    fn default() -> (result: Self)
        ensures
            result@.path_aces.len() == 0,
            result@.null_device_aces.len() == 0,
            result@.window_station_aces.len() == 0,
            !result@.serialize_cleanup,
    {
        EmbeddingAclLease {
            path_aces: Vec::new(),
            null_device_aces: Vec::new(),
            window_station_aces: Vec::new(),
            serialize_cleanup: false,
        }
    }
}

impl EmbeddingAclLease {
    /// Records an entry that was added to a path.
    pub fn record_path_ace(&mut self, path: &NativePath, sid: &str)
        ensures
            final(self)@ == (AclLeaseModel { path_aces: old(self)@.path_aces.push((path@, sid@)), ..old(self)@ }),
    {
        let ghost before = self.path_aces;
        let entry = (path.clone(), sid.to_owned());
        self.path_aces.push(entry);
        proof {
            model::lemma_deep_push(before, self.path_aces, entry);
        }
    }

    /// Records an entry that was added to the null device.
    pub fn record_null_device_ace(&mut self, sid: &str)
        ensures
            final(self)@ == (AclLeaseModel {
                null_device_aces: old(self)@.null_device_aces.push(sid@),
                ..old(self)@
            }),
    {
        let ghost before = self.null_device_aces;
        let entry = sid.to_owned();
        self.null_device_aces.push(entry);
        proof {
            model::lemma_deep_push(before, self.null_device_aces, entry);
        }
    }

    /// Records an entry that was added to the window station.
    pub fn record_window_station_ace(&mut self, sid: &str)
        ensures
            final(self)@ == (AclLeaseModel {
                window_station_aces: old(self)@.window_station_aces.push(sid@),
                ..old(self)@
            }),
    {
        let ghost before = self.window_station_aces;
        let entry = sid.to_owned();
        self.window_station_aces.push(entry);
        proof {
            model::lemma_deep_push(before, self.window_station_aces, entry);
        }
    }

    /// Marks the lease as complete, once every change of its plan was carried out: from
    /// then on its cleanup takes the mutex of the embedding ACLs. Until then the mutex is
    /// still held by the one who makes the changes.
    pub fn complete(&mut self)
        ensures
            final(self)@ == (AclLeaseModel { serialize_cleanup: true, ..old(self)@ }),
    {
        self.serialize_cleanup = true;
    }

    /// The entries to revoke when the lease ends, in order. `locked` tells whether the
    /// mutex was taken; a cleanup that needs it revokes nothing without it.
    pub fn end(&self, locked: bool) -> (result: Vec<AclRevocation>)
        ensures
            result.deep_view() == cleanup_under(self@, locked),
    {
        if self.serialize_cleanup && !locked {
            let nothing: Vec<AclRevocation> = Vec::new();
            assert(nothing.deep_view() =~= Seq::<RevocationModel>::empty());
            return nothing;
        }
        self.revocations()
    }

    /// The entries to revoke, in order.
    fn revocations(&self) -> (result: Vec<AclRevocation>)
        ensures
            result.deep_view() == cleanup(self@),
    {
        let ghost stations = self@.window_station_aces.reverse().map_values(
            |sid: Seq<char>| RevocationModel { target: AclTargetModel::WindowStation, sid },
        );
        let ghost devices = self@.null_device_aces.reverse().map_values(
            |sid: Seq<char>| RevocationModel { target: AclTargetModel::NullDevice, sid },
        );
        let ghost paths = self@.path_aces.reverse().map_values(
            |entry: (PathModel, Seq<char>)| RevocationModel { target: AclTargetModel::Path(entry.0), sid: entry.1 },
        );
        let mut revocations: Vec<AclRevocation> = Vec::new();
        let mut index: usize = self.window_station_aces.len();
        assert(revocations.deep_view() =~= stations.take(0));
        while index > 0
            invariant
                index <= self.window_station_aces.len(),
                stations == self@.window_station_aces.reverse().map_values(
                    |sid: Seq<char>| RevocationModel { target: AclTargetModel::WindowStation, sid },
                ),
                revocations.deep_view() == stations.take(self.window_station_aces.len() - index),
            decreases index,
        {
            index = index - 1;
            let ghost before = revocations;
            let entry = AclRevocation {
                target: AclTarget::WindowStation,
                sid: self.window_station_aces[index].clone(),
            };
            revocations.push(entry);
            proof {
                let place = self.window_station_aces.len() - 1 - index;
                model::lemma_deep_push(before, revocations, entry);
                model::lemma_take_push(stations, place);
                assert(self@.window_station_aces[index as int] == self.window_station_aces@[index as int]@);
                assert(stations[place] == entry.deep_view());
            }
        }
        assert(stations.take(stations.len() as int) =~= stations);
        assert(stations + devices.take(0) =~= stations);
        index = self.null_device_aces.len();
        while index > 0
            invariant
                index <= self.null_device_aces.len(),
                devices == self@.null_device_aces.reverse().map_values(
                    |sid: Seq<char>| RevocationModel { target: AclTargetModel::NullDevice, sid },
                ),
                revocations.deep_view() == stations + devices.take(self.null_device_aces.len() - index),
            decreases index,
        {
            index = index - 1;
            let ghost before = revocations;
            let entry = AclRevocation { target: AclTarget::NullDevice, sid: self.null_device_aces[index].clone() };
            revocations.push(entry);
            proof {
                let place = self.null_device_aces.len() - 1 - index;
                model::lemma_deep_push(before, revocations, entry);
                model::lemma_take_push(devices, place);
                assert(self@.null_device_aces[index as int] == self.null_device_aces@[index as int]@);
                assert(devices[place] == entry.deep_view());
                assert((stations + devices.take(place)).push(entry.deep_view()) =~= stations + devices.take(place + 1));
            }
        }
        assert(devices.take(devices.len() as int) =~= devices);
        let ghost lead = stations + devices;
        assert(lead + paths.take(0) =~= lead);
        index = self.path_aces.len();
        while index > 0
            invariant
                index <= self.path_aces.len(),
                paths == self@.path_aces.reverse().map_values(
                    |entry: (PathModel, Seq<char>)|
                        RevocationModel { target: AclTargetModel::Path(entry.0), sid: entry.1 },
                ),
                revocations.deep_view() == lead + paths.take(self.path_aces.len() - index),
            decreases index,
        {
            index = index - 1;
            let ghost before = revocations;
            let entry = AclRevocation {
                target: AclTarget::Path(self.path_aces[index].0.clone()),
                sid: self.path_aces[index].1.clone(),
            };
            revocations.push(entry);
            proof {
                let place = self.path_aces.len() - 1 - index;
                model::lemma_deep_push(before, revocations, entry);
                model::lemma_take_push(paths, place);
                assert(self@.path_aces[index as int] == self.path_aces@[index as int].deep_view());
                assert(paths[place] == entry.deep_view());
                assert((lead + paths.take(place)).push(entry.deep_view()) =~= lead + paths.take(place + 1));
            }
        }
        assert(paths.take(paths.len() as int) =~= paths);
        assert(revocations.deep_view() =~= cleanup(self@));
        revocations
    }
}

/// Every recorded entry is revoked once: as many are revoked as were recorded, and each
/// recorded one is among them.
pub proof fn every_recorded_entry_is_revoked(lease: AclLeaseModel, index: int)
    ensures
        cleanup(lease).len() == lease.window_station_aces.len() + lease.null_device_aces.len()
            + lease.path_aces.len(),
        0 <= index < lease.window_station_aces.len() ==> cleanup(lease).contains(
            (RevocationModel { target: AclTargetModel::WindowStation, sid: lease.window_station_aces[index] }),
        ),
        0 <= index < lease.null_device_aces.len() ==> cleanup(lease).contains(
            (RevocationModel { target: AclTargetModel::NullDevice, sid: lease.null_device_aces[index] }),
        ),
        0 <= index < lease.path_aces.len() ==> cleanup(lease).contains(
            (RevocationModel {
                target: AclTargetModel::Path(lease.path_aces[index].0),
                sid: lease.path_aces[index].1,
            }),
        ),
{
    let all = cleanup(lease);
    let stations = lease.window_station_aces.len();
    let devices = lease.null_device_aces.len();
    if 0 <= index < stations {
        assert(all[stations - 1 - index] == (RevocationModel {
            target: AclTargetModel::WindowStation,
            sid: lease.window_station_aces[index],
        }));
    }
    if 0 <= index < devices {
        assert(all[stations + devices - 1 - index] == (RevocationModel {
            target: AclTargetModel::NullDevice,
            sid: lease.null_device_aces[index],
        }));
    }
    if 0 <= index < lease.path_aces.len() {
        assert(all[stations + devices + lease.path_aces.len() - 1 - index] == (RevocationModel {
            target: AclTargetModel::Path(lease.path_aces[index].0),
            sid: lease.path_aces[index].1,
        }));
    }
}

/// An access-control change of one process. Roots and paths are given by their places.
#[derive(Debug)]
pub enum AclStep {
    /// Create a denied path that a request adds and that does not exist.
    CreateDenied(usize),
    /// Let the read-only capability use an allowed path.
    AllowReadonly(usize),
    /// Let a root's capability write below an allowed path: the path, then the root.
    AllowWrite(usize, usize),
    /// Deny a root's capability writing to a path: the path, then the root.
    DenyWrite(usize, usize),
    /// Open the null device and the window station for a root's capability.
    OpenDevices(usize),
    /// Open the null device and the window station for the read-only capability.
    OpenReadonlyDevices,
    /// The policy cannot be applied. The changes before this are undone.
    Refuse(Failure),
}

/// What an [`AclStep`] holds.
pub enum AclStepModel {
    CreateDenied(nat),
    AllowReadonly(nat),
    AllowWrite(nat, nat),
    DenyWrite(nat, nat),
    OpenDevices(nat),
    OpenReadonlyDevices,
    Refuse(FailureModel),
}

impl DeepView for AclStep {
    type V = AclStepModel;

    open spec fn deep_view(&self) -> AclStepModel {
        match self {
            AclStep::CreateDenied(path) => AclStepModel::CreateDenied(*path as nat),
            AclStep::AllowReadonly(path) => AclStepModel::AllowReadonly(*path as nat),
            AclStep::AllowWrite(path, root) => AclStepModel::AllowWrite(*path as nat, *root as nat),
            AclStep::DenyWrite(path, root) => AclStepModel::DenyWrite(*path as nat, *root as nat),
            AclStep::OpenDevices(root) => AclStepModel::OpenDevices(*root as nat),
            AclStep::OpenReadonlyDevices => AclStepModel::OpenReadonlyDevices,
            AclStep::Refuse(failure) => AclStepModel::Refuse(failure@),
        }
    }
}

/// The root for an allowed path, if there is one.
pub open spec fn root_for(relations: Seq<RootRelation>) -> Option<int> {
    if exists|index: int| is_matching_root(relations, index) {
        Some(choose|index: int| is_matching_root(relations, index))
    } else {
        None
    }
}

proof fn lemma_matching_root_is_unique(relations: Seq<RootRelation>, first: int, second: int)
    requires
        is_matching_root(relations, first),
        is_matching_root(relations, second),
    ensures
        first == second,
{
    if first < second {
        assert(relations[second].specificity < relations[first].specificity);
    }
    if second < first {
        assert(relations[first].specificity < relations[second].specificity);
    }
}

/// The failure of an allowed path below no root.
pub open spec fn uncovered(path: PathModel) -> FailureModel {
    FailureModel::plain("no write capability SID is available for requested root "@ + path.text.display())
}

/// The step for an allowed path: its root's capability may write below it.
pub open spec fn allow_step(path: PathModel, place: nat, relations: Seq<RootRelation>) -> AclStepModel {
    match root_for(relations) {
        Some(root) => AclStepModel::AllowWrite(place, root as nat),
        None => AclStepModel::Refuse(uncovered(path)),
    }
}

/// Chooses the step for an allowed path of a process with writable roots.
pub fn allow_write_step(path: &NativePath, place: usize, relations: &Vec<RootRelation>) -> (result: AclStep)
    ensures
        result.deep_view() == allow_step(path@, place as nat, relations@),
{
    match matching_root_capability(relations) {
        Some(root) => {
            proof {
                let chosen = choose|index: int| is_matching_root(relations@, index);
                lemma_matching_root_is_unique(relations@, root as int, chosen);
            }
            AclStep::AllowWrite(place, root)
        },
        None => {
            proof {
                assert forall|index: int| !is_matching_root(relations@, index) by {
                    if 0 <= index < relations@.len() {
                        assert(!relations@[index].contains);
                    }
                }
            }
            let shown = path.text.display();
            let message = concat2("no write capability SID is available for requested root ", shown.as_str());
            AclStep::Refuse(Failure::new(message.as_str()))
        },
    }
}

/// The steps for the denied paths that a request adds: those that do not exist are created.
pub open spec fn create_steps(existing: Seq<bool>) -> Seq<AclStepModel>
    decreases existing.len(),
{
    if existing.len() == 0 {
        Seq::empty()
    } else {
        let before = create_steps(existing.drop_last());
        if existing.last() {
            before
        } else {
            before.push(AclStepModel::CreateDenied((existing.len() - 1) as nat))
        }
    }
}

/// The steps for denied paths: each is denied to each of its roots' capabilities.
pub open spec fn deny_steps(relations: Seq<Seq<RootRelation>>) -> Seq<AclStepModel>
    decreases relations.len(),
{
    if relations.len() == 0 {
        Seq::empty()
    } else {
        let place = (relations.len() - 1) as nat;
        deny_steps(relations.drop_last()) + denied_roots(relations.last()).map_values(
            |root: usize| AclStepModel::DenyWrite(place, root as nat),
        )
    }
}

/// The steps for allowed paths, up to the first one that cannot be allowed.
pub open spec fn allow_steps(
    paths: Seq<PathModel>,
    relations: Seq<Seq<RootRelation>>,
    readonly: bool,
    count: nat,
) -> Seq<AclStepModel>
    decreases count,
{
    if count == 0 {
        Seq::empty()
    } else {
        let place = (count - 1) as nat;
        let before = allow_steps(paths, relations, readonly, place);
        if readonly {
            before.push(AclStepModel::AllowReadonly(place))
        } else {
            before.push(allow_step(paths[place as int], place, relations[place as int]))
        }
    }
}

/// Whether every allowed path is covered by a root, or the process is read-only.
pub open spec fn all_covered(relations: Seq<Seq<RootRelation>>, readonly: bool) -> bool {
    readonly || forall|index: int| 0 <= index < relations.len() ==> root_for(#[trigger] relations[index]) is Some
}

/// The steps that open the devices: for each root, or for the read-only capability.
pub open spec fn device_steps(roots: nat, readonly: bool) -> Seq<AclStepModel> {
    if readonly {
        Seq::new(roots, |root: int| AclStepModel::OpenDevices(root as nat)).push(AclStepModel::OpenReadonlyDevices)
    } else {
        Seq::new(roots, |root: int| AclStepModel::OpenDevices(root as nat))
    }
}

/// The failure of an access-control change, with the host's error.
pub open spec fn change_failure(step: AclStepModel, path: PathModel, error: Seq<char>) -> FailureModel {
    let cause = FailureModel::plain(error);
    match step {
        AclStepModel::CreateDenied(_) => cause.within("create deny-write path "@ + path.text.display()),
        AclStepModel::AllowReadonly(_) => cause.within("add readonly allow ACE to "@ + path.text.display()),
        AclStepModel::AllowWrite(_, _) => cause.within("add writable-root allow ACE to "@ + path.text.display()),
        AclStepModel::DenyWrite(_, _) => cause.within("add deny-write ACE to "@ + path.text.display()),
        _ => cause,
    }
}

/// The failure of an access-control change on a path, with the host's error.
pub fn acl_change_failure(step: &AclStep, path: &NativePath, error: &str) -> (result: Failure)
    ensures
        result@ == change_failure(step.deep_view(), path@, error@),
{
    let failure = Failure::new(error);
    let shown = path.text.display();
    match step {
        AclStep::CreateDenied(_) => {
            let context = concat2("create deny-write path ", shown.as_str());
            failure.within(context.as_str())
        },
        AclStep::AllowReadonly(_) => {
            let context = concat2("add readonly allow ACE to ", shown.as_str());
            failure.within(context.as_str())
        },
        AclStep::AllowWrite(_, _) => {
            let context = concat2("add writable-root allow ACE to ", shown.as_str());
            failure.within(context.as_str())
        },
        AclStep::DenyWrite(_, _) => {
            let context = concat2("add deny-write ACE to ", shown.as_str());
            failure.within(context.as_str())
        },
        _ => failure,
    }
}

/// The changes for the allowed paths of a process, in order. They end with a refusal
/// where a path is below no root.
fn plan_allow(paths: &Vec<NativePath>, relations: &Vec<Vec<RootRelation>>, readonly: bool) -> (result: (Vec<AclStep>, bool))
    requires
        relations@.len() == paths@.len(),
    ensures
        ({
            let models = Seq::new(relations@.len(), |index: int| relations@[index]@);
            &&& result.1 == all_covered(models, readonly)
            &&& exists|count: nat| {
                &&& count <= paths@.len()
                &&& result.0.deep_view() == #[trigger] allow_steps(paths.deep_view(), models, readonly, count)
                &&& result.1 ==> count == paths@.len()
                &&& !result.1 ==> 0 < count && result.0.deep_view().last() is Refuse
                &&& forall|index: int| 0 <= index < count - 1 ==> readonly || root_for(#[trigger] models[index]) is Some
            }
        }),
{
    let ghost models = Seq::new(relations@.len(), |index: int| relations@[index]@);
    let mut steps: Vec<AclStep> = Vec::new();
    assert(steps.deep_view() =~= allow_steps(paths.deep_view(), models, readonly, 0));
    for index in 0..paths.len()
        invariant
            relations@.len() == paths@.len(),
            models == Seq::new(relations@.len(), |index: int| relations@[index]@),
            steps.deep_view() == allow_steps(paths.deep_view(), models, readonly, index as nat),
            forall|i: int| 0 <= i < index ==> readonly || root_for(#[trigger] models[i]) is Some,
    {
        let ghost before = steps;
        let step = if readonly {
            AclStep::AllowReadonly(index)
        } else {
            allow_write_step(&paths[index], index, &relations[index])
        };
        let refused = match &step {
            AclStep::Refuse(_) => true,
            _ => false,
        };
        steps.push(step);
        proof {
            model::lemma_deep_push(before, steps, step);
            assert(paths.deep_view()[index as int] == paths@[index as int]@);
            assert(models[index as int] == relations@[index as int]@);
            assert(steps.deep_view() == allow_steps(paths.deep_view(), models, readonly, (index + 1) as nat));
        }
        if refused {
            proof {
                assert(root_for(models[index as int]) is None);
                let count = (index + 1) as nat;
                assert(steps.deep_view() == allow_steps(paths.deep_view(), models, readonly, count));
            }
            return (steps, false);
        }
    }
    assert(steps.deep_view() == allow_steps(paths.deep_view(), models, readonly, paths@.len()));
    (steps, true)
}

/// The changes for the denied paths that a request adds, in order.
fn plan_create(existing: &Vec<bool>) -> (result: Vec<AclStep>)
    ensures
        result.deep_view() == create_steps(existing@),
{
    let mut steps: Vec<AclStep> = Vec::new();
    assert(steps.deep_view() =~= create_steps(existing@.take(0)));
    for place in 0..existing.len()
        invariant
            steps.deep_view() == create_steps(existing@.take(place as int)),
    {
        let ghost before = steps;
        if !existing[place] {
            let step = AclStep::CreateDenied(place);
            steps.push(step);
            proof {
                model::lemma_deep_push(before, steps, step);
            }
        }
        proof {
            let taken = existing@.take(place + 1);
            assert(taken.drop_last() =~= existing@.take(place as int));
            assert(taken.last() == existing@[place as int]);
        }
    }
    assert(existing@.take(existing@.len() as int) =~= existing@);
    steps
}

/// The changes for the denied paths of a process, in order.
fn plan_deny(relations: &Vec<Vec<RootRelation>>) -> (result: Vec<AclStep>)
    ensures
        result.deep_view() == deny_steps(Seq::new(relations@.len(), |index: int| relations@[index]@)),
{
    let ghost models = Seq::new(relations@.len(), |index: int| relations@[index]@);
    let mut steps: Vec<AclStep> = Vec::new();
    assert(steps.deep_view() =~= deny_steps(models.take(0)));
    for place in 0..relations.len()
        invariant
            models == Seq::new(relations@.len(), |index: int| relations@[index]@),
            steps.deep_view() == deny_steps(models.take(place as int)),
    {
        let roots = deny_root_capabilities_for_path(&relations[place]);
        let ghost lead = steps.deep_view();
        let ghost added = roots@.map_values(|root: usize| AclStepModel::DenyWrite(place as nat, root as nat));
        assert(lead + added.take(0) =~= lead);
        for index in 0..roots.len()
            invariant
                added == roots@.map_values(|root: usize| AclStepModel::DenyWrite(place as nat, root as nat)),
                steps.deep_view() == lead + added.take(index as int),
        {
            let ghost before = steps;
            let step = AclStep::DenyWrite(place, roots[index]);
            steps.push(step);
            proof {
                model::lemma_deep_push(before, steps, step);
                assert(added.take(index + 1) =~= added.take(index as int).push(step.deep_view()));
                assert(steps.deep_view() =~= lead + added.take(index + 1));
            }
        }
        proof {
            assert(added.take(added.len() as int) =~= added);
            let taken = models.take(place + 1);
            assert(taken.drop_last() =~= models.take(place as int));
            assert(taken.last() == relations@[place as int]@);
            assert(steps.deep_view() =~= deny_steps(taken));
        }
    }
    assert(models.take(models.len() as int) =~= models);
    steps
}

/// The access-control changes of a process.
#[derive(Debug)]
pub struct AclPlan {
    pub create: Vec<AclStep>,
    pub allow: Vec<AclStep>,
    /// None where an allowed path is refused.
    pub deny: Vec<AclStep>,
    /// None where an allowed path is refused.
    pub devices: Vec<AclStep>,
}

/// Whether these are the changes for the allowed paths: one for each, up to the first
/// one below no root, which ends them.
pub open spec fn are_allow_steps(
    steps: Seq<AclStepModel>,
    paths: Seq<PathModel>,
    relations: Seq<Seq<RootRelation>>,
    readonly: bool,
) -> bool {
    exists|count: nat| {
        &&& count <= paths.len()
        &&& steps == #[trigger] allow_steps(paths, relations, readonly, count)
        &&& all_covered(relations, readonly) ==> count == paths.len()
        &&& !all_covered(relations, readonly) ==> 0 < count && steps.last() is Refuse
        &&& forall|index: int| 0 <= index < count - 1 ==> readonly || root_for(#[trigger] relations[index]) is Some
    }
}

/// Whether a plan is what the paths of a process call for. Where an allowed path is
/// refused, nothing follows the refusal.
pub open spec fn is_acl_plan(
    plan: AclPlan,
    existing: Seq<bool>,
    allow: Seq<PathModel>,
    allow_relations: Seq<Seq<RootRelation>>,
    deny_relations: Seq<Seq<RootRelation>>,
    roots: nat,
    readonly: bool,
) -> bool {
    &&& plan.create.deep_view() == create_steps(existing)
    &&& are_allow_steps(plan.allow.deep_view(), allow, allow_relations, readonly)
    &&& plan.deny.deep_view() == if all_covered(allow_relations, readonly) {
        deny_steps(deny_relations)
    } else {
        Seq::empty()
    }
    &&& plan.devices.deep_view() == if all_covered(allow_relations, readonly) {
        device_steps(roots, readonly)
    } else {
        Seq::empty()
    }
}

/// Plans the access-control changes of a process, by which of the denied paths that its
/// request adds exist, and by how its roots relate to the paths that it may and may not
/// write. `locked` is the outcome of taking the mutex of the embedding ACLs, without which
/// nothing is changed. An allowed path below no root ends the changes.
pub fn apply_embedding_acl_rules(
    locked: Result<(), Failure>,
    existing: &Vec<bool>,
    allow: &Vec<NativePath>,
    allow_relations: &Vec<Vec<RootRelation>>,
    deny_relations: &Vec<Vec<RootRelation>>,
    roots: usize,
    readonly: bool,
) -> (result: Result<AclPlan, Failure>)
    requires
        allow_relations@.len() == allow@.len(),
    ensures
        match locked {
            Err(cause) => result matches Err(failure) && failure@ == cause@,
            Ok(_) => result matches Ok(plan) && is_acl_plan(
                plan,
                existing@,
                allow.deep_view(),
                Seq::new(allow_relations@.len(), |index: int| allow_relations@[index]@),
                Seq::new(deny_relations@.len(), |index: int| deny_relations@[index]@),
                roots as nat,
                readonly,
            ),
        },
{
    if let Err(failure) = locked {
        return Err(failure);
    }
    let create = plan_create(existing);
    let (allow_plan, covered) = plan_allow(allow, allow_relations, readonly);
    if !covered {
        let deny: Vec<AclStep> = Vec::new();
        let devices: Vec<AclStep> = Vec::new();
        assert(deny.deep_view() =~= Seq::<AclStepModel>::empty());
        assert(devices.deep_view() =~= Seq::<AclStepModel>::empty());
        return Ok(AclPlan { create, allow: allow_plan, deny, devices });
    }
    let deny = plan_deny(deny_relations);
    let mut devices: Vec<AclStep> = Vec::new();
    let ghost opened = Seq::new(roots as nat, |root: int| AclStepModel::OpenDevices(root as nat));
    assert(devices.deep_view() =~= opened.take(0));
    for root in 0..roots
        invariant
            opened == Seq::new(roots as nat, |root: int| AclStepModel::OpenDevices(root as nat)),
            devices.deep_view() == opened.take(root as int),
    {
        let ghost before = devices;
        let step = AclStep::OpenDevices(root);
        devices.push(step);
        proof {
            model::lemma_deep_push(before, devices, step);
            model::lemma_take_push(opened, root as int);
        }
    }
    assert(opened.take(opened.len() as int) =~= opened);
    if readonly {
        let ghost before = devices;
        let step = AclStep::OpenReadonlyDevices;
        devices.push(step);
        proof {
            model::lemma_deep_push(before, devices, step);
        }
    }
    Ok(AclPlan { create, allow: allow_plan, deny, devices })
}

proof fn lemma_overlapping(relations: Seq<RootRelation>, root: usize)
    requires
        relations.len() <= usize::MAX,
    ensures
        overlapping(relations).contains(root) <==> root < relations.len() && relations[root as int].overlaps,
    decreases relations.len(),
{
    if relations.len() > 0 {
        let rest = relations.drop_last();
        let before = overlapping(rest);
        let last = (relations.len() - 1) as usize;
        lemma_overlapping(rest, root);
        if before.contains(root) {
            let index = choose|index: int| 0 <= index < before.len() && before[index] == root;
            assert(before.push(last)[index] == root);
        }
        assert(before.push(last)[before.len() as int] == last);
        if before.push(last).contains(root) {
            let index = choose|index: int| 0 <= index < before.push(last).len() && before.push(last)[index] == root;
            if index < before.len() {
                assert(before[index] == root);
            }
        }
    }
}

/// Whether some root overlaps a path.
pub open spec fn is_overlapped(relations: Seq<RootRelation>) -> bool {
    exists|root: int| 0 <= root < relations.len() && (#[trigger] relations[root]).overlaps
}

/// Writing to a denied path is denied to every capability whose root overlaps it, and to
/// all of them where none does.
pub proof fn denials_reach_every_overlapping_root(relations: Seq<RootRelation>, root: usize)
    requires
        relations.len() <= usize::MAX,
    ensures
        denied_roots(relations).contains(root) <==> root < relations.len() && (relations[root as int].overlaps
            || !is_overlapped(relations)),
{
    lemma_overlapping(relations, root);
    if overlapping(relations).len() == 0 {
        assert forall|other: int| 0 <= other < relations.len() implies !(#[trigger] relations[other]).overlaps by {
            lemma_overlapping(relations, other as usize);
            assert(!overlapping(relations).contains(other as usize));
        }
        let all = Seq::new(relations.len(), |index: int| index as usize);
        if root < relations.len() {
            assert(all[root as int] == root);
        }
    } else {
        let first = overlapping(relations)[0];
        assert(overlapping(relations).contains(first));
        lemma_overlapping(relations, first);
        assert(relations[first as int].overlaps);
    }
}

/// Whether some root contains a path.
pub open spec fn is_contained(relations: Seq<RootRelation>) -> bool {
    exists|root: int| 0 <= root < relations.len() && (#[trigger] relations[root]).contains
}

proof fn lemma_some_root_matches(relations: Seq<RootRelation>) -> (best: int)
    requires
        is_contained(relations),
    ensures
        is_matching_root(relations, best),
    decreases relations.len(),
{
    let rest = relations.drop_last();
    let last = relations.len() - 1;
    if is_contained(rest) {
        let before = lemma_some_root_matches(rest);
        assert(relations[before] == rest[before]);
        let best = if relations[last].contains && relations[last].specificity >= relations[before].specificity {
            last
        } else {
            before
        };
        assert forall|other: int|
            0 <= other < relations.len() && (#[trigger] relations[other]).contains implies relations[other].specificity
            <= relations[best].specificity by {
            if other < last {
                assert(relations[other] == rest[other]);
            }
        }
        assert forall|later: int|
            best < later < relations.len() && (#[trigger] relations[later]).contains implies relations[later].specificity
            < relations[best].specificity by {
            if later < last {
                assert(relations[later] == rest[later]);
            }
        }
        best
    } else {
        let root = choose|root: int| 0 <= root < relations.len() && (#[trigger] relations[root]).contains;
        if root < last {
            assert(rest[root].contains);
        }
        assert forall|other: int|
            0 <= other < relations.len() && (#[trigger] relations[other]).contains implies other == last by {
            if other < last {
                assert(rest[other] == relations[other]);
            }
        }
        last
    }
}

/// A path is opened for writing by the capability of a root that contains it, of which
/// none that contains it is more specific; it is refused exactly where no root contains
/// it.
pub proof fn writes_are_opened_by_the_nearest_root(path: PathModel, place: nat, relations: Seq<RootRelation>)
    ensures
        allow_step(path, place, relations) is Refuse <==> !is_contained(relations),
        allow_step(path, place, relations) matches AclStepModel::AllowWrite(opened, root) ==> {
            &&& opened == place
            &&& root < relations.len()
            &&& relations[root as int].contains
            &&& forall|other: int|
                0 <= other < relations.len() && (#[trigger] relations[other]).contains ==> relations[other].specificity
                    <= relations[root as int].specificity
        },
        allow_step(path, place, relations) is Refuse || allow_step(path, place, relations) is AllowWrite,
{
    if is_contained(relations) {
        let best = lemma_some_root_matches(relations);
        assert(is_matching_root(relations, best));
    } else if exists|index: int| is_matching_root(relations, index) {
        let index = choose|index: int| is_matching_root(relations, index);
        assert(relations[index].contains);
    }
}

proof fn lemma_allow_steps(
    paths: Seq<PathModel>,
    relations: Seq<Seq<RootRelation>>,
    readonly: bool,
    count: nat,
    index: int,
)
    ensures
        allow_steps(paths, relations, readonly, count).len() == count,
        0 <= index < count ==> allow_steps(paths, relations, readonly, count)[index] == if readonly {
            AclStepModel::AllowReadonly(index as nat)
        } else {
            allow_step(paths[index], index as nat, relations[index])
        },
    decreases count,
{
    if count > 0 {
        lemma_allow_steps(paths, relations, readonly, (count - 1) as nat, index);
    }
}

/// Where each allowed path lies below a root, each is opened by its nearest one; a
/// read-only process opens each with its own capability. Else the changes end with a
/// refusal, before anything is denied or a device opened.
pub proof fn plans_open_each_allowed_path(
    plan: AclPlan,
    existing: Seq<bool>,
    allow: Seq<PathModel>,
    allow_relations: Seq<Seq<RootRelation>>,
    deny_relations: Seq<Seq<RootRelation>>,
    roots: nat,
    readonly: bool,
    index: int,
)
    requires
        allow_relations.len() == allow.len(),
        is_acl_plan(plan, existing, allow, allow_relations, deny_relations, roots, readonly),
    ensures
        ({
            let steps = plan.allow.deep_view();
            let covered = readonly || forall|i: int|
                0 <= i < allow_relations.len() ==> is_contained(#[trigger] allow_relations[i]);
            &&& covered ==> steps.len() == allow.len()
            &&& !covered ==> steps.len() > 0 && steps.last() is Refuse && plan.deny@.len() == 0
                && plan.devices@.len() == 0
            &&& 0 <= index < steps.len() ==> {
                &&& readonly ==> steps[index] == AclStepModel::AllowReadonly(index as nat)
                &&& !readonly ==> steps[index] == allow_step(allow[index], index as nat, allow_relations[index])
                &&& covered ==> !(steps[index] is Refuse)
            }
        }),
{
    let steps = plan.allow.deep_view();
    let count = choose|count: nat| {
        &&& count <= allow.len()
        &&& steps == #[trigger] allow_steps(allow, allow_relations, readonly, count)
        &&& all_covered(allow_relations, readonly) ==> count == allow.len()
        &&& !all_covered(allow_relations, readonly) ==> 0 < count && steps.last() is Refuse
        &&& forall|i: int| 0 <= i < count - 1 ==> readonly || root_for(#[trigger] allow_relations[i]) is Some
    };
    lemma_allow_steps(allow, allow_relations, readonly, count, index);
    assert forall|i: int| 0 <= i < allow_relations.len() implies (is_contained(#[trigger] allow_relations[i])
        <==> root_for(allow_relations[i]) is Some) by {
        writes_are_opened_by_the_nearest_root(allow[i], 0, allow_relations[i]);
    }
    assert(plan.deny.deep_view().len() == plan.deny@.len());
    assert(plan.devices.deep_view().len() == plan.devices@.len());
}

proof fn lemma_deny_steps(relations: Seq<Seq<RootRelation>>, place: int, root: usize)
    ensures
        deny_steps(relations).contains(AclStepModel::DenyWrite(place as nat, root as nat)) && place >= 0
            ==> place < relations.len() && denied_roots(relations[place]).contains(root),
        0 <= place < relations.len() && denied_roots(relations[place]).contains(root) ==> deny_steps(
            relations,
        ).contains(AclStepModel::DenyWrite(place as nat, root as nat)),
    decreases relations.len(),
{
    if relations.len() > 0 {
        let rest = relations.drop_last();
        let before = deny_steps(rest);
        let last = (relations.len() - 1) as nat;
        let denied = denied_roots(relations.last());
        let own = denied.map_values(|root: usize| AclStepModel::DenyWrite(last, root as nat));
        let whole = before + own;
        let step = AclStepModel::DenyWrite(place as nat, root as nat);
        assert(deny_steps(relations) == whole);
        lemma_deny_steps(rest, place, root);
        if whole.contains(step) && place >= 0 {
            let index = choose|index: int| 0 <= index < whole.len() && whole[index] == step;
            if index < before.len() {
                assert(before[index] == step);
                assert(rest[place] == relations[place]);
            } else {
                let at = index - before.len();
                assert(own[at] == step);
                assert(denied[at] == root);
            }
        }
        if 0 <= place < relations.len() && denied_roots(relations[place]).contains(root) {
            if place < last {
                assert(rest[place] == relations[place]);
                let index = choose|index: int| 0 <= index < before.len() && before[index] == step;
                assert(whole[index] == step);
            } else {
                let at = choose|at: int| 0 <= at < denied.len() && denied[at] == root;
                assert(own[at] == step);
                assert(whole[before.len() + at] == step);
            }
        }
    }
}

proof fn lemma_create_steps(existing: Seq<bool>, place: int)
    ensures
        0 <= place ==> (create_steps(existing).contains(AclStepModel::CreateDenied(place as nat)) <==> place
            < existing.len() && !existing[place]),
    decreases existing.len(),
{
    if existing.len() > 0 && place >= 0 {
        let before = create_steps(existing.drop_last());
        let step = AclStepModel::CreateDenied(place as nat);
        let last = AclStepModel::CreateDenied((existing.len() - 1) as nat);
        lemma_create_steps(existing.drop_last(), place);
        let longer = before.push(last);
        assert(longer[before.len() as int] == last);
        if before.contains(step) {
            let index = choose|index: int| 0 <= index < before.len() && before[index] == step;
            assert(longer[index] == step);
        }
        if longer.contains(step) {
            let index = choose|index: int| 0 <= index < longer.len() && longer[index] == step;
            if index < before.len() {
                assert(before[index] == step);
            }
        }
    }
}

/// A plan creates exactly the added denied paths that do not exist. Where every allowed
/// path is covered, each denied path is denied to each root that overlaps it, or to all
/// where none does, and the devices are opened for each root, and for the read-only
/// capability where the process is read-only.
pub proof fn plans_deny_each_denied_path(
    plan: AclPlan,
    existing: Seq<bool>,
    allow: Seq<PathModel>,
    allow_relations: Seq<Seq<RootRelation>>,
    deny_relations: Seq<Seq<RootRelation>>,
    roots: nat,
    readonly: bool,
    place: nat,
    root: usize,
)
    requires
        is_acl_plan(plan, existing, allow, allow_relations, deny_relations, roots, readonly),
        all_covered(allow_relations, readonly),
        place < deny_relations.len() ==> deny_relations[place as int].len() <= usize::MAX,
    ensures
        plan.create.deep_view().contains(AclStepModel::CreateDenied(place)) <==> place < existing.len()
            && !existing[place as int],
        plan.deny.deep_view().contains(AclStepModel::DenyWrite(place, root as nat)) <==> {
            &&& place < deny_relations.len()
            &&& root < deny_relations[place as int].len()
            &&& deny_relations[place as int][root as int].overlaps || !is_overlapped(deny_relations[place as int])
        },
        plan.devices.deep_view().contains(AclStepModel::OpenDevices(place)) <==> place < roots,
        plan.devices.deep_view().contains(AclStepModel::OpenReadonlyDevices) <==> readonly,
{
    lemma_create_steps(existing, place as int);
    lemma_deny_steps(deny_relations, place as int, root);
    if place < deny_relations.len() {
        denials_reach_every_overlapping_root(deny_relations[place as int], root);
    }
    let opened = Seq::new(roots, |root: int| AclStepModel::OpenDevices(root as nat));
    let steps = device_steps(roots, readonly);
    if place < roots {
        assert(opened[place as int] == AclStepModel::OpenDevices(place));
        assert(steps[place as int] == AclStepModel::OpenDevices(place));
    }
    if readonly {
        assert(steps[roots as int] == AclStepModel::OpenReadonlyDevices);
    }
}

/// A lease that has to take the mutex revokes nothing without it, and everything with it;
/// one that is still being set up revokes everything at once.
pub proof fn cleanups_wait_for_the_mutex(lease: AclLeaseModel, locked: bool)
    ensures
        cleanup_under(lease, true) == cleanup(lease),
        lease.serialize_cleanup ==> cleanup_under(lease, false).len() == 0,
        !lease.serialize_cleanup ==> cleanup_under(lease, locked) == cleanup(lease),
{
}

} // verus!
