//! Stability of the paths that bubblewrap binds.

use crate::error::{SandboxError, SandboxErrorModel, SandboxFeature};
use crate::model;
use crate::native::{NativePath, PathModel};
use crate::policy::backend::unsupported;
use crate::text::concat2;
use crate::types::SandboxBackend;
use vstd::prelude::*;
use vstd::string::*;

verus! {

/// A writable root, with the location that the host resolved it to where it could.
pub struct WritableRoot {
    pub root: NativePath,
    pub resolved: Option<NativePath>,
}

/// What a [`WritableRoot`] holds.
pub struct WritableRootModel {
    pub root: PathModel,
    pub resolved: Option<PathModel>,
}

impl DeepView for WritableRoot {
    type V = WritableRootModel;

    open spec fn deep_view(&self) -> WritableRootModel {
        WritableRootModel { root: self.root@, resolved: self.resolved.deep_view() }
    }
}

/// The spellings of one writable root: its own, and its location where that differs.
pub open spec fn root_spellings(root: WritableRootModel) -> Seq<PathModel> {
    match root.resolved {
        Some(resolved) => if resolved.same_path(root.root) {
            seq![root.root]
        } else {
            seq![root.root, resolved]
        },
        None => seq![root.root],
    }
}

/// The spellings of all writable roots, in order.
pub open spec fn all_root_spellings(roots: Seq<WritableRootModel>) -> Seq<PathModel>
    decreases roots.len(),
{
    if roots.len() == 0 {
        Seq::empty()
    } else {
        all_root_spellings(roots.drop_last()) + root_spellings(roots.last())
    }
}

/// Every path under which a writable root can be reached.
pub fn writable_paths(roots: &Vec<WritableRoot>) -> (result: Vec<NativePath>)
    ensures
        result.deep_view() == all_root_spellings(roots.deep_view()),
{
    let ghost models = roots.deep_view();
    let mut paths: Vec<NativePath> = Vec::new();
    proof {
        model::lemma_take_all(models);
        assert(paths.deep_view() =~= Seq::empty());
    }
    for index in 0..roots.len()
        invariant
            models == roots.deep_view(),
            paths.deep_view() == all_root_spellings(models.take(index as int)),
    {
        let writable_root = &roots[index];
        let ghost start = paths.deep_view();
        let root = writable_root.root.clone();
        let ghost before = paths;
        paths.push(root);
        proof {
            model::lemma_take_push(models, index as int);
            model::lemma_deep_push(before, paths, root);
            assert(models[index as int] == writable_root.deep_view());
        }
        if let Some(resolved) = &writable_root.resolved {
            if !resolved.same_path(&writable_root.root) {
                let ghost before = paths;
                let copy = resolved.clone();
                paths.push(copy);
                proof {
                    model::lemma_deep_push(before, paths, copy);
                }
            }
        }
        assert(paths.deep_view() =~= start + root_spellings(models[index as int]));
    }
    proof {
        model::lemma_take_all(models);
    }
    paths
}

/// Whether the finding at `index` is the first writable symlink.
pub open spec fn first_symlink(findings: Seq<Option<PathModel>>, index: int) -> bool {
    0 <= index < findings.len() && findings[index] is Some && forall|earlier: int|
        0 <= earlier < index ==> findings[earlier] is None
}

/// The error for a rule that crosses a writable symlink.
pub open spec fn symlink_error(
    backend: SandboxBackend,
    feature: SandboxFeature,
    prefix: Seq<char>,
    symlink: PathModel,
) -> SandboxErrorModel {
    SandboxErrorModel::UnsupportedPolicy { backend, feature, message: prefix + symlink.text.display() }
}

/// The error for the symlinks found below read-only and unreadable paths.
pub open spec fn stability_error(
    read_only: Seq<Option<PathModel>>,
    unreadable: Seq<Option<PathModel>>,
    backend: SandboxBackend,
) -> Option<SandboxErrorModel> {
    if exists|index: int| first_symlink(read_only, index) {
        let index = choose|index: int| first_symlink(read_only, index);
        Some(
            symlink_error(
                backend,
                SandboxFeature::DeniedWritePaths,
                "a read-only rule crosses writable symlink "@,
                read_only[index]->Some_0,
            ),
        )
    } else if exists|index: int| first_symlink(unreadable, index) {
        let index = choose|index: int| first_symlink(unreadable, index);
        Some(
            symlink_error(
                backend,
                SandboxFeature::DeniedReadPaths,
                "a deny rule crosses writable symlink "@,
                unreadable[index]->Some_0,
            ),
        )
    } else {
        None
    }
}

/// The writable symlinks that the host found on the way to the paths of a policy: for
/// each path the first one, if there is one.
#[derive(Debug)]
pub struct PathCrossings {
    /// For each path that is read-only below a writable root.
    pub read_only: Vec<Option<NativePath>>,
    /// For each path that is denied.
    pub unreadable: Vec<Option<NativePath>>,
}

/// What a [`PathCrossings`] holds.
pub struct CrossingsModel {
    pub read_only: Seq<Option<PathModel>>,
    pub unreadable: Seq<Option<PathModel>>,
}

impl DeepView for PathCrossings {
    type V = CrossingsModel;

    open spec fn deep_view(&self) -> CrossingsModel {
        CrossingsModel { read_only: self.read_only.deep_view(), unreadable: self.unreadable.deep_view() }
    }
}

impl View for PathCrossings {
    type V = CrossingsModel;

    open spec fn view(&self) -> CrossingsModel {
        self.deep_view()
    }
}

/// The error of a backend that needs stable paths for the symlinks that were found.
pub open spec fn crossing_refusal(crossings: CrossingsModel, backend: SandboxBackend) -> Option<SandboxErrorModel> {
    if backend == SandboxBackend::LinuxBubblewrap {
        stability_error(crossings.read_only, crossings.unreadable, backend)
    } else {
        None
    }
}

/// Without a first writable symlink there is none at all.
pub(crate) proof fn lemma_no_symlink(findings: Seq<Option<PathModel>>, index: int)
    requires
        forall|other: int| !first_symlink(findings, other),
        0 <= index < findings.len(),
    ensures
        findings[index] is None,
    decreases index,
{
    assert forall|earlier: int| 0 <= earlier < index implies findings[earlier] is None by {
        lemma_no_symlink(findings, earlier);
    }
    assert(!first_symlink(findings, index));
}

fn find_first_symlink(findings: &Vec<Option<NativePath>>) -> (result: Option<usize>)
    ensures
        match result {
            Some(index) => first_symlink(findings.deep_view(), index as int) && (forall|other: int|
                first_symlink(findings.deep_view(), other) ==> other == index),
            None => forall|index: int| !first_symlink(findings.deep_view(), index),
        },
{
    let ghost models = findings.deep_view();
    for index in 0..findings.len()
        invariant
            models == findings.deep_view(),
            forall|i: int| 0 <= i < index ==> models[i] is None,
    {
        assert(models[index as int] == findings@[index as int].deep_view());
        if findings[index].is_some() {
            return Some(index);
        }
    }
    None
}

/// Refuses a policy whose read-only or denied paths cross a writable symlink.
///
/// A finding is the first writable symlink on the way to the path, if there is one.
pub fn validate_path_stability(
    read_only: &Vec<Option<NativePath>>,
    unreadable: &Vec<Option<NativePath>>,
    backend: SandboxBackend,
) -> (result: Result<(), SandboxError>)
    ensures
        match stability_error(read_only.deep_view(), unreadable.deep_view(), backend) {
            Some(expected) => result matches Err(error) && error@ == expected,
            None => result is Ok,
        },
{
    if let Some(index) = find_first_symlink(read_only) {
        assert(read_only.deep_view()[index as int] == read_only@[index as int].deep_view());
        if let Some(symlink) = &read_only[index] {
            let shown = symlink.text.display();
            let message = concat2("a read-only rule crosses writable symlink ", shown.as_str());
            return Err(unsupported(backend, SandboxFeature::DeniedWritePaths, message.as_str()));
        }
    }
    if let Some(index) = find_first_symlink(unreadable) {
        assert(unreadable.deep_view()[index as int] == unreadable@[index as int].deep_view());
        if let Some(symlink) = &unreadable[index] {
            let shown = symlink.text.display();
            let message = concat2("a deny rule crosses writable symlink ", shown.as_str());
            return Err(unsupported(backend, SandboxFeature::DeniedReadPaths, message.as_str()));
        }
    }
    Ok(())
}

/// A policy is refused for its symlinks exactly where bubblewrap is to bind a read-only or
/// a denied path through one that can be written: a read-only path weighs more.
pub proof fn only_bubblewrap_needs_stable_paths(crossings: CrossingsModel, backend: SandboxBackend)
    ensures
        crossing_refusal(crossings, backend) is None <==> {
            ||| !(backend is LinuxBubblewrap)
            ||| {
                &&& forall|index: int| 0 <= index < crossings.read_only.len() ==> (#[trigger] crossings.read_only[index]) is None
                &&& forall|index: int|
                    0 <= index < crossings.unreadable.len() ==> (#[trigger] crossings.unreadable[index]) is None
            }
        },
        crossing_refusal(crossings, backend) matches Some(error) ==> {
            &&& error is UnsupportedPolicy
            &&& error->UnsupportedPolicy_backend is LinuxBubblewrap
            &&& error->UnsupportedPolicy_feature == (if exists|index: int|
                0 <= index < crossings.read_only.len() && (#[trigger] crossings.read_only[index]) is Some {
                SandboxFeature::DeniedWritePaths
            } else {
                SandboxFeature::DeniedReadPaths
            })
        },
{
    lemma_first_found(crossings.read_only);
    lemma_first_found(crossings.unreadable);
}

proof fn lemma_first_found(findings: Seq<Option<PathModel>>)
    ensures
        (exists|index: int| first_symlink(findings, index)) <==> (exists|index: int|
            0 <= index < findings.len() && (#[trigger] findings[index]) is Some),
{
    if exists|index: int| first_symlink(findings, index) {
        let index = choose|index: int| first_symlink(findings, index);
        assert(findings[index] is Some);
    }
    if exists|index: int| 0 <= index < findings.len() && (#[trigger] findings[index]) is Some {
        if !(exists|index: int| first_symlink(findings, index)) {
            let index = choose|index: int| 0 <= index < findings.len() && (#[trigger] findings[index]) is Some;
            lemma_no_symlink(findings, index);
        }
    }
}

/// A writable root is looked at under its own spelling and under the location that the host
/// resolved it to, and under nothing else.
pub proof fn writable_roots_are_known_by_both_spellings(roots: Seq<WritableRootModel>, path: PathModel)
    ensures
        all_root_spellings(roots).contains(path) ==> exists|index: int|
            0 <= index < roots.len() && ((#[trigger] roots[index]).root == path || roots[index].resolved == Some(path)),
        forall|index: int|
            0 <= index < roots.len() && (#[trigger] roots[index]).root == path ==> all_root_spellings(roots).contains(
                path,
            ),
        forall|index: int|
            0 <= index < roots.len() && (#[trigger] roots[index]).resolved == Some(path) && !path.same_path(
                roots[index].root,
            ) ==> all_root_spellings(roots).contains(path),
    decreases roots.len(),
{
    if roots.len() > 0 {
        let rest = roots.drop_last();
        let before = all_root_spellings(rest);
        let last = roots[roots.len() - 1];
        let own = root_spellings(last);
        let whole = before + own;
        assert(whole == all_root_spellings(roots));
        writable_roots_are_known_by_both_spellings(rest, path);
        if whole.contains(path) {
            let at = choose|at: int| 0 <= at < whole.len() && whole[at] == path;
            if at < before.len() {
                assert(before[at] == path);
                let index = choose|index: int|
                    0 <= index < rest.len() && ((#[trigger] rest[index]).root == path || rest[index].resolved == Some(
                        path,
                    ));
                assert(roots[index] == rest[index]);
            } else {
                assert(own[at - before.len()] == path);
                assert(last.root == path || last.resolved == Some(path));
            }
        }
        assert(own[0] == last.root);
        assert(whole[before.len() as int] == last.root);
        if last.resolved is Some && !last.resolved->Some_0.same_path(last.root) {
            assert(own[1] == last.resolved->Some_0);
            assert(whole[before.len() as int + 1] == last.resolved->Some_0);
        }
        if before.contains(path) {
            let at = choose|at: int| 0 <= at < before.len() && before[at] == path;
            assert(whole[at] == path);
        }
        assert forall|index: int| 0 <= index < roots.len() && (#[trigger] roots[index]).root == path implies whole.contains(
            path,
        ) by {
            if index < rest.len() {
                assert(rest[index] == roots[index]);
            }
        }
        assert forall|index: int|
            0 <= index < roots.len() && (#[trigger] roots[index]).resolved == Some(path) && !path.same_path(
                roots[index].root,
            ) implies whole.contains(path) by {
            if index < rest.len() {
                assert(rest[index] == roots[index]);
            }
        }
    }
}

} // verus!
