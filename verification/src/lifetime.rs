//! How a process lifetime is waited for, retired and released.

use crate::error::{IoErrorKind, IoFailure, SandboxError, SandboxErrorModel};
use crate::process::{
    observe_process, wait_step, ChildObservation, CompletionModel, ControlAction, ProcessCompletion,
    ProcessLease, ProcessSignal, RetirementAction, SandboxExitStatus, SandboxedProcess, WaitStep,
};
use crate::types::{SandboxBackend, SandboxLifetime};
use vstd::prelude::*;
use vstd::string::*;

verus! {

/// How the retirement of a lifetime starts.
pub enum LifetimeRetirement {
    /// Wait for the root; nothing else is owned.
    Wait,
    /// Terminate the job, then wait for the root. A failed termination ends the
    /// retirement.
    TerminateAndWait,
    /// Retire the supervised tree.
    Tree(RetirementAction),
}

/// What the release of a lifetime asks of the host.
pub enum ReleaseAction {
    Nothing,
    /// Kill the root, then reap it.
    KillAndReap(u32),
    /// Retire the supervised tree.
    RetireTree(RetirementAction),
    /// Terminate the job with all its processes.
    TerminateJob,
}

/// Whether a step is the one that waiting for this completion takes.
pub open spec fn is_wait_step(completion: CompletionModel, step: WaitStep) -> bool {
    match completion {
        CompletionModel::Running => step is Continue,
        CompletionModel::Exited(status) => step matches WaitStep::Done(result) && result == Ok::<
            SandboxExitStatus,
            SandboxError,
        >(status),
        CompletionModel::Failed(failure) => step matches WaitStep::Done(result) && result matches Err(error) && error@
            == crate::process::io_error("waiting for sandboxed process"@, failure.kind, failure.message),
    }
}

/// Whether an action starts the retirement of a supervised tree, or repeats the result of
/// one that is over.
pub open spec fn starts_retirement(
    process_id: u32,
    retirement: Option<ProcessCompletion>,
    action: RetirementAction,
) -> bool {
    match retirement {
        Some(completion) => action matches RetirementAction::Done(outcome) && crate::process::is_completion_result(
            completion@,
            "retiring sandboxed process group"@,
            outcome,
        ),
        None => action == RetirementAction::Quiesce(process_id),
    }
}

/// Whether this is how the retirement of a process starts.
pub open spec fn is_retirement(lease: ProcessLease, retirement: LifetimeRetirement) -> bool {
    match lease {
        ProcessLease::Root(_) => retirement is Wait,
        ProcessLease::Supervised(process) => retirement matches LifetimeRetirement::Tree(action) && starts_retirement(
            process.process_id,
            process.retirement,
            action,
        ),
        ProcessLease::Windows(process) => if process.lifetime == SandboxLifetime::SupervisedProcessTree {
            retirement is TerminateAndWait
        } else {
            retirement is Wait
        },
    }
}

/// Whether this is what the release of a process asks of the host.
pub open spec fn is_release(lease: ProcessLease, observation: ChildObservation, action: ReleaseAction) -> bool {
    match lease {
        ProcessLease::Root(process) => action == if lease.observed(observation) is Running {
            ReleaseAction::KillAndReap(process.process_id)
        } else {
            ReleaseAction::Nothing
        },
        ProcessLease::Supervised(process) => action matches ReleaseAction::RetireTree(tree) && starts_retirement(
            process.process_id,
            process.retirement,
            tree,
        ),
        ProcessLease::Windows(_) => action is TerminateJob,
    }
}

impl ProcessLease {
    /// Observes the root and decides how a wait for it goes on.
    pub fn wait(&mut self, observation: ChildObservation) -> (result: WaitStep)
        ensures
            final(self).same_but_completion(*old(self)),
            final(self).root_completion() == old(self).observed(observation),
            is_wait_step(old(self).observed(observation), result),
    {
        match self {
            ProcessLease::Root(process) => {
                observe_process(&mut process.completion, observation);
                wait_step(&process.completion)
            },
            ProcessLease::Supervised(process) => {
                observe_process(&mut process.root_completion, observation);
                wait_step(&process.root_completion)
            },
            ProcessLease::Windows(process) => wait_step(&process.completion),
        }
    }

    /// Decides how the retirement starts. A tree that was retired is not retired again.
    pub fn retire(&self) -> (result: LifetimeRetirement)
        ensures
            is_retirement(*self, result),
    {
        match self {
            ProcessLease::Root(_) => LifetimeRetirement::Wait,
            ProcessLease::Supervised(process) => LifetimeRetirement::Tree(process.begin_retirement()),
            ProcessLease::Windows(process) => {
                if process.lifetime == SandboxLifetime::SupervisedProcessTree {
                    LifetimeRetirement::TerminateAndWait
                } else {
                    LifetimeRetirement::Wait
                }
            },
        }
    }

    /// Decides what is left to do when the last owner lets go of the process. A root that
    /// is over is left alone.
    pub fn release(&mut self, observation: ChildObservation) -> (result: ReleaseAction)
        ensures
            final(self).same_but_completion(*old(self)),
            final(self).root_completion() == if *old(self) is Root {
                old(self).observed(observation)
            } else {
                old(self).root_completion()
            },
            is_release(*old(self), observation, result),
    {
        match self {
            ProcessLease::Root(process) => {
                observe_process(&mut process.completion, observation);
                if process.completion.is_running() {
                    ReleaseAction::KillAndReap(process.process_id)
                } else {
                    ReleaseAction::Nothing
                }
            },
            ProcessLease::Supervised(process) => ReleaseAction::RetireTree(process.begin_retirement()),
            ProcessLease::Windows(_) => ReleaseAction::TerminateJob,
        }
    }
}

/// What is done before the retirement of a supervised tree is tried a second time, when
/// the release of its last owner failed to retire it: its root is stopped, so that it
/// launches nothing more.
pub fn contain_unretired_root(process_id: u32) -> (result: ControlAction)
    ensures
        result == (ControlAction::SignalProcess { process_id, signal: ProcessSignal::Stop }),
{
    ControlAction::SignalProcess { process_id, signal: ProcessSignal::Stop }
}

impl SandboxedProcess {
    /// Observes the direct root's exit without retiring a supervised process group, and
    /// decides how the wait goes on.
    pub fn wait_root(&mut self, observation: ChildObservation) -> (result: WaitStep)
        ensures
            final(self).backend == old(self).backend,
            final(self).lifetime == old(self).lifetime,
            final(self).process.same_but_completion(old(self).process),
            final(self).process.root_completion() == old(self).process.observed(observation),
            is_wait_step(old(self).process.observed(observation), result),
    {
        self.process.wait(observation)
    }

    /// Decides how the selected lifetime is retired.
    ///
    /// A supervised lifetime first quiesces the process tree and reaps the root once.
    /// The backend-default lifetime is equivalent to waiting for the direct root.
    pub fn retire(&self) -> (result: LifetimeRetirement)
        ensures
            is_retirement(self.process, result),
    {
        self.process.retire()
    }
}

/// An operation on a launched process that the host performs.
#[derive(Clone, Copy, Debug, PartialEq, Eq, Structural)]
pub enum ProcessOperation {
    Interrupt,
    Terminate,
    WriteStdin,
    CloseStdin,
    ReadStdout,
    ReadStderr,
    /// Terminate the other members of the caller's own process group.
    TerminateGroupMembers,
}

impl ProcessOperation {
    /// What the operation is called in errors.
    pub open spec fn name(self) -> Seq<char> {
        match self {
            ProcessOperation::Interrupt => "interrupting sandboxed process"@,
            ProcessOperation::Terminate => "terminating sandboxed process"@,
            ProcessOperation::WriteStdin => "writing sandboxed process stdin"@,
            ProcessOperation::CloseStdin => "closing sandboxed process stdin"@,
            ProcessOperation::ReadStdout => "reading sandboxed process stdout"@,
            ProcessOperation::ReadStderr => "reading sandboxed process stderr"@,
            ProcessOperation::TerminateGroupMembers => "terminating current sandbox process-group members"@,
        }
    }

    /// What the operation is called in errors.
    pub fn label(self) -> (result: &'static str)
        ensures
            result@ == self.name(),
    {
        match self {
            ProcessOperation::Interrupt => "interrupting sandboxed process",
            ProcessOperation::Terminate => "terminating sandboxed process",
            ProcessOperation::WriteStdin => "writing sandboxed process stdin",
            ProcessOperation::CloseStdin => "closing sandboxed process stdin",
            ProcessOperation::ReadStdout => "reading sandboxed process stdout",
            ProcessOperation::ReadStderr => "reading sandboxed process stderr",
            ProcessOperation::TerminateGroupMembers => "terminating current sandbox process-group members",
        }
    }

    /// What the caller is told of an operation that the host performed.
    pub fn conclude<T>(self, outcome: Result<T, IoFailure>) -> (result: Result<T, SandboxError>)
        ensures
            match outcome {
                Ok(value) => result == Ok::<T, SandboxError>(value),
                Err(failure) => result matches Err(error) && error@ == crate::process::io_error(
                    self.name(),
                    failure@.kind,
                    failure@.message,
                ),
            },
    {
        match outcome {
            Ok(value) => Ok(value),
            Err(failure) => Err(SandboxError::io(self.label(), failure)),
        }
    }
}

/// What is known of a Windows root once its status was reported, or once it is clear that
/// it never will be.
pub fn windows_completion(exit_code: Option<i32>) -> (result: ProcessCompletion)
    ensures
        match exit_code {
            Some(code) => result matches ProcessCompletion::Exited(status) && status.code_value() == Some(code)
                && status.signal_value() is None,
            None => result matches ProcessCompletion::Failed(failure) && failure@.kind == IoErrorKind::BrokenPipe
                && failure@.message == "process status channel closed"@,
        },
{
    match exit_code {
        Some(code) => ProcessCompletion::Exited(SandboxExitStatus::from_code(code)),
        None => ProcessCompletion::Failed(IoFailure::new(IoErrorKind::BrokenPipe, "process status channel closed")),
    }
}

/// The error of a wait whose completion can no longer be published.
pub fn completion_channel_closed() -> (result: SandboxError)
    ensures
        result@ == crate::process::io_error(
            "waiting for sandboxed process"@,
            IoErrorKind::BrokenPipe,
            "process completion channel closed"@,
        ),
{
    SandboxError::io(
        "waiting for sandboxed process",
        IoFailure::new(IoErrorKind::BrokenPipe, "process completion channel closed"),
    )
}

/// What a launch that the host rejected is called.
pub open spec fn launch_message(backend: SandboxBackend) -> Seq<char> {
    if backend == SandboxBackend::WindowsRestrictedToken || backend == SandboxBackend::WindowsElevated {
        "the restricted-token backend rejected the process"@
    } else {
        "failed to launch sandboxed process"@
    }
}

/// The error of a launch that the host rejected, with the host's reason.
pub fn launch_failure(backend: SandboxBackend, reason: &str) -> (result: SandboxError)
    ensures
        result@ == (SandboxErrorModel::Spawn { backend, message: launch_message(backend), source: Some(reason@) }),
{
    let message = match backend {
        SandboxBackend::WindowsRestrictedToken => "the restricted-token backend rejected the process",
        SandboxBackend::WindowsElevated => "the restricted-token backend rejected the process",
        _ => "failed to launch sandboxed process",
    };
    SandboxError::Spawn { backend, message: message.to_owned(), source: Some(reason.to_owned()) }
}

/// A release does to a process what a termination would: it kills a root while it runs
/// and leaves one that is over alone, quiesces a tree unless it was retired, and
/// terminates a job.
pub proof fn release_agrees_with_termination(lease: ProcessLease, observation: ChildObservation, action: ReleaseAction)
    requires
        is_release(lease, observation, action),
    ensures
        match lease.terminate_action(observation) {
            ControlAction::Nothing => action is Nothing || (action matches ReleaseAction::RetireTree(tree)
                && tree is Done),
            ControlAction::SignalProcess { process_id, signal } => signal == ProcessSignal::Kill && action
                == ReleaseAction::KillAndReap(process_id),
            ControlAction::QuiesceGroup { process_group_id } => action == ReleaseAction::RetireTree(
                RetirementAction::Quiesce(process_group_id),
            ),
            ControlAction::TerminateJob => action is TerminateJob,
            ControlAction::InterruptGroup { .. } => false,
        },
{
}

/// A retirement touches what the lifetime owns and nothing else: of a root that is owned
/// alone it is a plain wait, a tree that is not retired yet is quiesced by its own
/// identifier, and a job is terminated exactly where the whole tree was asked for.
pub proof fn retirements_stay_within_the_lifetime(lease: ProcessLease, retirement: LifetimeRetirement)
    requires
        is_retirement(lease, retirement),
    ensures
        lease is Root ==> retirement is Wait,
        retirement is TerminateAndWait <==> (lease matches ProcessLease::Windows(process) && process.lifetime
            == SandboxLifetime::SupervisedProcessTree),
        retirement is Tree <==> lease is Supervised,
        (lease matches ProcessLease::Supervised(process) && process.retirement is None) ==> retirement
            == LifetimeRetirement::Tree(RetirementAction::Quiesce(lease->Supervised_0.process_id)),
        (lease matches ProcessLease::Supervised(process) && process.retirement is Some) ==> (retirement matches
            LifetimeRetirement::Tree(action) && action is Done),
{
}

/// A wait ends exactly when the process is over, and then gives the status that was
/// observed: it never reports success for a process that runs or whose observation failed.
pub proof fn waits_end_with_the_observed_status(completion: CompletionModel, step: WaitStep)
    requires
        is_wait_step(completion, step),
    ensures
        step is Continue <==> completion is Running,
        step matches WaitStep::Done(Ok(status)) ==> completion == CompletionModel::Exited(status),
        completion matches CompletionModel::Exited(status) ==> step == WaitStep::Done(Ok(status)),
        completion matches CompletionModel::Failed(failure) ==> (step matches WaitStep::Done(Err(error)) && error@ is Io
            && error@->Io_source.kind == failure.kind && error@->Io_source.message == failure.message),
{
}

/// A release that asks for a kill names the root that is owned, and asks for it exactly
/// while that root runs.
pub proof fn releases_kill_their_own_root_only(lease: ProcessLease, observation: ChildObservation, action: ReleaseAction)
    requires
        is_release(lease, observation, action),
    ensures
        action matches ReleaseAction::KillAndReap(process_id) ==> (lease matches ProcessLease::Root(process)
            && process_id == process.process_id && process.completion@ is Running && observation is Running),
        (lease matches ProcessLease::Root(process) && process.completion@ is Running && observation is Running)
            ==> action is KillAndReap,
        action is TerminateJob <==> lease is Windows,
        action is RetireTree <==> lease is Supervised,
        (lease matches ProcessLease::Supervised(process) && process.retirement is None) ==> action
            == ReleaseAction::RetireTree(RetirementAction::Quiesce(lease->Supervised_0.process_id)),
{
}

/// A launch that the host rejected is reported under its own backend; those of Windows say
/// that the token was rejected, and no other does.
pub proof fn rejected_launches_are_told_apart(backend: SandboxBackend)
    ensures
        backend is WindowsRestrictedToken || backend is WindowsElevated <==> launch_message(backend)
            == "the restricted-token backend rejected the process"@,
        !(backend is WindowsRestrictedToken) && !(backend is WindowsElevated) ==> launch_message(backend)
            == "failed to launch sandboxed process"@,
{
    reveal_strlit("the restricted-token backend rejected the process");
    reveal_strlit("failed to launch sandboxed process");
    assert("the restricted-token backend rejected the process"@[0] == 't');
    assert("failed to launch sandboxed process"@[0] == 'f');
}

} // verus!
