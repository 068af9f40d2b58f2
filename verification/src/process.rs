//! Lifetime of one sandboxed process: observation, control, and retirement.

use crate::error::{IoErrorKind, IoFailure, IoFailureModel, SandboxError, SandboxErrorModel, SandboxFeature};
use crate::policy::backend::unsupported;
use crate::process_group::ProcessExitStatus;
use crate::runtime::command::HostPlatform;
use crate::text::{concat3, concat4, concat5, signed_decimal_string};
use crate::types::{SandboxBackend, SandboxLifetime, SandboxStdioMode};
use vstd::prelude::*;
use vstd::string::*;

verus! {

/// Normalized result of a sandboxed process.
#[derive(Clone, Copy, Debug, PartialEq, Eq, Structural)]
pub struct SandboxExitStatus {
    code: Option<i32>,
    signal: Option<i32>,
}

impl SandboxExitStatus {
    /// The ordinary process exit code.
    pub closed spec fn code_value(self) -> Option<i32> {
        self.code
    }

    /// The terminating signal.
    pub closed spec fn signal_value(self) -> Option<i32> {
        self.signal
    }

    /// Returns the ordinary process exit code, or `None` when a signal ended the process.
    pub fn code(self) -> (result: Option<i32>)
        ensures
            result == self.code_value(),
    {
        self.code
    }

    /// Returns the terminating Unix signal when the native process API exposes one.
    pub fn signal(self) -> (result: Option<i32>)
        ensures
            result == self.signal_value(),
    {
        self.signal
    }

    /// Whether the process completed normally with exit code zero.
    pub open spec fn is_success(self) -> bool {
        self.code_value() == Some(0i32) && self.signal_value() is None
    }

    /// Returns whether the process completed normally with exit code zero.
    pub fn success(self) -> (result: bool)
        ensures
            result == self.is_success(),
    {
        match self.code {
            Some(code) => code == 0 && self.signal.is_none(),
            None => false,
        }
    }

    /// A process that ended with an exit code.
    pub fn from_code(code: i32) -> (result: Self)
        ensures
            result.code_value() == Some(code),
            result.signal_value() is None,
    {
        SandboxExitStatus { code: Some(code), signal: None }
    }

    /// A process as the native wait status describes it.
    pub fn from_native(code: Option<i32>, signal: Option<i32>) -> (result: Self)
        ensures
            result.code_value() == code,
            result.signal_value() == signal,
    {
        SandboxExitStatus { code, signal }
    }

    /// A process whose exit was observed without reaping it.
    pub fn from_observed(status: ProcessExitStatus) -> (result: Self)
        ensures
            result.is_observed(status),
    {
        match status {
            ProcessExitStatus::Exited(code) => SandboxExitStatus { code: Some(code), signal: None },
            ProcessExitStatus::Signaled(signal) => SandboxExitStatus { code: None, signal: Some(signal) },
        }
    }

    /// Whether this is the result of an observed exit.
    pub open spec fn is_observed(self, status: ProcessExitStatus) -> bool {
        match status {
            ProcessExitStatus::Exited(code) => self.code_value() == Some(code) && self.signal_value() is None,
            ProcessExitStatus::Signaled(signal) => self.code_value() is None && self.signal_value() == Some(signal),
        }
    }

    /// The result in diagnostics.
    pub open spec fn debug_text(self) -> Seq<char> {
        "SandboxExitStatus { code: "@ + optional_text(self.code_value()) + ", signal: "@ + optional_text(
            self.signal_value(),
        ) + " }"@
    }

    fn debug_string(self) -> (result: String)
        ensures
            result@ == self.debug_text(),
    {
        let code = optional_string(self.code);
        let signal = optional_string(self.signal);
        concat5("SandboxExitStatus { code: ", code.as_str(), ", signal: ", signal.as_str(), " }")
    }
}

/// An optional number in diagnostics.
pub open spec fn optional_text(value: Option<i32>) -> Seq<char> {
    match value {
        Some(value) => "Some("@ + crate::text::signed_decimal(value as int) + ")"@,
        None => "None"@,
    }
}

fn optional_string(value: Option<i32>) -> (result: String)
    ensures
        result@ == optional_text(value),
{
    match value {
        Some(value) => {
            let digits = signed_decimal_string(value);
            concat3("Some(", digits.as_str(), ")")
        },
        None => "None".to_owned(),
    }
}

/// What is known of a process's end.
#[derive(Debug, PartialEq, Eq)]
pub enum ProcessCompletion {
    Running,
    Exited(SandboxExitStatus),
    Failed(IoFailure),
}

/// What a [`ProcessCompletion`] holds.
pub enum CompletionModel {
    Running,
    Exited(SandboxExitStatus),
    Failed(IoFailureModel),
}

impl DeepView for ProcessCompletion {
    type V = CompletionModel;

    open spec fn deep_view(&self) -> CompletionModel {
        match self {
            ProcessCompletion::Running => CompletionModel::Running,
            ProcessCompletion::Exited(status) => CompletionModel::Exited(*status),
            ProcessCompletion::Failed(failure) => CompletionModel::Failed(failure@),
        }
    }
}

impl View for ProcessCompletion {
    type V = CompletionModel;

    open spec fn view(&self) -> CompletionModel {
        self.deep_view()
    }
}

impl Clone for ProcessCompletion {
    fn clone(&self) -> (result: Self)
        ensures
            result@ == self@,
    {
        match self {
            ProcessCompletion::Running => ProcessCompletion::Running,
            ProcessCompletion::Exited(status) => ProcessCompletion::Exited(*status),
            ProcessCompletion::Failed(failure) => ProcessCompletion::Failed(failure.clone()),
        }
    }
}

impl ProcessCompletion {
    pub fn is_running(&self) -> (result: bool)
        ensures
            result == self@ is Running,
    {
        match self {
            ProcessCompletion::Running => true,
            _ => false,
        }
    }
}

/// An I/O error during an operation.
pub open spec fn io_error(operation: Seq<char>, kind: IoErrorKind, message: Seq<char>) -> SandboxErrorModel {
    SandboxErrorModel::Io { operation, source: IoFailureModel { kind, message } }
}

/// The result of a process that must be over.
pub fn completion_result(completion: &ProcessCompletion, operation: &'static str) -> (result: Result<
    SandboxExitStatus,
    SandboxError,
>)
    ensures
        match completion@ {
            CompletionModel::Exited(status) => result == Ok::<SandboxExitStatus, SandboxError>(status),
            CompletionModel::Failed(failure) => result matches Err(error) && error@ == io_error(
                operation@,
                failure.kind,
                failure.message,
            ),
            CompletionModel::Running => result matches Err(error) && error@ == io_error(
                operation@,
                IoErrorKind::WouldBlock,
                "process is still running"@,
            ),
        },
{
    match completion {
        ProcessCompletion::Exited(status) => Ok(*status),
        ProcessCompletion::Failed(failure) => Err(SandboxError::io(operation, failure.clone())),
        ProcessCompletion::Running => Err(
            SandboxError::io(
                operation,
                IoFailure::new(IoErrorKind::WouldBlock, "process is still running"),
            ),
        ),
    }
}

/// The result of a process so far.
pub fn completion_status(completion: &ProcessCompletion, operation: &'static str) -> (result: Result<
    Option<SandboxExitStatus>,
    SandboxError,
>)
    ensures
        match completion@ {
            CompletionModel::Exited(status) => result == Ok::<Option<SandboxExitStatus>, SandboxError>(
                Some(status),
            ),
            CompletionModel::Running => result == Ok::<Option<SandboxExitStatus>, SandboxError>(None),
            CompletionModel::Failed(failure) => result matches Err(error) && error@ == io_error(
                operation@,
                failure.kind,
                failure.message,
            ),
        },
{
    match completion {
        ProcessCompletion::Exited(status) => Ok(Some(*status)),
        ProcessCompletion::Running => Ok(None),
        ProcessCompletion::Failed(failure) => Err(SandboxError::io(operation, failure.clone())),
    }
}

/// What a waiter does after it looked at the completion.
pub enum WaitStep {
    /// Look again later.
    Continue,
    Done(Result<SandboxExitStatus, SandboxError>),
}

/// Decides whether a waiter is done.
pub fn wait_step(completion: &ProcessCompletion) -> (result: WaitStep)
    ensures
        match completion@ {
            CompletionModel::Running => result is Continue,
            CompletionModel::Exited(status) => result == WaitStep::Done(Ok(status)),
            CompletionModel::Failed(failure) => result matches WaitStep::Done(Err(error)) && error@ == io_error(
                "waiting for sandboxed process"@,
                failure.kind,
                failure.message,
            ),
        },
{
    match completion {
        ProcessCompletion::Running => WaitStep::Continue,
        ProcessCompletion::Exited(status) => WaitStep::Done(Ok(*status)),
        ProcessCompletion::Failed(failure) => WaitStep::Done(
            Err(SandboxError::io("waiting for sandboxed process", failure.clone())),
        ),
    }
}

/// What the host reports when it is asked for a child's state.
pub enum ChildObservation {
    Running,
    Exited(SandboxExitStatus),
    Failed(IoFailure),
}

/// The completion after an observation. Only a running process can complete.
pub open spec fn observed_completion(before: CompletionModel, observation: ChildObservation) -> CompletionModel {
    if before is Running {
        match observation {
            ChildObservation::Running => CompletionModel::Running,
            ChildObservation::Exited(status) => CompletionModel::Exited(status),
            ChildObservation::Failed(failure) => CompletionModel::Failed(failure@),
        }
    } else {
        before
    }
}

/// Takes an observation into the completion, and tells whether there is news to publish.
pub fn observe_process(completion: &mut ProcessCompletion, observation: ChildObservation) -> (published: bool)
    ensures
        final(completion)@ == observed_completion(old(completion)@, observation),
        published == (old(completion)@ is Running && !(final(completion)@ is Running)),
{
    if !completion.is_running() {
        return false;
    }
    match observation {
        ChildObservation::Running => false,
        ChildObservation::Exited(status) => {
            *completion = ProcessCompletion::Exited(status);
            true
        },
        ChildObservation::Failed(failure) => {
            *completion = ProcessCompletion::Failed(failure);
            true
        },
    }
}

/// A process of which only the direct root is owned.
pub struct RootProcess {
    pub process_id: u32,
    pub completion: ProcessCompletion,
}

/// A process that is owned together with all its descendants.
pub struct SupervisedProcess {
    pub process_id: u32,
    /// Whether the root can still be reaped.
    pub child: bool,
    pub root_completion: ProcessCompletion,
    pub retirement: Option<ProcessCompletion>,
}

/// A process whose Windows job is owned.
pub struct WindowsProcess {
    pub lifetime: SandboxLifetime,
    pub completion: ProcessCompletion,
    /// The exit code that the session reports, when it has one.
    pub exit_code: Option<i32>,
}

/// A signal that is sent to a process.
#[derive(Clone, Copy, Debug, PartialEq, Eq, Structural)]
pub enum ProcessSignal {
    Interrupt,
    Kill,
    Stop,
}

/// What a controller asks of the host.
#[derive(Clone, Copy, Debug, PartialEq, Eq, Structural)]
pub enum ControlAction {
    Nothing,
    /// Send a signal to the root alone.
    SignalProcess { process_id: u32, signal: ProcessSignal },
    /// Send an interrupt to the whole group.
    InterruptGroup { process_group_id: u32 },
    /// Kill the whole group and wait until no live member is left.
    QuiesceGroup { process_group_id: u32 },
    /// Terminate the job with all its processes.
    TerminateJob,
}

/// The native owner of one process.
pub enum ProcessLease {
    Root(RootProcess),
    Supervised(SupervisedProcess),
    Windows(WindowsProcess),
}

impl ProcessLease {
    /// The lease after the host was asked about the root.
    pub open spec fn observed(self, observation: ChildObservation) -> CompletionModel {
        match self {
            ProcessLease::Root(process) => observed_completion(process.completion@, observation),
            ProcessLease::Supervised(process) => observed_completion(process.root_completion@, observation),
            ProcessLease::Windows(process) => process.completion@,
        }
    }

    /// What is known of the root's end.
    pub open spec fn root_completion(self) -> CompletionModel {
        match self {
            ProcessLease::Root(process) => process.completion@,
            ProcessLease::Supervised(process) => process.root_completion@,
            ProcessLease::Windows(process) => process.completion@,
        }
    }

    /// What is known of the root's end once a signal was decided on: the host is asked
    /// about a root that is owned alone.
    pub open spec fn controlled(self, observation: ChildObservation) -> CompletionModel {
        if self is Root {
            self.observed(observation)
        } else {
            self.root_completion()
        }
    }

    /// Whether everything but what is known of the root's end is the same.
    pub open spec fn same_but_completion(self, other: ProcessLease) -> bool {
        match (self, other) {
            (ProcessLease::Root(left), ProcessLease::Root(right)) => left.process_id == right.process_id,
            (ProcessLease::Supervised(left), ProcessLease::Supervised(right)) => {
                &&& left.process_id == right.process_id
                &&& left.child == right.child
                &&& left.retirement == right.retirement
            },
            (ProcessLease::Windows(left), ProcessLease::Windows(right)) => left == right,
            _ => false,
        }
    }

    /// Polls the root without blocking. `observation` is what the host reports about it.
    pub fn try_status(&mut self, observation: ChildObservation) -> (result: Result<
        Option<SandboxExitStatus>,
        SandboxError,
    >)
        ensures
            final(self).same_but_completion(*old(self)),
            final(self).root_completion() == old(self).observed(observation),
            match *old(self) {
                ProcessLease::Windows(process) => match process.completion@ {
                    CompletionModel::Exited(status) => result == Ok::<Option<SandboxExitStatus>, SandboxError>(
                        Some(status),
                    ),
                    _ => match process.exit_code {
                        Some(code) => result matches Ok(Some(status)) && status.code_value() == Some(code)
                            && status.signal_value() is None,
                        None => result == Ok::<Option<SandboxExitStatus>, SandboxError>(None),
                    },
                },
                _ => match old(self).observed(observation) {
                    CompletionModel::Exited(status) => result == Ok::<Option<SandboxExitStatus>, SandboxError>(
                        Some(status),
                    ),
                    CompletionModel::Running => result == Ok::<Option<SandboxExitStatus>, SandboxError>(None),
                    CompletionModel::Failed(failure) => result matches Err(error) && error@ == io_error(
                        "observing sandboxed process root"@,
                        failure.kind,
                        failure.message,
                    ),
                },
            },
    {
        match self {
            ProcessLease::Root(process) => {
                observe_process(&mut process.completion, observation);
                completion_status(&process.completion, "observing sandboxed process root")
            },
            ProcessLease::Supervised(process) => {
                observe_process(&mut process.root_completion, observation);
                completion_status(&process.root_completion, "observing sandboxed process root")
            },
            ProcessLease::Windows(process) => {
                if let ProcessCompletion::Exited(status) = &process.completion {
                    return Ok(Some(*status));
                }
                match process.exit_code {
                    Some(code) => Ok(Some(SandboxExitStatus::from_code(code))),
                    None => Ok(None),
                }
            },
        }
    }

    /// What an interrupt asks of the host.
    pub open spec fn interrupt_action(self, observation: ChildObservation) -> Option<ControlAction> {
        match self {
            ProcessLease::Root(process) => if self.observed(observation) is Running {
                Some(
                    ControlAction::SignalProcess {
                        process_id: process.process_id,
                        signal: ProcessSignal::Interrupt,
                    },
                )
            } else {
                Some(ControlAction::Nothing)
            },
            ProcessLease::Supervised(process) => if process.retirement is Some {
                Some(ControlAction::Nothing)
            } else {
                Some(ControlAction::InterruptGroup { process_group_id: process.process_id })
            },
            ProcessLease::Windows(_) => None,
        }
    }

    /// Decides how an interrupt is sent. A root that is over is sent nothing.
    pub fn interrupt(&mut self, backend: SandboxBackend, observation: ChildObservation) -> (result: Result<
        ControlAction,
        SandboxError,
    >)
        ensures
            final(self).same_but_completion(*old(self)),
            final(self).root_completion() == old(self).controlled(observation),
            match old(self).interrupt_action(observation) {
                Some(action) => result == Ok::<ControlAction, SandboxError>(action),
                None => result matches Err(error) && error@ == (SandboxErrorModel::UnsupportedPolicy {
                    backend,
                    feature: SandboxFeature::Interrupt,
                    message: "the selected Windows process transport does not deliver interrupts"@,
                }),
            },
    {
        match self {
            ProcessLease::Root(process) => {
                observe_process(&mut process.completion, observation);
                if !process.completion.is_running() {
                    return Ok(ControlAction::Nothing);
                }
                Ok(
                    ControlAction::SignalProcess {
                        process_id: process.process_id,
                        signal: ProcessSignal::Interrupt,
                    },
                )
            },
            ProcessLease::Supervised(process) => {
                if process.retirement.is_some() {
                    return Ok(ControlAction::Nothing);
                }
                Ok(ControlAction::InterruptGroup { process_group_id: process.process_id })
            },
            ProcessLease::Windows(_) => Err(
                unsupported(
                    backend,
                    SandboxFeature::Interrupt,
                    "the selected Windows process transport does not deliver interrupts",
                ),
            ),
        }
    }

    /// What a termination asks of the host.
    pub open spec fn terminate_action(self, observation: ChildObservation) -> ControlAction {
        match self {
            ProcessLease::Root(process) => if self.observed(observation) is Running {
                ControlAction::SignalProcess { process_id: process.process_id, signal: ProcessSignal::Kill }
            } else {
                ControlAction::Nothing
            },
            ProcessLease::Supervised(process) => if process.retirement is Some {
                ControlAction::Nothing
            } else {
                ControlAction::QuiesceGroup { process_group_id: process.process_id }
            },
            ProcessLease::Windows(_) => ControlAction::TerminateJob,
        }
    }

    /// Decides how the process is terminated. A root that is over, and a tree that was
    /// retired, are left alone: their identifiers may belong to others by now.
    pub fn terminate(&mut self, observation: ChildObservation) -> (result: ControlAction)
        ensures
            final(self).same_but_completion(*old(self)),
            final(self).root_completion() == old(self).controlled(observation),
            result == old(self).terminate_action(observation),
    {
        match self {
            ProcessLease::Root(process) => {
                observe_process(&mut process.completion, observation);
                if !process.completion.is_running() {
                    return ControlAction::Nothing;
                }
                ControlAction::SignalProcess { process_id: process.process_id, signal: ProcessSignal::Kill }
            },
            ProcessLease::Supervised(process) => {
                if process.retirement.is_some() {
                    return ControlAction::Nothing;
                }
                ControlAction::QuiesceGroup { process_group_id: process.process_id }
            },
            ProcessLease::Windows(_) => ControlAction::TerminateJob,
        }
    }
}

/// What the retirement of a supervised process asks of the host.
pub enum RetirementAction {
    /// Kill the group and wait until no live member is left.
    Quiesce(u32),
    /// Wait for the root's exit without reaping it.
    ObserveRoot(u32),
    /// Reap the root.
    Reap,
    /// The retirement is over.
    Done(Result<SandboxExitStatus, SandboxError>),
}

/// Whether a result is that of a completion that must be over.
pub open spec fn is_completion_result(
    completion: CompletionModel,
    operation: Seq<char>,
    result: Result<SandboxExitStatus, SandboxError>,
) -> bool {
    match completion {
        CompletionModel::Exited(status) => result == Ok::<SandboxExitStatus, SandboxError>(status),
        CompletionModel::Failed(failure) => result matches Err(error) && error@ == io_error(
            operation,
            failure.kind,
            failure.message,
        ),
        CompletionModel::Running => result matches Err(error) && error@ == io_error(
            operation,
            IoErrorKind::WouldBlock,
            "process is still running"@,
        ),
    }
}

/// The final completion: the observed one, unless reaping contradicts it.
pub open spec fn retired_completion(observed: SandboxExitStatus, reaped: SandboxExitStatus) -> CompletionModel {
    if observed == reaped {
        CompletionModel::Exited(observed)
    } else {
        CompletionModel::Failed(
            IoFailureModel {
                kind: IoErrorKind::InvalidData,
                message: "observed root status "@ + observed.debug_text() + " contradicted reaped status "@
                    + reaped.debug_text(),
            },
        )
    }
}

impl SupervisedProcess {
    /// A retired process has been reaped, and its root is known to be over.
    pub open spec fn well_formed(self) -> bool {
        self.retirement is Some ==> !self.child && self.root_completion@ is Exited
    }

    /// A process that was just launched.
    pub fn new(process_id: u32) -> (result: Self)
        ensures
            result.well_formed(),
            result.process_id == process_id,
            result.child,
            result.root_completion@ is Running,
            result.retirement is None,
    {
        SupervisedProcess {
            process_id,
            child: true,
            root_completion: ProcessCompletion::Running,
            retirement: None,
        }
    }

    /// Starts a retirement, or repeats the result of one that is over.
    pub fn begin_retirement(&self) -> (result: RetirementAction)
        ensures
            match self.retirement {
                Some(completion) => result matches RetirementAction::Done(outcome) && is_completion_result(
                    completion@,
                    "retiring sandboxed process group"@,
                    outcome,
                ),
                None => result == RetirementAction::Quiesce(self.process_id),
            },
    {
        if let Some(completion) = &self.retirement {
            return RetirementAction::Done(completion_result(completion, "retiring sandboxed process group"));
        }
        RetirementAction::Quiesce(self.process_id)
    }

    /// What follows once the root is known to be over.
    pub open spec fn is_reap_action(self, action: RetirementAction) -> bool {
        if self.child {
            action is Reap
        } else {
            action matches RetirementAction::Done(Err(error)) && error@ == io_error(
                "reaping sandboxed process root"@,
                IoErrorKind::InvalidData,
                "supervised process root already consumed"@,
            )
        }
    }

    fn reap_action(&self) -> (result: RetirementAction)
        ensures
            self.is_reap_action(result),
    {
        if self.child {
            RetirementAction::Reap
        } else {
            RetirementAction::Done(
                Err(
                    SandboxError::io(
                        "reaping sandboxed process root",
                        IoFailure::new(
                            IoErrorKind::InvalidData,
                            "supervised process root already consumed",
                        ),
                    ),
                ),
            )
        }
    }

    /// Goes on after the group was quiesced.
    pub fn after_quiesce(&self, quiesced: Result<(), IoFailure>) -> (result: RetirementAction)
        ensures
            match quiesced {
                Err(failure) => result matches RetirementAction::Done(Err(error)) && error@ == io_error(
                    "quiescing sandboxed process group"@,
                    failure.kind,
                    failure.message@,
                ),
                Ok(()) => if self.root_completion@ is Exited {
                    self.is_reap_action(result)
                } else {
                    result == RetirementAction::ObserveRoot(self.process_id)
                },
            },
    {
        if let Err(failure) = quiesced {
            return RetirementAction::Done(
                Err(SandboxError::io("quiescing sandboxed process group", failure)),
            );
        }
        match &self.root_completion {
            ProcessCompletion::Exited(_) => self.reap_action(),
            _ => RetirementAction::ObserveRoot(self.process_id),
        }
    }

    /// Goes on after the root's exit was observed.
    pub fn after_root_exit(&mut self, observed: Result<ProcessExitStatus, IoFailure>) -> (result: RetirementAction)
        requires
            old(self).well_formed(),
            old(self).retirement is None,
            !(old(self).root_completion@ is Exited),
        ensures
            final(self).well_formed(),
            final(self).process_id == old(self).process_id,
            final(self).child == old(self).child,
            final(self).retirement is None,
            match observed {
                Ok(status) => {
                    &&& final(self).root_completion@ is Exited
                    &&& final(self).root_completion@->Exited_0.is_observed(status)
                    &&& final(self).is_reap_action(result)
                },
                Err(failure) => {
                    &&& final(self).root_completion@ == CompletionModel::Failed(failure@)
                    &&& result matches RetirementAction::Done(Err(error)) && error@ == io_error(
                        "observing sandboxed process root"@,
                        failure.kind,
                        failure.message@,
                    )
                },
            },
    {
        match observed {
            Ok(status) => {
                self.root_completion = ProcessCompletion::Exited(SandboxExitStatus::from_observed(status));
                self.reap_action()
            },
            Err(failure) => {
                let copy = failure.clone();
                self.root_completion = ProcessCompletion::Failed(failure);
                RetirementAction::Done(Err(SandboxError::io("observing sandboxed process root", copy)))
            },
        }
    }

    /// Completes the retirement after the root was reaped.
    pub fn after_reap(&mut self, reaped: Result<SandboxExitStatus, IoFailure>) -> (result: Result<
        SandboxExitStatus,
        SandboxError,
    >)
        requires
            old(self).well_formed(),
            old(self).retirement is None,
            old(self).child,
            old(self).root_completion@ is Exited,
        ensures
            final(self).well_formed(),
            final(self).process_id == old(self).process_id,
            final(self).root_completion@ == old(self).root_completion@,
            match reaped {
                Err(failure) => {
                    &&& *final(self) == *old(self)
                    &&& result matches Err(error) && error@ == io_error(
                        "reaping sandboxed process root"@,
                        failure.kind,
                        failure.message@,
                    )
                },
                Ok(status) => {
                    let completion = retired_completion(old(self).root_completion@->Exited_0, status);
                    &&& !final(self).child
                    &&& final(self).retirement is Some
                    &&& final(self).retirement->Some_0@ == completion
                    &&& is_completion_result(completion, "retiring sandboxed process group"@, result)
                },
            },
    {
        let status = match reaped {
            Ok(status) => status,
            Err(failure) => {
                return Err(SandboxError::io("reaping sandboxed process root", failure));
            },
        };
        let observed = match &self.root_completion {
            ProcessCompletion::Exited(observed) => *observed,
            _ => status,
        };
        self.child = false;
        let retirement = if observed == status {
            ProcessCompletion::Exited(observed)
        } else {
            let seen = observed.debug_string();
            let taken = status.debug_string();
            let message = concat4(
                "observed root status ",
                seen.as_str(),
                " contradicted reaped status ",
                taken.as_str(),
            );
            ProcessCompletion::Failed(IoFailure { kind: IoErrorKind::InvalidData, message })
        };
        let result = completion_result(&retirement, "retiring sandboxed process group");
        self.retirement = Some(retirement);
        result
    }
}

/// What reaping a root that is over does after one look at it.
pub enum ReapStep {
    /// Look again after a pause.
    Continue,
    Done(Result<SandboxExitStatus, IoFailure>),
}

/// Decides whether reaping goes on.
pub fn reap_supervised_root(observation: ChildObservation, deadline_passed: bool) -> (result: ReapStep)
    ensures
        match observation {
            ChildObservation::Exited(status) => result == ReapStep::Done(Ok(status)),
            ChildObservation::Failed(failure) => result == ReapStep::Done(Err(failure)),
            ChildObservation::Running => if deadline_passed {
                result matches ReapStep::Done(Err(failure)) && failure@ == (IoFailureModel {
                    kind: IoErrorKind::TimedOut,
                    message: "supervised process root remained waitable without an exit status"@,
                })
            } else {
                result is Continue
            },
        },
{
    match observation {
        ChildObservation::Exited(status) => ReapStep::Done(Ok(status)),
        ChildObservation::Failed(failure) => ReapStep::Done(Err(failure)),
        ChildObservation::Running => {
            if deadline_passed {
                ReapStep::Done(
                    Err(
                        IoFailure::new(
                            IoErrorKind::TimedOut,
                            "supervised process root remained waitable without an exit status",
                        ),
                    ),
                )
            } else {
                ReapStep::Continue
            }
        },
    }
}

/// Whether the owner of a killed root goes on looking for its end.
pub fn reap_root_process_after_termination(completion: &ProcessCompletion, deadline_passed: bool) -> (result: bool)
    ensures
        result == (completion@ is Running && !deadline_passed),
{
    completion.is_running() && !deadline_passed
}

/// Cloneable controller for one sandboxed process lifetime.
pub struct SandboxedProcess {
    pub backend: SandboxBackend,
    pub lifetime: SandboxLifetime,
    pub process: ProcessLease,
}

impl SandboxedProcess {
    /// Polls and returns the direct root status without blocking.
    pub fn try_root_status(&mut self, observation: ChildObservation) -> (result: Result<
        Option<SandboxExitStatus>,
        SandboxError,
    >)
        ensures
            final(self).backend == old(self).backend,
            final(self).lifetime == old(self).lifetime,
            final(self).process.same_but_completion(old(self).process),
            final(self).process.root_completion() == old(self).process.observed(observation),
            match old(self).process {
                ProcessLease::Windows(process) => match process.completion@ {
                    CompletionModel::Exited(status) => result == Ok::<Option<SandboxExitStatus>, SandboxError>(
                        Some(status),
                    ),
                    _ => match process.exit_code {
                        Some(code) => result matches Ok(Some(status)) && status.code_value() == Some(code)
                            && status.signal_value() is None,
                        None => result == Ok::<Option<SandboxExitStatus>, SandboxError>(None),
                    },
                },
                _ => match old(self).process.observed(observation) {
                    CompletionModel::Exited(status) => result == Ok::<Option<SandboxExitStatus>, SandboxError>(
                        Some(status),
                    ),
                    CompletionModel::Running => result == Ok::<Option<SandboxExitStatus>, SandboxError>(None),
                    CompletionModel::Failed(failure) => result matches Err(error) && error@ == io_error(
                        "observing sandboxed process root"@,
                        failure.kind,
                        failure.message,
                    ),
                },
            },
    {
        self.process.try_status(observation)
    }

    /// Decides how an interrupt is sent, when the selected process backend supports it.
    pub fn interrupt(&mut self, observation: ChildObservation) -> (result: Result<ControlAction, SandboxError>)
        ensures
            final(self).backend == old(self).backend,
            final(self).lifetime == old(self).lifetime,
            final(self).process.same_but_completion(old(self).process),
            final(self).process.root_completion() == old(self).process.controlled(observation),
            match old(self).process.interrupt_action(observation) {
                Some(action) => result == Ok::<ControlAction, SandboxError>(action),
                None => result matches Err(error) && error@ == (SandboxErrorModel::UnsupportedPolicy {
                    backend: old(self).backend,
                    feature: SandboxFeature::Interrupt,
                    message: "the selected Windows process transport does not deliver interrupts"@,
                }),
            },
    {
        self.process.interrupt(self.backend, observation)
    }

    /// Decides how the owned process or supervised process tree is terminated.
    pub fn terminate(&mut self, observation: ChildObservation) -> (result: ControlAction)
        ensures
            final(self).backend == old(self).backend,
            final(self).lifetime == old(self).lifetime,
            final(self).process.same_but_completion(old(self).process),
            final(self).process.root_completion() == old(self).process.controlled(observation),
            result == old(self).process.terminate_action(observation),
    {
        self.process.terminate(observation)
    }

    /// Returns the native sandbox backend enforcing this process.
    pub fn backend(&self) -> (result: SandboxBackend)
        ensures
            result == self.backend,
    {
        self.backend
    }

    /// Returns the ownership contract selected for this launch.
    pub fn lifetime(&self) -> (result: SandboxLifetime)
        ensures
            result == self.lifetime,
    {
        self.lifetime
    }
}

/// The controller of a process that was just launched, or why there is none.
pub open spec fn is_launched(
    platform: HostPlatform,
    backend: SandboxBackend,
    lifetime: SandboxLifetime,
    process_id: Option<u32>,
    result: Result<SandboxedProcess, SandboxError>,
) -> bool {
    match process_id {
        None => result matches Err(error) && error@ == (SandboxErrorModel::Spawn {
            backend,
            message: "sandboxed process did not expose a process ID"@,
            source: None,
        }),
        Some(process_id) => if lifetime == SandboxLifetime::BackendDefault {
            &&& result is Ok
            &&& result->Ok_0.backend == backend
            &&& result->Ok_0.lifetime == lifetime
            &&& result->Ok_0.process is Root
            &&& result->Ok_0.process->Root_0.process_id == process_id
            &&& result->Ok_0.process->Root_0.completion is Running
        } else if platform == HostPlatform::Macos {
            &&& result is Ok
            &&& result->Ok_0.backend == backend
            &&& result->Ok_0.lifetime == lifetime
            &&& result->Ok_0.process is Supervised
            &&& result->Ok_0.process->Supervised_0.well_formed()
            &&& result->Ok_0.process->Supervised_0.process_id == process_id
            &&& result->Ok_0.process->Supervised_0.child
            &&& result->Ok_0.process->Supervised_0.root_completion@ is Running
            &&& result->Ok_0.process->Supervised_0.retirement is None
        } else {
            result matches Err(error) && error@ == (SandboxErrorModel::UnsupportedPolicy {
                backend,
                feature: SandboxFeature::ProcessTreeTermination,
                message: "durable supervised process-tree ownership is unavailable"@,
            })
        },
    }
}

/// The controller of a process that the host just launched on a Unix system.
pub fn spawn_unix(
    platform: HostPlatform,
    backend: SandboxBackend,
    lifetime: SandboxLifetime,
    process_id: Option<u32>,
) -> (result: Result<SandboxedProcess, SandboxError>)
    ensures
        is_launched(platform, backend, lifetime, process_id, result),
{
    let process_id = match process_id {
        Some(process_id) => process_id,
        None => {
            return Err(
                SandboxError::Spawn {
                    backend,
                    message: "sandboxed process did not expose a process ID".to_owned(),
                    source: None,
                },
            );
        },
    };
    let process = match lifetime {
        SandboxLifetime::BackendDefault => ProcessLease::Root(
            RootProcess { process_id, completion: ProcessCompletion::Running },
        ),
        SandboxLifetime::SupervisedProcessTree => {
            if platform != HostPlatform::Macos {
                return Err(
                    unsupported(
                        backend,
                        SandboxFeature::ProcessTreeTermination,
                        "durable supervised process-tree ownership is unavailable",
                    ),
                );
            }
            ProcessLease::Supervised(SupervisedProcess::new(process_id))
        },
    };
    Ok(SandboxedProcess { backend, lifetime, process })
}

/// One step of a launched child before it becomes the target.
#[derive(Clone, Copy, Debug, PartialEq, Eq, Structural)]
pub enum PreExecStep {
    /// Leave the controlling terminal and lead an own session.
    DetachFromTty,
    /// Die with the parent.
    SetParentDeathSignal,
    /// Keep no inherited descriptor but the standard streams.
    CloseInheritedDescriptors,
}

/// The steps of a child before it becomes the target, in order.
pub open spec fn pre_exec_plan(platform: HostPlatform, lifetime: SandboxLifetime) -> Seq<PreExecStep> {
    (if lifetime == SandboxLifetime::SupervisedProcessTree {
        seq![PreExecStep::DetachFromTty]
    } else {
        Seq::empty()
    }) + (if platform == HostPlatform::Linux {
        seq![PreExecStep::SetParentDeathSignal]
    } else {
        Seq::empty()
    }) + seq![PreExecStep::CloseInheritedDescriptors]
}

/// The steps of a child before it becomes the target, in order.
pub fn pre_exec_steps(platform: HostPlatform, lifetime: SandboxLifetime) -> (result: Vec<PreExecStep>)
    ensures
        result@ == pre_exec_plan(platform, lifetime),
{
    let mut steps: Vec<PreExecStep> = Vec::new();
    if lifetime == SandboxLifetime::SupervisedProcessTree {
        steps.push(PreExecStep::DetachFromTty);
    }
    if platform == HostPlatform::Linux {
        steps.push(PreExecStep::SetParentDeathSignal);
    }
    steps.push(PreExecStep::CloseInheritedDescriptors);
    assert(steps@ =~= pre_exec_plan(platform, lifetime));
    steps
}

/// Decides how inherited descriptors are closed before the target starts.
#[derive(Clone, Copy, Debug, PartialEq, Eq, Structural)]
pub enum DescriptorCleanup {
    /// Mark all descriptors from the enclosed one upwards close-on-exec.
    CloseRange(u32),
    /// Close every descriptor but the standard streams.
    CloseAll,
}

impl DescriptorCleanup {
    /// Whether a descriptor is still open in the target.
    pub open spec fn leaves_open(self, descriptor: u32) -> bool {
        match self {
            DescriptorCleanup::CloseRange(first) => descriptor < first,
            DescriptorCleanup::CloseAll => descriptor <= 2,
        }
    }
}

/// How a host closes inherited descriptors, where it can.
pub open spec fn descriptor_cleanup(platform: HostPlatform) -> Option<DescriptorCleanup> {
    match platform {
        HostPlatform::Linux => Some(DescriptorCleanup::CloseRange(3)),
        HostPlatform::Macos => Some(DescriptorCleanup::CloseAll),
        _ => None,
    }
}

/// How a host closes inherited descriptors, or that it cannot.
pub fn close_inherited_fds_before_exec(platform: HostPlatform) -> (result: Result<DescriptorCleanup, IoFailure>)
    ensures
        match descriptor_cleanup(platform) {
            Some(cleanup) => result == Ok::<DescriptorCleanup, IoFailure>(cleanup) && forall|descriptor: u32|
                cleanup.leaves_open(descriptor) <==> descriptor <= 2,
            None => result matches Err(failure) && failure@ == (IoFailureModel {
                kind: IoErrorKind::Unsupported,
                message: "inherited descriptor cleanup is unavailable on this platform"@,
            }),
        },
{
    match platform {
        HostPlatform::Linux => Ok(DescriptorCleanup::CloseRange(3)),
        HostPlatform::Macos => Ok(DescriptorCleanup::CloseAll),
        _ => Err(
            IoFailure::new(
                IoErrorKind::Unsupported,
                "inherited descriptor cleanup is unavailable on this platform",
            ),
        ),
    }
}

/// Writable raw-byte stream connected to a sandboxed process's standard input.
pub struct SandboxedStdin<S> {
    pub inner: Option<S>,
}

impl<S> SandboxedStdin<S> {
    pub fn new(stream: S) -> (result: Self)
        ensures
            result.inner == Some(stream),
    {
        SandboxedStdin { inner: Some(stream) }
    }

    /// The stream to write to, unless it was closed.
    pub fn writer(&self) -> (result: Result<&S, SandboxError>)
        ensures
            match self.inner {
                Some(stream) => result == Ok::<&S, SandboxError>(&stream),
                None => result matches Err(error) && error@ == io_error(
                    "writing sandboxed process stdin"@,
                    IoErrorKind::BrokenPipe,
                    "process stdin closed"@,
                ),
            },
    {
        match &self.inner {
            Some(stream) => Ok(stream),
            None => Err(
                SandboxError::io(
                    "writing sandboxed process stdin",
                    IoFailure::new(IoErrorKind::BrokenPipe, "process stdin closed"),
                ),
            ),
        }
    }

    /// Takes the stream to close it. Closing a closed stream does nothing.
    pub fn close(&mut self) -> (result: Option<S>)
        ensures
            result == old(self).inner,
            final(self).inner is None,
    {
        self.inner.take()
    }
}

/// The bytes of one read, or the end of the stream.
pub fn read_chunk(buffer: Vec<u8>, count: usize) -> (result: Option<Vec<u8>>)
    requires
        count <= buffer@.len(),
    ensures
        match result {
            None => count == 0,
            Some(chunk) => count > 0 && chunk@ == buffer@.take(count as int),
        },
{
    if count == 0 {
        return None;
    }
    let mut chunk = buffer;
    chunk.truncate(count);
    assert(chunk@ =~= buffer@.take(count as int));
    Some(chunk)
}

/// Owner of one sandboxed launch and its optional pipe handles.
pub struct SandboxedChild<I, O> {
    pub process: SandboxedProcess,
    pub stdin: Option<I>,
    pub stdout: Option<O>,
    pub stderr: Option<O>,
}

impl<I, O> SandboxedChild<I, O> {
    /// Takes the writable raw-byte input stream when stdin was configured as a pipe.
    pub fn take_stdin(&mut self) -> (result: Option<I>)
        ensures
            result == old(self).stdin,
            final(self).stdin is None,
            final(self).process == old(self).process,
            final(self).stdout == old(self).stdout,
            final(self).stderr == old(self).stderr,
    {
        self.stdin.take()
    }

    /// Takes the raw standard-output stream when stdout was configured as a pipe.
    pub fn take_stdout(&mut self) -> (result: Option<O>)
        ensures
            result == old(self).stdout,
            final(self).stdout is None,
            final(self).process == old(self).process,
            final(self).stdin == old(self).stdin,
            final(self).stderr == old(self).stderr,
    {
        self.stdout.take()
    }

    /// Takes the raw standard-error stream when stderr was configured as a pipe.
    pub fn take_stderr(&mut self) -> (result: Option<O>)
        ensures
            result == old(self).stderr,
            final(self).stderr is None,
            final(self).process == old(self).process,
            final(self).stdin == old(self).stdin,
            final(self).stdout == old(self).stdout,
    {
        self.stderr.take()
    }
}

/// Keeps an input stream only if it was configured as a pipe.
pub fn piped_stream<S>(mode: SandboxStdioMode, stream: S) -> (result: Option<S>)
    ensures
        result == if mode == SandboxStdioMode::Pipe {
            Some(stream)
        } else {
            None
        },
{
    if mode == SandboxStdioMode::Pipe {
        Some(stream)
    } else {
        None
    }
}

/// Once a process is known to be over, no later observation changes what is known.
pub proof fn completion_is_stable(before: CompletionModel, first: ChildObservation, second: ChildObservation)
    ensures
        !(before is Running) ==> observed_completion(before, first) == before,
        !(observed_completion(before, first) is Running) ==> observed_completion(
            observed_completion(before, first),
            second,
        ) == observed_completion(before, first),
{
}

/// A root that is over, and a tree that was retired, are never sent a signal again.
pub proof fn finished_processes_are_left_alone(lease: ProcessLease, observation: ChildObservation)
    requires
        match lease {
            ProcessLease::Root(process) => !(process.completion@ is Running),
            ProcessLease::Supervised(process) => process.retirement is Some,
            ProcessLease::Windows(_) => false,
        },
    ensures
        lease.interrupt_action(observation) == Some(ControlAction::Nothing),
        lease.terminate_action(observation) == ControlAction::Nothing,
{
}

/// A retirement that is over repeats its result, however often it is asked for.
pub proof fn retirement_is_repeatable(
    process: SupervisedProcess,
    first: Result<SandboxExitStatus, SandboxError>,
    second: Result<SandboxExitStatus, SandboxError>,
)
    requires
        process.well_formed(),
        process.retirement is Some,
        is_completion_result(process.retirement->Some_0@, "retiring sandboxed process group"@, first),
        is_completion_result(process.retirement->Some_0@, "retiring sandboxed process group"@, second),
    ensures
        match (first, second) {
            (Ok(status), Ok(repeated)) => status == repeated,
            (Err(error), Err(repeated)) => error@ == repeated@,
            _ => false,
        },
{
}

/// A retirement reports a success only for the status that both the observation and the
/// reaping of the root gave.
pub proof fn retirement_reports_the_agreed_status(observed: SandboxExitStatus, reaped: SandboxExitStatus)
    ensures
        retired_completion(observed, reaped) is Exited <==> observed == reaped,
        observed == reaped ==> retired_completion(observed, reaped) == CompletionModel::Exited(reaped),
{
}

/// A termination can be repeated: one that found nothing to do finds nothing again, one
/// of a tree or a job asks for the same again, and one of a root does so while the root
/// still runs. A status that was known before it is known after it.
pub proof fn termination_can_be_repeated(
    before: ProcessLease,
    after: ProcessLease,
    first: ChildObservation,
    second: ChildObservation,
)
    requires
        after.same_but_completion(before),
        after.root_completion() == before.controlled(first),
    ensures
        before.terminate_action(first) is Nothing ==> after.terminate_action(second) is Nothing,
        !(before is Root) || second is Running ==> after.terminate_action(second) == before.terminate_action(first),
        before.root_completion() is Exited ==> after.root_completion() == before.root_completion(),
{
}

/// A status that was observed without reaping is the one that reaping gives, so that the
/// retirement reports it.
pub proof fn observed_statuses_are_reaped(
    status: ProcessExitStatus,
    observed: SandboxExitStatus,
    reaped: SandboxExitStatus,
)
    requires
        observed.is_observed(status),
        reaped.is_observed(status),
    ensures
        retired_completion(observed, reaped) == CompletionModel::Exited(reaped),
        observed == reaped,
{
}

/// An interrupt asks for an interrupt and for nothing else: never for a kill, a stop, a
/// quiesced group or a terminated job. It goes to the very process, or to the very group,
/// that is owned, and it goes there whenever that is not known to be over.
pub proof fn interrupts_only_interrupt(lease: ProcessLease, observation: ChildObservation)
    ensures
        match lease.interrupt_action(observation) {
            Some(ControlAction::SignalProcess { process_id, signal }) => {
                &&& signal == ProcessSignal::Interrupt
                &&& lease matches ProcessLease::Root(process) && process_id == process.process_id
            },
            Some(ControlAction::InterruptGroup { process_group_id }) => lease matches ProcessLease::Supervised(process)
                && process_group_id == process.process_id,
            Some(ControlAction::Nothing) => !(lease is Windows),
            Some(ControlAction::QuiesceGroup { process_group_id }) => false,
            Some(ControlAction::TerminateJob) => false,
            None => lease is Windows,
        },
        (lease matches ProcessLease::Root(process) && process.completion@ is Running && observation is Running)
            ==> lease.interrupt_action(observation) == Some(
            ControlAction::SignalProcess {
                process_id: lease->Root_0.process_id,
                signal: ProcessSignal::Interrupt,
            },
        ),
        (lease matches ProcessLease::Supervised(process) && process.retirement is None) ==> lease.interrupt_action(
            observation,
        ) == Some(ControlAction::InterruptGroup { process_group_id: lease->Supervised_0.process_id }),
        lease.interrupt_action(observation) == Some(lease.terminate_action(observation)) ==> lease.terminate_action(
            observation,
        ) is Nothing,
{
}

/// A termination asks for what cannot be ignored: a kill of the very root that is owned, a
/// quiesced group of the very tree, or a terminated job. It never asks for an interrupt or
/// a stop, and it asks for nothing only of a root that is over or a tree that was retired.
pub proof fn terminations_are_final(lease: ProcessLease, observation: ChildObservation)
    ensures
        match lease.terminate_action(observation) {
            ControlAction::SignalProcess { process_id, signal } => {
                &&& signal == ProcessSignal::Kill
                &&& lease matches ProcessLease::Root(process) && process_id == process.process_id
            },
            ControlAction::QuiesceGroup { process_group_id } => lease matches ProcessLease::Supervised(process)
                && process_group_id == process.process_id && process.retirement is None,
            ControlAction::TerminateJob => lease is Windows,
            ControlAction::InterruptGroup { process_group_id } => false,
            ControlAction::Nothing => match lease {
                ProcessLease::Root(process) => !(process.completion@ is Running) || !(observation is Running),
                ProcessLease::Supervised(process) => process.retirement is Some,
                ProcessLease::Windows(_) => false,
            },
        },
        (lease matches ProcessLease::Root(process) && (!(process.completion@ is Running) || !(observation is Running)))
            ==> lease.terminate_action(observation) is Nothing,
        (lease matches ProcessLease::Supervised(process) && process.retirement is Some) ==> lease.terminate_action(
            observation,
        ) is Nothing,
{
}

/// The status of a root is the one that the host reported first: a running root takes it
/// over unchanged, stays running while it runs, and is never known to be over otherwise.
/// The completion of a Windows root comes from its session alone.
pub proof fn statuses_are_what_the_host_reported(lease: ProcessLease, observation: ChildObservation)
    requires
        lease.root_completion() is Running,
        !(lease is Windows),
    ensures
        match observation {
            ChildObservation::Running => lease.observed(observation) is Running,
            ChildObservation::Exited(status) => lease.observed(observation) == CompletionModel::Exited(status),
            ChildObservation::Failed(failure) => lease.observed(observation) matches CompletionModel::Failed(kept)
                && kept.kind == failure.kind && kept.message == failure.message@,
        },
{
}

/// A launch that succeeds controls the very process that was started, for the lifetime
/// that was asked for: a termination reaches that process alone or its whole tree. A tree
/// is owned on macOS only, and elsewhere it is refused and not replaced by its root.
pub proof fn launches_own_what_they_started(
    platform: HostPlatform,
    backend: SandboxBackend,
    lifetime: SandboxLifetime,
    process_id: Option<u32>,
    result: Result<SandboxedProcess, SandboxError>,
)
    requires
        is_launched(platform, backend, lifetime, process_id, result),
    ensures
        result is Ok <==> process_id is Some && (lifetime == SandboxLifetime::BackendDefault || platform
            == HostPlatform::Macos),
        result matches Ok(process) ==> {
            &&& process.lifetime == lifetime
            &&& process.backend == backend
            &&& process.process.root_completion() is Running
            &&& process.process.terminate_action(ChildObservation::Running) == if lifetime
                == SandboxLifetime::SupervisedProcessTree {
                ControlAction::QuiesceGroup { process_group_id: process_id->Some_0 }
            } else {
                ControlAction::SignalProcess { process_id: process_id->Some_0, signal: ProcessSignal::Kill }
            }
        },
        process_id is Some ==> (result matches Err(error) ==> error@ is UnsupportedPolicy
            && error@->UnsupportedPolicy_feature == SandboxFeature::ProcessTreeTermination),
{
}

/// Every child loses the descriptors that it inherited, as its last step. Exactly a
/// supervised one leaves the terminal first, and exactly one on Linux dies with its parent.
pub proof fn children_keep_nothing_inherited(platform: HostPlatform, lifetime: SandboxLifetime)
    ensures
        pre_exec_plan(platform, lifetime).last() == PreExecStep::CloseInheritedDescriptors,
        pre_exec_plan(platform, lifetime).contains(PreExecStep::DetachFromTty) <==> lifetime
            == SandboxLifetime::SupervisedProcessTree,
        pre_exec_plan(platform, lifetime).contains(PreExecStep::SetParentDeathSignal) <==> platform
            == HostPlatform::Linux,
        lifetime == SandboxLifetime::SupervisedProcessTree ==> pre_exec_plan(platform, lifetime)[0]
            == PreExecStep::DetachFromTty,
        pre_exec_plan(platform, lifetime).no_duplicates(),
{
    let plan = pre_exec_plan(platform, lifetime);
    if lifetime == SandboxLifetime::SupervisedProcessTree {
        assert(plan[0] == PreExecStep::DetachFromTty);
    }
    if platform == HostPlatform::Linux {
        assert(plan[plan.len() - 2] == PreExecStep::SetParentDeathSignal);
    }
}

/// A target keeps its three standard streams open and no other descriptor, on every host
/// that can close them; and those are Linux and macOS.
pub proof fn targets_keep_their_standard_streams_only(platform: HostPlatform, descriptor: u32)
    ensures
        descriptor_cleanup(platform) is Some <==> platform == HostPlatform::Linux || platform == HostPlatform::Macos,
        descriptor_cleanup(platform) matches Some(cleanup) ==> (cleanup.leaves_open(descriptor) <==> descriptor == 0
            || descriptor == 1 || descriptor == 2),
{
}

/// A process succeeded exactly where it was seen to exit with code zero; no other code and
/// no signal is a success.
pub proof fn only_exit_code_zero_is_a_success(result: SandboxExitStatus, status: ProcessExitStatus)
    requires
        result.is_observed(status),
    ensures
        result.is_success() <==> status == ProcessExitStatus::Exited(0),
        status is Signaled ==> !result.is_success() && result.code_value() is None,
        status is Exited ==> result.signal_value() is None,
{
}

} // verus!
