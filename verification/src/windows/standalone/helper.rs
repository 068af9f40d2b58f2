//! The helper's side of a standalone launch.

use crate::model;
use crate::model::Step;
use crate::native::{NativePath, NativeString, NativeText};
use crate::text::{concat2, concat3, concat4, decimal_string, prefixed_hex_string};
use crate::windows::failure::{Failure, FailureModel};
use crate::windows::standalone::command::is_absolute_local_disk_path;
use crate::windows::standalone::outcome::{OutcomeModel, RetirementModel, RootOutcomeModel, WindowsSandboxStandaloneOutcome, WindowsSandboxStandaloneRetirementOutcome, WindowsSandboxStandaloneRootOutcome};
use crate::windows::standalone::wire::{HelperMessage, ParentMessage, WireNativeString, WireSpawnRequest, WireStream};
use vstd::prelude::*;
use vstd::string::*;

verus! {

pub const WAIT_OBJECT_0: u32 = 0;

/// The access rights with which the null device is opened.
pub const GENERIC_READ: u32 = 0x8000_0000;

pub const GENERIC_WRITE: u32 = 0x4000_0000;

/// A standard stream of the target.
#[derive(Clone, Copy, Debug, PartialEq, Eq, Structural)]
pub enum HelperStandardStream {
    Stdin,
    Stdout,
    Stderr,
}

impl HelperStandardStream {
    /// The access right with which the null device is opened for the stream.
    pub open spec fn null_right(self) -> u32 {
        match self {
            HelperStandardStream::Stdin => GENERIC_READ,
            _ => GENERIC_WRITE,
        }
    }

    /// The access right with which the null device is opened for the stream.
    pub fn null_access(self) -> (result: u32)
        ensures
            result == self.null_right(),
    {
        match self {
            HelperStandardStream::Stdin => GENERIC_READ,
            HelperStandardStream::Stdout => GENERIC_WRITE,
            HelperStandardStream::Stderr => GENERIC_WRITE,
        }
    }
}

/// Checks that a handle is one. The host has two values for none.
pub fn require_handle(handle: i64, label: &str) -> (result: Result<(), Failure>)
    ensures
        if handle == 0 || handle == -1 {
            result matches Err(failure) && failure@ == FailureModel::plain(
                "standalone helper received an invalid "@ + label@ + " handle"@,
            )
        } else {
            result is Ok
        },
{
    if handle == 0 || handle == -1 {
        let message = concat3("standalone helper received an invalid ", label, " handle");
        return Err(Failure::new(message.as_str()));
    }
    Ok(())
}

/// How a target stream is opened: by a handle that the embedding application passed, or
/// as the null device with this access right.
#[derive(Clone, Copy, Debug, PartialEq, Eq, Structural)]
pub enum StreamPlan {
    Take(i64),
    OpenNull(u32),
}

/// How a target stream is opened.
pub fn prepare_helper_stream(stream: WireStream, kind: HelperStandardStream) -> (result: StreamPlan)
    ensures
        result == match stream {
            WireStream::Handle(handle) => StreamPlan::Take(handle as i64),
            WireStream::Null => StreamPlan::OpenNull(kind.null_right()),
        },
{
    match stream {
        WireStream::Handle(handle) => StreamPlan::Take(handle as i64),
        WireStream::Null => StreamPlan::OpenNull(kind.null_access()),
    }
}

/// The path of a target value, or why the helper does not take it.
pub open spec fn wire_path_failure(units: Seq<u16>, path: crate::native::PathModel, label: Seq<char>) -> Option<FailureModel> {
    match crate::windows::standalone::wire::received_value(units) {
        Err(failure) => Some(failure),
        Ok(_) => if crate::windows::standalone::command::is_local_disk_path(path) {
            None
        } else {
            Some(FailureModel::plain("standalone helper received a non-absolute "@ + label))
        },
    }
}

/// Takes a path off the wire. `path` is what the host's path syntax makes of the value.
pub fn decode_wire_path(value: WireNativeString, path: NativePath, label: &str) -> (result: Result<NativePath, Failure>)
    requires
        path@.text == crate::windows::standalone::wire::windows_value(value@),
    ensures
        match wire_path_failure(value@, path@, label@) {
            Some(expected) => result matches Err(failure) && failure@ == expected,
            None => result matches Ok(taken) && taken@ == path@,
        },
{
    match value.into_os_string() {
        Ok(_) => {},
        Err(failure) => {
            return Err(failure);
        },
    }
    if !is_absolute_local_disk_path(&path) {
        let message = concat2("standalone helper received a non-absolute ", label);
        return Err(Failure::new(message.as_str()));
    }
    Ok(path)
}

/// What one value on the wire contributes.
pub open spec fn value_step(units: Seq<u16>) -> Step<NativeText, FailureModel> {
    match crate::windows::standalone::wire::received_value(units) {
        Ok(value) => Step::Keep(value),
        Err(failure) => Step::Fail(failure),
    }
}

/// What the values on the wire contribute, in order.
pub open spec fn value_steps(values: Seq<Seq<u16>>) -> Seq<Step<NativeText, FailureModel>> {
    Seq::new(values.len(), |index: int| value_step(values[index]))
}

/// What one variable on the wire contributes.
pub open spec fn variable_step(units: (Seq<u16>, Seq<u16>)) -> Step<(NativeText, NativeText), FailureModel> {
    match crate::windows::standalone::wire::received_value(units.0) {
        Err(failure) => Step::Fail(failure),
        Ok(key) => match crate::windows::standalone::wire::received_value(units.1) {
            Err(failure) => Step::Fail(failure),
            Ok(value) => Step::Keep((key, value)),
        },
    }
}

/// What the variables on the wire contribute, in order.
pub open spec fn variable_steps(values: Seq<(Seq<u16>, Seq<u16>)>) -> Seq<Step<(NativeText, NativeText), FailureModel>> {
    Seq::new(values.len(), |index: int| variable_step(values[index]))
}

fn copy_units(value: &WireNativeString) -> (result: WireNativeString)
    ensures
        result@ == value@,
{
    let units = value.0.clone();
    assert(units@ =~= value.0@);
    WireNativeString(units)
}

/// Takes the target's arguments off the wire.
pub fn decode_arguments(values: &Vec<WireNativeString>) -> (result: Result<Vec<NativeString>, Failure>)
    ensures
        match model::collected(value_steps(values.deep_view())) {
            Ok(expected) => result matches Ok(decoded) && decoded.deep_view() == expected,
            Err(expected) => result matches Err(failure) && failure@ == expected,
        },
{
    let ghost models = values.deep_view();
    let ghost steps = value_steps(models);
    let mut decoded: Vec<NativeString> = Vec::new();
    proof {
        model::lemma_take_all(steps);
    }
    assert(decoded.deep_view() =~= Seq::<NativeText>::empty());
    for index in 0..values.len()
        invariant
            models == values.deep_view(),
            steps == value_steps(models),
            model::collected(steps.take(index as int)) == Ok::<Seq<NativeText>, FailureModel>(decoded.deep_view()),
    {
        proof {
            model::lemma_collected_step(steps, index as int);
            assert(models[index as int] == values@[index as int]@);
            assert(steps[index as int] == value_step(models[index as int]));
        }
        let ghost before = decoded;
        let value = copy_units(&values[index]).into_os_string()?;
        decoded.push(value);
        proof {
            model::lemma_deep_push(before, decoded, value);
        }
    }
    proof {
        model::lemma_take_all(steps);
    }
    Ok(decoded)
}

/// Takes the target's environment off the wire.
pub fn decode_environment(values: &Vec<(WireNativeString, WireNativeString)>) -> (result: Result<
    Vec<(NativeString, NativeString)>,
    Failure,
>)
    ensures
        match model::collected(variable_steps(values.deep_view())) {
            Ok(expected) => result matches Ok(decoded) && decoded.deep_view() == expected,
            Err(expected) => result matches Err(failure) && failure@ == expected,
        },
{
    let ghost models = values.deep_view();
    let ghost steps = variable_steps(models);
    let mut decoded: Vec<(NativeString, NativeString)> = Vec::new();
    proof {
        model::lemma_take_all(steps);
    }
    assert(decoded.deep_view() =~= Seq::<(NativeText, NativeText)>::empty());
    for index in 0..values.len()
        invariant
            models == values.deep_view(),
            steps == variable_steps(models),
            model::collected(steps.take(index as int)) == Ok::<Seq<(NativeText, NativeText)>, FailureModel>(
                decoded.deep_view(),
            ),
    {
        proof {
            model::lemma_collected_step(steps, index as int);
            assert(models[index as int] == values@[index as int].deep_view());
            assert(steps[index as int] == variable_step(models[index as int]));
        }
        let ghost before = decoded;
        let key = copy_units(&values[index].0).into_os_string()?;
        let value = copy_units(&values[index].1).into_os_string()?;
        let variable = (key, value);
        decoded.push(variable);
        proof {
            model::lemma_deep_push(before, decoded, variable);
        }
    }
    proof {
        model::lemma_take_all(steps);
    }
    Ok(decoded)
}

proof fn lemma_all_kept<T, E>(steps: Seq<Step<T, E>>, values: Seq<T>)
    requires
        steps.len() == values.len(),
        forall|index: int| 0 <= index < values.len() ==> #[trigger] steps[index] == Step::<T, E>::Keep(values[index]),
    ensures
        model::collected(steps) == Ok::<Seq<T>, E>(values),
    decreases values.len(),
{
    if values.len() > 0 {
        let last = values.len() - 1;
        lemma_all_kept(steps.take(last), values.take(last));
        model::lemma_collected_step(steps, last);
        model::lemma_take_all(steps);
        assert(steps[last] == Step::<T, E>::Keep(values[last]));
        assert(values.take(last).push(values[last]) =~= values);
    } else {
        assert(values =~= Seq::empty());
    }
}

/// The helper takes off the wire exactly the arguments that the embedding application
/// put on it, whatever Unicode or unpaired surrogates they hold.
pub proof fn arguments_survive_the_wire(arguments: Seq<NativeText>)
    requires
        !crate::runtime::command::any_nul(arguments),
        forall|index: int|
            0 <= index < arguments.len() ==> crate::windows::standalone::wire::is_windows_value(
                #[trigger] arguments[index],
            ),
    ensures
        model::collected(value_steps(crate::windows::standalone::client::units_of_all(arguments))) == Ok::<
            Seq<NativeText>,
            FailureModel,
        >(arguments),
{
    let units = crate::windows::standalone::client::units_of_all(arguments);
    let steps = value_steps(units);
    assert forall|index: int| 0 <= index < arguments.len() implies #[trigger] steps[index] == Step::<
        NativeText,
        FailureModel,
    >::Keep(arguments[index]) by {
        assert(crate::windows::standalone::wire::is_windows_value(arguments[index]));
        assert(!arguments[index].has_nul());
        crate::windows::standalone::wire::native_values_survive_the_wire(arguments[index]);
        assert(units[index] == crate::windows::standalone::wire::wide_units(arguments[index]));
    }
    lemma_all_kept(steps, arguments);
}

/// And exactly the environment.
pub proof fn environments_survive_the_wire(environment: Seq<(NativeText, NativeText)>)
    requires
        forall|index: int|
            0 <= index < environment.len() ==> {
                &&& crate::windows::standalone::wire::is_windows_value((#[trigger] environment[index]).0)
                &&& crate::windows::standalone::wire::is_windows_value(environment[index].1)
                &&& !environment[index].0.has_nul()
                &&& !environment[index].1.has_nul()
            },
    ensures
        model::collected(variable_steps(crate::windows::standalone::client::units_of_variables(environment))) == Ok::<
            Seq<(NativeText, NativeText)>,
            FailureModel,
        >(environment),
{
    let units = crate::windows::standalone::client::units_of_variables(environment);
    let steps = variable_steps(units);
    assert forall|index: int| 0 <= index < environment.len() implies #[trigger] steps[index] == Step::<
        (NativeText, NativeText),
        FailureModel,
    >::Keep(environment[index]) by {
        let variable = environment[index];
        crate::windows::standalone::wire::native_values_survive_the_wire(variable.0);
        crate::windows::standalone::wire::native_values_survive_the_wire(variable.1);
        assert(units[index] == (
            crate::windows::standalone::wire::wide_units(variable.0),
            crate::windows::standalone::wire::wide_units(variable.1),
        ));
    }
    lemma_all_kept(steps, environment);
}

/// Checks that the target's token is restricted by some capability.
pub fn require_capabilities(count: usize) -> (result: Result<(), Failure>)
    ensures
        if count == 0 {
            result matches Err(failure) && failure@ == FailureModel::plain(
                "standalone helper received no filesystem capability SID"@,
            )
        } else {
            result is Ok
        },
{
    if count == 0 {
        return Err(Failure::new("standalone helper received no filesystem capability SID"));
    }
    Ok(())
}

/// What was read from the control channel.
#[derive(Debug)]
pub enum ControlRead {
    Message(ParentMessage),
    /// The embedding application closed the channel.
    Closed,
    Failed(Failure),
}

/// Whether this is the request of the first message, or why there is none.
pub open spec fn is_first_request(read: ControlRead, requested: Result<Box<WireSpawnRequest>, Failure>) -> bool {
    match read {
        ControlRead::Message(ParentMessage::Spawn(request)) => requested == Ok::<Box<WireSpawnRequest>, Failure>(
            request,
        ),
        ControlRead::Message(ParentMessage::CommitLaunch) => requested matches Err(failure) && failure@
            == FailureModel::plain("standalone helper received launch commit before spawn"@),
        ControlRead::Message(ParentMessage::ForceTerminate { .. }) => requested matches Err(failure) && failure@
            == FailureModel::plain("standalone helper received termination before spawn"@),
        ControlRead::Closed => requested matches Err(failure) && failure@ == FailureModel::plain(
            "standalone helper control channel closed before spawn"@,
        ),
        ControlRead::Failed(cause) => requested matches Err(failure) && failure@ == cause@,
    }
}

/// The first message must ask for the target.
pub fn first_request(read: ControlRead) -> (result: Result<Box<WireSpawnRequest>, Failure>)
    ensures
        is_first_request(read, result),
{
    match read {
        ControlRead::Message(ParentMessage::Spawn(request)) => Ok(request),
        ControlRead::Message(ParentMessage::CommitLaunch) => Err(
            Failure::new("standalone helper received launch commit before spawn"),
        ),
        ControlRead::Message(ParentMessage::ForceTerminate { .. }) => Err(
            Failure::new("standalone helper received termination before spawn"),
        ),
        ControlRead::Closed => Err(Failure::new("standalone helper control channel closed before spawn")),
        ControlRead::Failed(failure) => Err(failure),
    }
}

/// A job that is to be terminated, and what follows.
#[derive(Debug)]
pub struct JobTermination {
    /// What was being done, if the termination fails.
    pub context: &'static str,
    /// What the control loop does once the job is terminated.
    pub after: AfterTermination,
}

/// What follows the termination of the job.
#[derive(Debug)]
pub enum AfterTermination {
    /// Read the next control message.
    Continue,
    /// The control channel is done.
    Finish,
    Fail(Failure),
}

/// What an [`AfterTermination`] holds.
pub enum AfterModel {
    Continue,
    Finish,
    Fail(FailureModel),
}

impl DeepView for AfterTermination {
    type V = AfterModel;

    open spec fn deep_view(&self) -> AfterModel {
        match self {
            AfterTermination::Continue => AfterModel::Continue,
            AfterTermination::Finish => AfterModel::Finish,
            AfterTermination::Fail(failure) => AfterModel::Fail(failure@),
        }
    }
}

/// How the control loop goes on once the host terminated the job, or failed to.
#[derive(Debug)]
pub enum ControlFlow {
    Continue,
    Finished,
    Failed(Failure),
}

impl JobTermination {
    /// Whether this is how the control loop goes on.
    pub open spec fn concludes(self, terminated: Result<(), String>, flow: ControlFlow) -> bool {
        match terminated {
            Err(error) => flow matches ControlFlow::Failed(failure) && failure@ == FailureModel::plain(error@).within(
                self.context@,
            ),
            Ok(_) => match self.after.deep_view() {
                AfterModel::Continue => flow is Continue,
                AfterModel::Finish => flow is Finished,
                AfterModel::Fail(expected) => flow matches ControlFlow::Failed(failure) && failure@ == expected,
            },
        }
    }

    /// How the control loop goes on once the host terminated the job, or failed to. A
    /// job that could not be terminated is reported above all else.
    pub fn conclude(self, terminated: Result<(), String>) -> (result: ControlFlow)
        ensures
            self.concludes(terminated, result),
    {
        match terminated {
            Err(error) => ControlFlow::Failed(Failure::new(error.as_str()).within(self.context)),
            Ok(_) => match self.after {
                AfterTermination::Continue => ControlFlow::Continue,
                AfterTermination::Finish => ControlFlow::Finished,
                AfterTermination::Fail(failure) => ControlFlow::Failed(failure),
            },
        }
    }
}

/// What the helper does before the launch is committed.
#[derive(Debug)]
pub enum CommitStep {
    /// Resume the target.
    Proceed,
    /// Terminate the job; the target never ran.
    Terminate(JobTermination),
}

/// What terminates a job that is not committed, and the failure that follows. A commit
/// does not.
pub open spec fn uncommitted(read: ControlRead) -> Option<(Seq<char>, FailureModel)> {
    match read {
        ControlRead::Message(ParentMessage::CommitLaunch) => None,
        ControlRead::Message(ParentMessage::Spawn(_)) => Some(
            (
                "terminate standalone process job after duplicate spawn"@,
                FailureModel::plain("standalone helper received duplicate spawn before launch commit"@),
            ),
        ),
        ControlRead::Message(ParentMessage::ForceTerminate { .. }) => Some(
            (
                "terminate standalone process job before launch commit"@,
                FailureModel::plain("standalone helper received termination before launch commit"@),
            ),
        ),
        ControlRead::Closed => Some(
            (
                "terminate standalone process job after pre-commit EOF"@,
                FailureModel::plain("standalone helper control channel closed before launch commit"@),
            ),
        ),
        ControlRead::Failed(cause) => Some(
            (
                "terminate standalone process job after pre-commit control failure"@,
                cause@.within("read standalone launch commit"@),
            ),
        ),
    }
}

/// Decides by the next control message whether the target is resumed.
pub fn await_launch_commit(read: ControlRead) -> (result: CommitStep)
    ensures
        match uncommitted(read) {
            None => result is Proceed,
            Some((context, failure)) => result matches CommitStep::Terminate(termination) && termination.context@
                == context && termination.after.deep_view() == AfterModel::Fail(failure),
        },
{
    match read {
        ControlRead::Message(ParentMessage::CommitLaunch) => CommitStep::Proceed,
        ControlRead::Message(ParentMessage::Spawn(_)) => CommitStep::Terminate(
            JobTermination {
                context: "terminate standalone process job after duplicate spawn",
                after: AfterTermination::Fail(
                    Failure::new("standalone helper received duplicate spawn before launch commit"),
                ),
            },
        ),
        ControlRead::Message(ParentMessage::ForceTerminate { .. }) => CommitStep::Terminate(
            JobTermination {
                context: "terminate standalone process job before launch commit",
                after: AfterTermination::Fail(
                    Failure::new("standalone helper received termination before launch commit"),
                ),
            },
        ),
        ControlRead::Closed => CommitStep::Terminate(
            JobTermination {
                context: "terminate standalone process job after pre-commit EOF",
                after: AfterTermination::Fail(
                    Failure::new("standalone helper control channel closed before launch commit"),
                ),
            },
        ),
        ControlRead::Failed(failure) => CommitStep::Terminate(
            JobTermination {
                context: "terminate standalone process job after pre-commit control failure",
                after: AfterTermination::Fail(failure.within("read standalone launch commit")),
            },
        ),
    }
}

/// Only a commit lets the target run.
pub proof fn only_a_commit_resumes_the_target(read: ControlRead)
    ensures
        uncommitted(read) is None <==> read == ControlRead::Message(ParentMessage::CommitLaunch),
{
}

/// What the control loop knows of a committed launch.
#[derive(Clone, Copy, Debug, PartialEq, Eq, Structural)]
pub struct HelperControl {
    /// Whether the job was terminated on purpose.
    pub forced: bool,
    pub force_stop_timeout_ms: u64,
}

/// What the control loop does with the next message of a committed launch: the timeout
/// that counts from then on, what was being done, and what follows.
pub open spec fn control_reaction(read: ControlRead, timeout: u64) -> (u64, Seq<char>, AfterModel) {
    match read {
        ControlRead::Message(ParentMessage::ForceTerminate { force_stop_timeout_ms }) => (
            force_stop_timeout_ms,
            "force-terminate standalone process job"@,
            AfterModel::Continue,
        ),
        ControlRead::Message(ParentMessage::Spawn(_)) => (
            timeout,
            "terminate standalone process job after duplicate spawn"@,
            AfterModel::Fail(FailureModel::plain("standalone helper received duplicate spawn"@)),
        ),
        ControlRead::Message(ParentMessage::CommitLaunch) => (
            timeout,
            "terminate standalone process job after duplicate launch commit"@,
            AfterModel::Fail(FailureModel::plain("standalone helper received duplicate launch commit"@)),
        ),
        ControlRead::Failed(cause) => (
            timeout,
            "terminate standalone process job after control read failure"@,
            AfterModel::Fail(cause@.within("read standalone helper control message"@)),
        ),
        ControlRead::Closed => (
            timeout,
            "terminate standalone process job after control EOF"@,
            AfterModel::Finish,
        ),
    }
}

impl HelperControl {
    /// A committed launch that nobody ended.
    pub fn new(force_stop_timeout_ms: u64) -> (result: Self)
        ensures
            result == (HelperControl { forced: false, force_stop_timeout_ms }),
    {
        HelperControl { forced: false, force_stop_timeout_ms }
    }

    /// Whether the next message of a committed launch is answered by a termination, after
    /// which the control is another.
    pub open spec fn reacts(self, read: ControlRead, termination: JobTermination, after: HelperControl) -> bool {
        let (timeout, context, following) = control_reaction(read, self.force_stop_timeout_ms);
        &&& after == (HelperControl { forced: true, force_stop_timeout_ms: timeout })
        &&& termination.context@ == context
        &&& termination.after.deep_view() == following
    }

    /// Decides what to do with the next message of a committed launch. Whatever comes
    /// ends the job.
    pub fn helper_input_loop(&mut self, read: ControlRead) -> (result: JobTermination)
        ensures
            old(self).reacts(read, result, *final(self)),
    {
        self.forced = true;
        match read {
            ControlRead::Message(ParentMessage::ForceTerminate { force_stop_timeout_ms }) => {
                self.force_stop_timeout_ms = force_stop_timeout_ms;
                JobTermination {
                    context: "force-terminate standalone process job",
                    after: AfterTermination::Continue,
                }
            },
            ControlRead::Message(ParentMessage::Spawn(_)) => JobTermination {
                context: "terminate standalone process job after duplicate spawn",
                after: AfterTermination::Fail(Failure::new("standalone helper received duplicate spawn")),
            },
            ControlRead::Message(ParentMessage::CommitLaunch) => JobTermination {
                context: "terminate standalone process job after duplicate launch commit",
                after: AfterTermination::Fail(Failure::new("standalone helper received duplicate launch commit")),
            },
            ControlRead::Failed(failure) => JobTermination {
                context: "terminate standalone process job after control read failure",
                after: AfterTermination::Fail(failure.within("read standalone helper control message")),
            },
            ControlRead::Closed => JobTermination {
                context: "terminate standalone process job after control EOF",
                after: AfterTermination::Finish,
            },
        }
    }
}

/// The root's outcome, by how the wait for it ended and what the host says of its exit.
pub open spec fn root_outcome_of(waited: u32, exit_code: Result<u32, u32>) -> RootOutcomeModel {
    if waited != WAIT_OBJECT_0 {
        RootOutcomeModel::Unknown {
            error: "WaitForSingleObject failed for target root: "@ + crate::text::prefixed_hex(waited as nat),
        }
    } else {
        match exit_code {
            Ok(code) => RootOutcomeModel::Exited { code },
            Err(error) => RootOutcomeModel::Unknown {
                error: "GetExitCodeProcess failed: "@ + crate::text::decimal(error as nat),
            },
        }
    }
}

/// The root's outcome, by how the wait for it ended and what the host says of its exit.
pub fn root_outcome(waited: u32, exit_code: Result<u32, u32>) -> (result: WindowsSandboxStandaloneRootOutcome)
    ensures
        result@ == root_outcome_of(waited, exit_code),
{
    if waited != WAIT_OBJECT_0 {
        let code = prefixed_hex_string(waited as u64);
        return WindowsSandboxStandaloneRootOutcome::Unknown {
            error: concat2("WaitForSingleObject failed for target root: ", code.as_str()),
        };
    }
    match exit_code {
        Ok(code) => WindowsSandboxStandaloneRootOutcome::Exited { code },
        Err(error) => {
            let digits = decimal_string(error as u64);
            WindowsSandboxStandaloneRootOutcome::Unknown {
                error: concat2("GetExitCodeProcess failed: ", digits.as_str()),
            }
        },
    }
}

/// Whether a wait for a job to become empty is done, and with which answer.
pub open spec fn job_wait(active: Result<u32, String>, deadline_passed: bool) -> Option<Result<bool, String>> {
    match active {
        Err(error) => Some(Err(error)),
        Ok(count) => if count == 0 {
            Some(Ok(true))
        } else if deadline_passed {
            Some(Ok(false))
        } else {
            None
        },
    }
}

/// A wait for a job to become empty: whether it is done waiting, and with which answer.
pub fn wait_for_job_empty(active: Result<u32, String>, deadline_passed: bool) -> (result: Option<Result<bool, String>>)
    ensures
        result == job_wait(active, deadline_passed),
{
    match active {
        Err(error) => Some(Err(error)),
        Ok(count) => {
            if count == 0 {
                Some(Ok(true))
            } else if deadline_passed {
                Some(Ok(false))
            } else {
                None
            }
        },
    }
}

/// How long, in milliseconds, descendants may retire on their own.
pub open spec fn grace_of(forced: bool, descendant_grace_ms: u64) -> u64 {
    if forced {
        0
    } else {
        descendant_grace_ms
    }
}

/// How long, in milliseconds, descendants may retire on their own. A job that was
/// terminated on purpose gives them no time.
pub fn retirement_grace(forced: bool, descendant_grace_ms: u64) -> (result: u64)
    ensures
        result == grace_of(forced, descendant_grace_ms),
{
    if forced {
        0
    } else {
        descendant_grace_ms
    }
}

/// Where the retirement of a job stands.
#[derive(Debug)]
pub enum RetireStage {
    /// Descendants retire on their own.
    AwaitGrace,
    /// The job is being terminated. The error, if any, is why it could not be observed.
    Terminate(Option<String>),
    /// The job was terminated.
    AwaitForced,
}

/// What happened to the job.
#[derive(Debug)]
pub enum RetireEvent {
    /// A wait ended: whether the job is empty, or why it could not be observed.
    Waited(Result<bool, String>),
    /// The host terminated the job, or failed to.
    Terminated(Result<(), String>),
}

/// How the retirement goes on.
#[derive(Debug)]
pub enum RetireStep {
    Enter(RetireStage),
    Done(WindowsSandboxStandaloneRetirementOutcome),
}

/// What a [`RetireStage`] holds.
pub enum RetireStageModel {
    AwaitGrace,
    Terminate(Option<Seq<char>>),
    AwaitForced,
}

/// What a [`RetireStep`] holds.
pub enum RetireStepModel {
    Enter(RetireStageModel),
    Done(RetirementModel),
}

impl DeepView for RetireStage {
    type V = RetireStageModel;

    open spec fn deep_view(&self) -> RetireStageModel {
        match self {
            RetireStage::AwaitGrace => RetireStageModel::AwaitGrace,
            RetireStage::Terminate(error) => RetireStageModel::Terminate(error.deep_view()),
            RetireStage::AwaitForced => RetireStageModel::AwaitForced,
        }
    }
}

impl DeepView for RetireStep {
    type V = RetireStepModel;

    open spec fn deep_view(&self) -> RetireStepModel {
        match self {
            RetireStep::Enter(stage) => RetireStepModel::Enter(stage.deep_view()),
            RetireStep::Done(outcome) => RetireStepModel::Done(outcome@),
        }
    }
}

/// The outcome of a retirement that was forced.
pub open spec fn forced_retirement(complete: bool, error: Option<Seq<char>>) -> RetireStepModel {
    RetireStepModel::Done(RetirementModel { complete, forced: true, error })
}

/// Whether an event can follow a stage.
pub open spec fn retirement_expects(stage: RetireStageModel, event: RetireEvent) -> bool {
    if stage is Terminate {
        event is Terminated
    } else {
        event is Waited
    }
}

/// How the retirement goes on. `forced` is whether the job was terminated on purpose by
/// the time the event came.
pub open spec fn after_retiring(stage: RetireStageModel, forced: bool, event: RetireEvent) -> RetireStepModel {
    match (stage, event) {
        (RetireStageModel::AwaitGrace, RetireEvent::Waited(Ok(true))) => RetireStepModel::Done(
            RetirementModel { complete: true, forced, error: None },
        ),
        (RetireStageModel::AwaitGrace, RetireEvent::Waited(Ok(false))) => RetireStepModel::Enter(
            RetireStageModel::Terminate(None),
        ),
        (RetireStageModel::AwaitGrace, RetireEvent::Waited(Err(error))) => RetireStepModel::Enter(
            RetireStageModel::Terminate(Some(error@)),
        ),
        (RetireStageModel::Terminate(None), RetireEvent::Terminated(Ok(_))) => RetireStepModel::Enter(
            RetireStageModel::AwaitForced,
        ),
        (RetireStageModel::Terminate(None), RetireEvent::Terminated(Err(error))) => forced_retirement(
            false,
            Some("failed to terminate standalone process job: "@ + error@),
        ),
        (RetireStageModel::Terminate(Some(cause)), RetireEvent::Terminated(Ok(_))) => forced_retirement(
            false,
            Some("failed to observe job retirement: "@ + cause),
        ),
        (RetireStageModel::Terminate(Some(cause)), RetireEvent::Terminated(Err(error))) => forced_retirement(
            false,
            Some(
                "failed to observe job retirement: "@ + cause + "; termination also failed: "@ + error@,
            ),
        ),
        (RetireStageModel::AwaitForced, RetireEvent::Waited(Ok(true))) => forced_retirement(true, None),
        (RetireStageModel::AwaitForced, RetireEvent::Waited(Ok(false))) => forced_retirement(
            false,
            Some("standalone process job remained active after forced termination"@),
        ),
        (RetireStageModel::AwaitForced, RetireEvent::Waited(Err(error))) => forced_retirement(
            false,
            Some("failed to observe standalone job retirement: "@ + error@),
        ),
        _ => RetireStepModel::Enter(stage),
    }
}

fn forced_outcome(complete: bool, error: Option<String>) -> (result: RetireStep)
    ensures
        result.deep_view() == forced_retirement(complete, error.deep_view()),
{
    RetireStep::Done(WindowsSandboxStandaloneRetirementOutcome { complete, forced: true, error })
}

/// Decides how the retirement of the job goes on. It starts with the descendants' grace.
pub fn retire_job(stage: RetireStage, forced: bool, event: RetireEvent) -> (result: RetireStep)
    requires
        retirement_expects(stage.deep_view(), event),
    ensures
        result.deep_view() == after_retiring(stage.deep_view(), forced, event),
{
    match event {
        RetireEvent::Waited(waited) => {
            match stage {
                RetireStage::AwaitGrace => match waited {
                    Ok(true) => RetireStep::Done(
                        WindowsSandboxStandaloneRetirementOutcome { complete: true, forced, error: None },
                    ),
                    Ok(false) => RetireStep::Enter(RetireStage::Terminate(None)),
                    Err(error) => RetireStep::Enter(RetireStage::Terminate(Some(error))),
                },
                _ => match waited {
                    Ok(true) => forced_outcome(true, None),
                    Ok(false) => forced_outcome(
                        false,
                        Some("standalone process job remained active after forced termination".to_owned()),
                    ),
                    Err(error) => forced_outcome(
                        false,
                        Some(concat2("failed to observe standalone job retirement: ", error.as_str())),
                    ),
                },
            }
        },
        RetireEvent::Terminated(terminated) => {
            match stage {
                RetireStage::Terminate(Some(cause)) => match terminated {
                    Ok(_) => forced_outcome(
                        false,
                        Some(concat2("failed to observe job retirement: ", cause.as_str())),
                    ),
                    Err(error) => forced_outcome(
                        false,
                        Some(
                            concat4(
                                "failed to observe job retirement: ",
                                cause.as_str(),
                                "; termination also failed: ",
                                error.as_str(),
                            ),
                        ),
                    ),
                },
                _ => match terminated {
                    Ok(_) => RetireStep::Enter(RetireStage::AwaitForced),
                    Err(error) => forced_outcome(
                        false,
                        Some(concat2("failed to terminate standalone process job: ", error.as_str())),
                    ),
                },
            }
        },
    }
}

/// A retirement is complete or says what went wrong, never both. It is reported as
/// forced unless the job was found empty within the grace.
pub proof fn retirements_are_complete_or_explained(stage: RetireStageModel, forced: bool, event: RetireEvent)
    requires
        retirement_expects(stage, event),
    ensures
        after_retiring(stage, forced, event) matches RetireStepModel::Done(outcome) ==> {
            &&& outcome.complete <==> outcome.error is None
            &&& outcome.complete ==> event == RetireEvent::Waited(Ok(true))
            &&& stage !is AwaitGrace ==> outcome.forced
            &&& stage is AwaitGrace ==> outcome.complete
        },
{
}

/// A job that is not empty after the grace, or could not be observed, is terminated
/// before its retirement is reported.
pub proof fn remaining_jobs_are_terminated(forced: bool, event: RetireEvent)
    requires
        retirement_expects(RetireStageModel::AwaitGrace, event),
        event != RetireEvent::Waited(Ok(true)),
    ensures
        after_retiring(RetireStageModel::AwaitGrace, forced, event) matches RetireStepModel::Enter(next) && next
            is Terminate,
{
}

/// The final outcome of a launch that the helper followed to its end.
pub open spec fn followed_outcome(target: RootOutcomeModel, retirement: RetirementModel) -> OutcomeModel {
    OutcomeModel { target, retirement, infrastructure_error: None }
}

/// The final outcome of a launch that the helper followed to its end.
pub fn final_outcome(
    target: WindowsSandboxStandaloneRootOutcome,
    retirement: WindowsSandboxStandaloneRetirementOutcome,
) -> (result: WindowsSandboxStandaloneOutcome)
    ensures
        result@ == followed_outcome(target@, retirement@),
{
    WindowsSandboxStandaloneOutcome { target, retirement, infrastructure_error: None }
}

/// The stage under which the helper reports its own failure.
pub const HELPER_ERROR_STAGE: &'static str = "standalone_helper";

/// The host's error code as the helper reports it: where it is not negative.
pub open spec fn reported_code(raw_os_error: Option<i32>) -> Option<u32> {
    match raw_os_error {
        Some(code) => if code >= 0 {
            Some(code as u32)
        } else {
            None
        },
        None => None,
    }
}

/// The helper's report of its own failure. The host's error code is kept where it is
/// not negative.
pub fn helper_error(stage: &str, failure: &Failure, raw_os_error: Option<i32>) -> (result: HelperMessage)
    ensures
        result matches HelperMessage::Error { stage: reported, message, windows_error_code } && {
            &&& reported@ == stage@
            &&& message@ == failure@.chain()
            &&& windows_error_code == reported_code(raw_os_error)
        },
{
    let windows_error_code: Option<u32> = match raw_os_error {
        Some(code) => {
            if code >= 0 {
                Some(code as u32)
            } else {
                None
            }
        },
        None => None,
    };
    HelperMessage::Error { stage: stage.to_owned(), message: failure.chain(), windows_error_code }
}

/// An operation of the helper.
#[derive(Clone, Copy, Debug, PartialEq, Eq, Structural)]
pub enum HelperStage {
    ReadSpawnRequest,
    ValidateRunner,
    SpawnTarget,
    SendReady,
    DuplicateChannel,
    /// Wait for the launch commit. A failure has terminated the job already.
    AwaitCommit,
    StartControlThread,
    SealControlThread,
    ResumeTarget,
    SendCommitted,
    OpenControlGate,
    WaitForRoot,
    SendRootExited,
    RetireJob,
    SendFinal,
}

impl HelperStage {
    /// The place of the operation.
    pub open spec fn rank(self) -> nat {
        match self {
            HelperStage::ReadSpawnRequest => 0,
            HelperStage::ValidateRunner => 1,
            HelperStage::SpawnTarget => 2,
            HelperStage::SendReady => 3,
            HelperStage::DuplicateChannel => 4,
            HelperStage::AwaitCommit => 5,
            HelperStage::StartControlThread => 6,
            HelperStage::SealControlThread => 7,
            HelperStage::ResumeTarget => 8,
            HelperStage::SendCommitted => 9,
            HelperStage::OpenControlGate => 10,
            HelperStage::WaitForRoot => 11,
            HelperStage::SendRootExited => 12,
            HelperStage::RetireJob => 13,
            HelperStage::SendFinal => 14,
        }
    }

    /// The next operation; none after the last.
    pub open spec fn next(self) -> Option<HelperStage> {
        match self {
            HelperStage::ReadSpawnRequest => Some(HelperStage::ValidateRunner),
            HelperStage::ValidateRunner => Some(HelperStage::SpawnTarget),
            HelperStage::SpawnTarget => Some(HelperStage::SendReady),
            HelperStage::SendReady => Some(HelperStage::DuplicateChannel),
            HelperStage::DuplicateChannel => Some(HelperStage::AwaitCommit),
            HelperStage::AwaitCommit => Some(HelperStage::StartControlThread),
            HelperStage::StartControlThread => Some(HelperStage::SealControlThread),
            HelperStage::SealControlThread => Some(HelperStage::ResumeTarget),
            HelperStage::ResumeTarget => Some(HelperStage::SendCommitted),
            HelperStage::SendCommitted => Some(HelperStage::OpenControlGate),
            HelperStage::OpenControlGate => Some(HelperStage::WaitForRoot),
            HelperStage::WaitForRoot => Some(HelperStage::SendRootExited),
            HelperStage::SendRootExited => Some(HelperStage::RetireJob),
            HelperStage::RetireJob => Some(HelperStage::SendFinal),
            HelperStage::SendFinal => None,
        }
    }
}

/// What the helper does when an operation fails, before it reports the failure.
#[derive(Debug)]
pub struct HelperCleanup {
    /// Terminate the job.
    pub terminate_job: bool,
    /// Let the control thread end without a launch decision, and wait for it.
    pub join_control_thread: bool,
    pub failure: Failure,
}

/// How the helper goes on.
#[derive(Debug)]
pub enum HelperStep {
    Perform(HelperStage),
    Done,
    Abandon(HelperCleanup),
}

/// Whether the failure of an operation terminates the job.
pub open spec fn terminates_job(stage: HelperStage) -> bool {
    match stage {
        HelperStage::SendReady => true,
        HelperStage::StartControlThread => true,
        HelperStage::SealControlThread => true,
        HelperStage::ResumeTarget => true,
        HelperStage::SendCommitted => true,
        HelperStage::OpenControlGate => true,
        HelperStage::SendRootExited => true,
        _ => false,
    }
}

/// Whether the failure of an operation waits for the control thread.
pub open spec fn joins_control_thread(stage: HelperStage) -> bool {
    match stage {
        HelperStage::SealControlThread => true,
        HelperStage::ResumeTarget => true,
        HelperStage::SendCommitted => true,
        HelperStage::OpenControlGate => true,
        _ => false,
    }
}

/// The failure of an operation in its wider context.
pub open spec fn stage_failure(stage: HelperStage, failure: FailureModel) -> FailureModel {
    match stage {
        HelperStage::ValidateRunner => failure.within("validate trusted runner SID"@),
        HelperStage::StartControlThread => failure.within("spawn standalone helper control thread"@),
        HelperStage::SealControlThread => failure.within("seal standalone helper control thread"@),
        HelperStage::ResumeTarget => failure.within("resume committed standalone target"@),
        HelperStage::OpenControlGate => FailureModel::plain(
            "standalone helper control thread exited before launch commit"@,
        ),
        _ => failure,
    }
}

fn next_stage(stage: HelperStage) -> (result: Option<HelperStage>)
    ensures
        result == stage.next(),
{
    match stage {
        HelperStage::ReadSpawnRequest => Some(HelperStage::ValidateRunner),
        HelperStage::ValidateRunner => Some(HelperStage::SpawnTarget),
        HelperStage::SpawnTarget => Some(HelperStage::SendReady),
        HelperStage::SendReady => Some(HelperStage::DuplicateChannel),
        HelperStage::DuplicateChannel => Some(HelperStage::AwaitCommit),
        HelperStage::AwaitCommit => Some(HelperStage::StartControlThread),
        HelperStage::StartControlThread => Some(HelperStage::SealControlThread),
        HelperStage::SealControlThread => Some(HelperStage::ResumeTarget),
        HelperStage::ResumeTarget => Some(HelperStage::SendCommitted),
        HelperStage::SendCommitted => Some(HelperStage::OpenControlGate),
        HelperStage::OpenControlGate => Some(HelperStage::WaitForRoot),
        HelperStage::WaitForRoot => Some(HelperStage::SendRootExited),
        HelperStage::SendRootExited => Some(HelperStage::RetireJob),
        HelperStage::RetireJob => Some(HelperStage::SendFinal),
        HelperStage::SendFinal => None,
    }
}

/// Whether this is how the helper goes on after an operation.
pub open spec fn is_helper_step(stage: HelperStage, outcome: Result<(), Failure>, step: HelperStep) -> bool {
    match outcome {
        Ok(_) => match stage.next() {
            Some(next) => step == HelperStep::Perform(next),
            None => step is Done,
        },
        Err(cause) => step matches HelperStep::Abandon(cleanup) && {
            &&& cleanup.terminate_job == terminates_job(stage)
            &&& cleanup.join_control_thread == joins_control_thread(stage)
            &&& cleanup.failure@ == stage_failure(stage, cause@)
        },
    }
}

/// Decides how the helper goes on after an operation. It starts by reading the spawn
/// request.
pub fn helper_run(stage: HelperStage, outcome: Result<(), Failure>) -> (result: HelperStep)
    ensures
        is_helper_step(stage, outcome, result),
{
    match outcome {
        Ok(_) => match next_stage(stage) {
            Some(next) => HelperStep::Perform(next),
            None => HelperStep::Done,
        },
        Err(failure) => {
            let terminate_job = match stage {
                HelperStage::SendReady => true,
                HelperStage::StartControlThread => true,
                HelperStage::SealControlThread => true,
                HelperStage::ResumeTarget => true,
                HelperStage::SendCommitted => true,
                HelperStage::OpenControlGate => true,
                HelperStage::SendRootExited => true,
                _ => false,
            };
            let join_control_thread = match stage {
                HelperStage::SealControlThread => true,
                HelperStage::ResumeTarget => true,
                HelperStage::SendCommitted => true,
                HelperStage::OpenControlGate => true,
                _ => false,
            };
            let failure = match stage {
                HelperStage::ValidateRunner => failure.within("validate trusted runner SID"),
                HelperStage::StartControlThread => failure.within("spawn standalone helper control thread"),
                HelperStage::SealControlThread => failure.within("seal standalone helper control thread"),
                HelperStage::ResumeTarget => failure.within("resume committed standalone target"),
                HelperStage::OpenControlGate => Failure::new(
                    "standalone helper control thread exited before launch commit",
                ),
                _ => failure,
            };
            HelperStep::Abandon(HelperCleanup { terminate_job, join_control_thread, failure })
        },
    }
}

/// The helper passes every operation in order, so that the target is resumed only after
/// the commit, and its exit is only reported after that. Once the target may run, a
/// failure before the job is retired terminates the job.
pub proof fn helper_resumes_only_after_commit(stage: HelperStage)
    ensures
        stage.next() matches Some(next) ==> next.rank() == stage.rank() + 1,
        HelperStage::AwaitCommit.rank() < HelperStage::ResumeTarget.rank(),
        HelperStage::ResumeTarget.rank() < HelperStage::SendRootExited.rank(),
        HelperStage::ResumeTarget.rank() <= stage.rank() < HelperStage::RetireJob.rank() && stage
            != HelperStage::WaitForRoot ==> terminates_job(stage),
{
}

/// The helper takes nothing but a request for a target as its first message, and takes it
/// as it came.
pub proof fn helpers_start_with_a_request(read: ControlRead, requested: Result<Box<WireSpawnRequest>, Failure>)
    requires
        is_first_request(read, requested),
    ensures
        requested matches Ok(request) ==> read == ControlRead::Message(ParentMessage::Spawn(request)),
        read matches ControlRead::Message(ParentMessage::Spawn(request)) ==> requested == Ok::<
            Box<WireSpawnRequest>,
            Failure,
        >(request),
{
}

/// Whatever comes after the commit ends the job, and marks its end as forced. Only a
/// termination is followed by more messages, and brings its own timeout; the end of the
/// channel finishes the control, and anything else fails it.
pub proof fn every_message_ends_the_job(
    control: HelperControl,
    read: ControlRead,
    termination: JobTermination,
    after: HelperControl,
    terminated: Result<(), String>,
    flow: ControlFlow,
)
    requires
        control.reacts(read, termination, after),
        termination.concludes(terminated, flow),
    ensures
        after.forced,
        read matches ControlRead::Message(ParentMessage::ForceTerminate { force_stop_timeout_ms })
            ==> after.force_stop_timeout_ms == force_stop_timeout_ms,
        !(read matches ControlRead::Message(ParentMessage::ForceTerminate { .. })) ==> after.force_stop_timeout_ms
            == control.force_stop_timeout_ms,
        terminated is Err ==> flow is Failed,
        flow is Continue <==> terminated is Ok && (read matches ControlRead::Message(ParentMessage::ForceTerminate { .. })),
        flow is Finished <==> terminated is Ok && read is Closed,
{
}

/// The root's exit code is the host's, where the wait for the root ended with its exit;
/// else its outcome is unknown.
pub proof fn root_outcomes_are_the_host_answers(waited: u32, exit_code: Result<u32, u32>)
    ensures
        root_outcome_of(waited, exit_code) is Exited <==> waited == 0 && exit_code is Ok,
        root_outcome_of(waited, exit_code) matches RootOutcomeModel::Exited { code } ==> exit_code == Ok::<u32, u32>(
            code,
        ),
{
}

/// A job counts as empty exactly where no process is left in it, and a wait for that goes
/// on only while there is time. Descendants of a job that was ended on purpose get none.
pub proof fn waits_end_on_an_empty_job(
    active: Result<u32, String>,
    deadline_passed: bool,
    forced: bool,
    descendant_grace_ms: u64,
)
    ensures
        job_wait(active, deadline_passed) == Some(Ok::<bool, String>(true)) <==> active == Ok::<u32, String>(0),
        job_wait(active, deadline_passed) == Some(Ok::<bool, String>(false)) <==> (active matches Ok(count) && count
            > 0) && deadline_passed,
        job_wait(active, deadline_passed) is None <==> (active matches Ok(count) && count > 0) && !deadline_passed,
        active matches Err(error) ==> job_wait(active, deadline_passed) == Some(Err::<bool, String>(error)),
        forced ==> grace_of(forced, descendant_grace_ms) == 0,
        !forced ==> grace_of(forced, descendant_grace_ms) == descendant_grace_ms,
{
}

/// A retirement ends at once where the job is empty within the grace, as forced or not as
/// it was; else the job is terminated, waited for, and its retirement is forced. It is
/// complete only where the job was found empty at the end.
pub proof fn retirements_end_on_an_empty_job(stage: RetireStageModel, forced: bool, event: RetireEvent)
    requires
        retirement_expects(stage, event),
    ensures
        ({
            let step = after_retiring(stage, forced, event);
            match stage {
                RetireStageModel::AwaitGrace => {
                    &&& event == RetireEvent::Waited(Ok(true)) ==> (step matches RetireStepModel::Done(outcome)
                        && outcome.complete && outcome.forced == forced && outcome.error is None)
                    &&& event == RetireEvent::Waited(Ok(false)) ==> step == RetireStepModel::Enter(
                        RetireStageModel::Terminate(None),
                    )
                    &&& event matches RetireEvent::Waited(Err(error)) ==> step == RetireStepModel::Enter(
                        RetireStageModel::Terminate(Some(error@)),
                    )
                },
                RetireStageModel::Terminate(cause) => {
                    &&& event matches RetireEvent::Terminated(Ok(_)) ==> (step == RetireStepModel::Enter(
                        RetireStageModel::AwaitForced,
                    ) <==> cause is None)
                    &&& event matches RetireEvent::Terminated(Err(_)) ==> (step matches RetireStepModel::Done(outcome)
                        && !outcome.complete)
                    &&& cause is Some ==> (step matches RetireStepModel::Done(outcome) && !outcome.complete)
                },
                RetireStageModel::AwaitForced => step matches RetireStepModel::Done(outcome) && outcome.forced && (
                outcome.complete <==> event == RetireEvent::Waited(Ok(true))),
            }
        }),
{
}

/// An outcome that was followed to its end is what was seen of the target and of its job,
/// without a failure of the helper's own.
pub proof fn followed_outcomes_are_what_was_seen(target: RootOutcomeModel, retirement: RetirementModel)
    ensures
        followed_outcome(target, retirement).target == target,
        followed_outcome(target, retirement).retirement == retirement,
        followed_outcome(target, retirement).infrastructure_error is None,
{
}

/// The helper reports the host's own code, and none that is no code of the host.
pub proof fn reported_codes_are_the_host_codes(raw_os_error: Option<i32>)
    ensures
        reported_code(raw_os_error) is Some <==> (raw_os_error matches Some(code) && code >= 0),
        reported_code(raw_os_error) matches Some(code) ==> raw_os_error->Some_0 == code,
{
}

/// The helper passes its operations in one order. Where one fails it is abandoned: the job
/// is terminated from the moment the target is reported until it is retired, but where the
/// failure already ended it or left it to its own end, and the control thread is waited
/// for from its start until it was let go.
pub proof fn helpers_pass_their_operations_in_order(
    stage: HelperStage,
    outcome: Result<(), Failure>,
    step: HelperStep,
)
    requires
        is_helper_step(stage, outcome, step),
    ensures
        outcome is Err <==> step is Abandon,
        outcome is Ok ==> match stage {
            HelperStage::ReadSpawnRequest => step == HelperStep::Perform(HelperStage::ValidateRunner),
            HelperStage::ValidateRunner => step == HelperStep::Perform(HelperStage::SpawnTarget),
            HelperStage::SpawnTarget => step == HelperStep::Perform(HelperStage::SendReady),
            HelperStage::SendReady => step == HelperStep::Perform(HelperStage::DuplicateChannel),
            HelperStage::DuplicateChannel => step == HelperStep::Perform(HelperStage::AwaitCommit),
            HelperStage::AwaitCommit => step == HelperStep::Perform(HelperStage::StartControlThread),
            HelperStage::StartControlThread => step == HelperStep::Perform(HelperStage::SealControlThread),
            HelperStage::SealControlThread => step == HelperStep::Perform(HelperStage::ResumeTarget),
            HelperStage::ResumeTarget => step == HelperStep::Perform(HelperStage::SendCommitted),
            HelperStage::SendCommitted => step == HelperStep::Perform(HelperStage::OpenControlGate),
            HelperStage::OpenControlGate => step == HelperStep::Perform(HelperStage::WaitForRoot),
            HelperStage::WaitForRoot => step == HelperStep::Perform(HelperStage::SendRootExited),
            HelperStage::SendRootExited => step == HelperStep::Perform(HelperStage::RetireJob),
            HelperStage::RetireJob => step == HelperStep::Perform(HelperStage::SendFinal),
            HelperStage::SendFinal => step is Done,
        },
        step matches HelperStep::Abandon(cleanup) ==> {
            &&& cleanup.terminate_job <==> (stage is SendReady || stage is StartControlThread
                || stage is SealControlThread || stage is ResumeTarget || stage is SendCommitted
                || stage is OpenControlGate || stage is SendRootExited)
            &&& cleanup.join_control_thread <==> (stage is SealControlThread || stage is ResumeTarget
                || stage is SendCommitted || stage is OpenControlGate)
            &&& cleanup.join_control_thread ==> cleanup.terminate_job
        },
{
}

} // verus!
