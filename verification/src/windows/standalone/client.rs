//! The embedding application's side of a standalone launch.

use crate::model;
use crate::native::{NativePath, NativeString, NativeText, PathModel};
use crate::order::sort_without_repeats;
use crate::text::{concat2, concat3, concat4, concat5, decimal_string};
use crate::windows::failure::{Failure, FailureModel};
use crate::windows::standalone::command::{StandaloneCommandModel, WindowsSandboxStandaloneCommand, PIPE_IN_PREFIX, PIPE_OUT_PREFIX, STANDALONE_HELPER_SWITCH};
use crate::windows::standalone::outcome::{unobserved_outcome, OutcomeModel, RootOutcomeModel, WindowsSandboxStandaloneOutcome, WindowsSandboxStandaloneRootOutcome};
use crate::windows::standalone::setup::{copy_paths, validate_setup_request, NetworkSetupModel, PathProbes, SetupStateModel, WindowsSandboxStandaloneNetworkIdentity, WindowsSandboxStandaloneNetworkSetup, WindowsSandboxStandaloneSetupRequest, WindowsSandboxStandaloneSetupState};
use crate::windows::standalone::setup_flow::{EventModel, HostEvent};
use crate::windows::standalone::wire::{HelperMessage, ParentMessage, SpawnModel, WireNativeString, WireSpawnRequest, WireStream, WireTokenMode};
use vstd::prelude::*;
use vstd::string::*;

verus! {

/// The host's answer to a wait that timed out.
pub const WAIT_TIMEOUT: u32 = 0x102;

/// How long, in seconds, the helper may take to start the target and to commit it.
pub const HELPER_RESPONSE_SECONDS: u64 = 15;

/// How long, in milliseconds, the helper may take to retire after its channel closed.
pub const HELPER_RETIREMENT_MILLIS: u32 = 5000;

/// The outcome of bringing a duration into the range of the host's waits.
pub open spec fn wait_range_failure(millis: u128, label: Seq<char>) -> Option<FailureModel> {
    if millis > u64::MAX {
        Some(
            FailureModel::plain("out of range integral type conversion attempted"@).within(
                label + " exceeds the Windows helper duration range"@,
            ),
        )
    } else if millis > u32::MAX {
        Some(FailureModel::plain(label + " exceeds the Windows wait range"@))
    } else {
        None
    }
}

/// A duration in milliseconds, in the range of the host's waits.
pub fn duration_millis(millis: u128, label: &str) -> (result: Result<u64, Failure>)
    ensures
        match wait_range_failure(millis, label@) {
            Some(expected) => result matches Err(failure) && failure@ == expected,
            None => result matches Ok(value) && value == millis,
        },
{
    if millis > u64::MAX as u128 {
        let context = concat2(label, " exceeds the Windows helper duration range");
        return Err(
            Failure::new("out of range integral type conversion attempted").within(context.as_str()),
        );
    }
    if millis > u32::MAX as u128 {
        let message = concat2(label, " exceeds the Windows wait range");
        return Err(Failure::new(message.as_str()));
    }
    Ok(millis as u64)
}

/// The capabilities that a target's token is restricted to.
#[derive(Debug)]
pub enum CapabilityRequest {
    /// The one read-only capability.
    ReadOnly,
    /// One capability for each of these writable roots.
    Roots(Vec<NativePath>),
}

/// Whether these are the capabilities of a setup with these writable roots.
pub open spec fn are_capabilities_of(capabilities: CapabilityRequest, write_roots: Seq<PathModel>) -> bool {
    if write_roots.len() == 0 {
        capabilities is ReadOnly
    } else {
        capabilities matches CapabilityRequest::Roots(roots) && roots@.len() > 0
            && crate::order::ordered_without_repeats(write_roots, roots.deep_view())
    }
}

/// The capabilities that a target's token is restricted to: one for each writable root,
/// in the order of the roots and without repeats.
pub fn capability_sids(request: &WindowsSandboxStandaloneSetupRequest) -> (result: CapabilityRequest)
    ensures
        are_capabilities_of(result, request@.write_roots),
{
    if request.write_roots.len() == 0 {
        return CapabilityRequest::ReadOnly;
    }
    let roots = sort_without_repeats(copy_paths(&request.write_roots));
    proof {
        let models = request.write_roots.deep_view();
        assert(crate::order::has_place_of(roots.deep_view(), models[0]));
    }
    CapabilityRequest::Roots(roots)
}

/// The values of a target command on the wire.
#[derive(Debug)]
pub struct WireCommand {
    pub program: WireNativeString,
    pub args: Vec<WireNativeString>,
    pub environment: Vec<(WireNativeString, WireNativeString)>,
    pub cwd: WireNativeString,
    pub state_dir: WireNativeString,
}

/// Whether a value is one of Windows, which has none in bytes.
pub open spec fn is_wide(value: NativeText) -> bool {
    !(value is Bytes)
}

/// Whether every value of a command is one of Windows.
pub open spec fn is_windows_command(command: StandaloneCommandModel, state_dir: NativeText) -> bool {
    &&& is_wide(command.program.text)
    &&& is_wide(command.cwd.text)
    &&& is_wide(state_dir)
    &&& forall|index: int| 0 <= index < command.args.len() ==> is_wide(#[trigger] command.args[index])
    &&& forall|index: int|
        0 <= index < command.environment.len() ==> is_wide((#[trigger] command.environment[index]).0) && is_wide(
            command.environment[index].1,
        )
}

/// Whether some value of a command holds a NUL.
pub open spec fn command_has_nul(command: StandaloneCommandModel, state_dir: NativeText) -> bool {
    ||| crate::runtime::command::any_nul(command.args)
    ||| exists|index: int|
        0 <= index < command.environment.len() && ((#[trigger] command.environment[index]).0.has_nul()
            || command.environment[index].1.has_nul())
    ||| command.program.text.has_nul()
    ||| command.cwd.text.has_nul()
    ||| state_dir.has_nul()
}

/// The units of some values.
pub open spec fn units_of_all(values: Seq<NativeText>) -> Seq<Seq<u16>> {
    values.map_values(|value: NativeText| crate::windows::standalone::wire::wide_units(value))
}

/// The units of some variables.
pub open spec fn units_of_variables(variables: Seq<(NativeText, NativeText)>) -> Seq<(Seq<u16>, Seq<u16>)> {
    variables.map_values(
        |variable: (NativeText, NativeText)|
            (
                crate::windows::standalone::wire::wide_units(variable.0),
                crate::windows::standalone::wire::wide_units(variable.1),
            ),
    )
}

/// The failure of a value that cannot be put on the wire.
pub open spec fn wire_value_failure() -> FailureModel {
    crate::windows::standalone::command::nul_failure("native Windows value"@)
}

fn wire_values(values: &Vec<NativeString>) -> (result: Result<Vec<WireNativeString>, Failure>)
    requires
        forall|index: int| 0 <= index < values.deep_view().len() ==> is_wide((#[trigger] values.deep_view()[index])),
    ensures
        if crate::runtime::command::any_nul(values.deep_view()) {
            result matches Err(failure) && failure@ == wire_value_failure()
        } else {
            result matches Ok(wire) && wire.deep_view() == units_of_all(values.deep_view())
        },
{
    let ghost models = values.deep_view();
    let mut wire: Vec<WireNativeString> = Vec::new();
    assert(wire.deep_view() =~= units_of_all(models.take(0)));
    for index in 0..values.len()
        invariant
            models == values.deep_view(),
            forall|i: int| 0 <= i < models.len() ==> is_wide(#[trigger] models[i]),
            forall|i: int| 0 <= i < index ==> !(#[trigger] models[i]).has_nul(),
            wire.deep_view() == units_of_all(models.take(index as int)),
    {
        assert(models[index as int] == values@[index as int]@);
        let ghost before = wire;
        let value = WireNativeString::from_os_str(&values[index])?;
        wire.push(value);
        proof {
            model::lemma_deep_push(before, wire, value);
            assert(units_of_all(models.take(index + 1)) =~= units_of_all(models.take(index as int)).push(
                crate::windows::standalone::wire::wide_units(models[index as int]),
            ));
        }
    }
    assert(models.take(models.len() as int) =~= models);
    Ok(wire)
}

fn wire_variables(variables: &Vec<(NativeString, NativeString)>) -> (result: Result<
    Vec<(WireNativeString, WireNativeString)>,
    Failure,
>)
    requires
        forall|index: int|
            0 <= index < variables.deep_view().len() ==> is_wide((#[trigger] variables.deep_view()[index]).0) && is_wide(
                variables.deep_view()[index].1,
            ),
    ensures
        if exists|index: int|
            0 <= index < variables.deep_view().len() && ((#[trigger] variables.deep_view()[index]).0.has_nul()
                || variables.deep_view()[index].1.has_nul()) {
            result matches Err(failure) && failure@ == wire_value_failure()
        } else {
            result matches Ok(wire) && wire.deep_view() == units_of_variables(variables.deep_view())
        },
{
    let ghost models = variables.deep_view();
    let mut wire: Vec<(WireNativeString, WireNativeString)> = Vec::new();
    assert(wire.deep_view() =~= units_of_variables(models.take(0)));
    for index in 0..variables.len()
        invariant
            models == variables.deep_view(),
            forall|i: int| 0 <= i < models.len() ==> is_wide((#[trigger] models[i]).0) && is_wide(models[i].1),
            forall|i: int| 0 <= i < index ==> !(#[trigger] models[i]).0.has_nul() && !models[i].1.has_nul(),
            wire.deep_view() == units_of_variables(models.take(index as int)),
    {
        assert(models[index as int] == variables@[index as int].deep_view());
        let ghost before = wire;
        let key = WireNativeString::from_os_str(&variables[index].0)?;
        let value = WireNativeString::from_os_str(&variables[index].1)?;
        let variable = (key, value);
        wire.push(variable);
        proof {
            model::lemma_deep_push(before, wire, variable);
            assert(units_of_variables(models.take(index + 1)) =~= units_of_variables(models.take(index as int)).push(
                (
                    crate::windows::standalone::wire::wide_units(models[index as int].0),
                    crate::windows::standalone::wire::wide_units(models[index as int].1),
                ),
            ));
        }
    }
    assert(models.take(models.len() as int) =~= models);
    Ok(wire)
}

/// Whether the values on the wire are those of a target command.
pub open spec fn is_wire_form(wire: WireCommand, command: StandaloneCommandModel, state_dir: NativeText) -> bool {
    &&& wire.program@ == crate::windows::standalone::wire::wide_units(command.program.text)
    &&& wire.args.deep_view() == units_of_all(command.args)
    &&& wire.environment.deep_view() == units_of_variables(command.environment)
    &&& wire.cwd@ == crate::windows::standalone::wire::wide_units(command.cwd.text)
    &&& wire.state_dir@ == crate::windows::standalone::wire::wide_units(state_dir)
}

/// Puts the values of a target command on the wire.
pub fn wire_command(command: &WindowsSandboxStandaloneCommand, state_dir: &NativeString) -> (result: Result<
    WireCommand,
    Failure,
>)
    requires
        is_windows_command(command@, state_dir@),
    ensures
        if command_has_nul(command@, state_dir@) {
            result matches Err(failure) && failure@ == wire_value_failure()
        } else {
            result matches Ok(wire) && is_wire_form(wire, command@, state_dir@)
        },
{
    assert(command@.args == command.args.deep_view());
    assert(command@.environment == command.environment.deep_view());
    let args = wire_values(&command.args)?;
    let environment = wire_variables(&command.environment)?;
    let program = WireNativeString::from_os_str(&command.program.text)?;
    let cwd = WireNativeString::from_os_str(&command.cwd.text)?;
    let state_dir = WireNativeString::from_os_str(state_dir)?;
    Ok(WireCommand { program, args, environment, cwd, state_dir })
}

/// Direct standard-stream endpoint for a standalone launch, with the host's handle.
#[derive(Clone, Copy, Debug, PartialEq, Eq, Structural)]
pub enum WindowsSandboxStandaloneStream {
    /// Duplicate the runner's corresponding standard handle into the helper.
    Inherited(i64),
    /// Duplicate a caller-owned handle into the helper. The caller retains its
    /// original handle and owns its lifetime.
    Passed(i64),
    /// Connect the target stream directly to the native null device.
    Null,
}

/// Independently selected direct endpoints for target stdin, stdout, and stderr.
#[derive(Clone, Copy, Debug, PartialEq, Eq, Structural)]
pub struct WindowsSandboxStandaloneStdio {
    pub stdin: WindowsSandboxStandaloneStream,
    pub stdout: WindowsSandboxStandaloneStream,
    pub stderr: WindowsSandboxStandaloneStream,
}

/// Complete elevated-helper launch request.
#[derive(Debug)]
pub struct WindowsSandboxStandaloneLaunchRequest {
    pub setup: WindowsSandboxStandaloneSetupRequest,
    pub command: WindowsSandboxStandaloneCommand,
    pub stdio: WindowsSandboxStandaloneStdio,
    /// Optional restricting SID owned by the managed network proxy.
    pub network_proxy_restricting_sid: Option<String>,
    pub use_private_desktop: bool,
    /// Time descendants may retire naturally after the root exits, in milliseconds.
    pub descendant_grace_millis: u128,
    /// Time allowed for the job to become empty after forced termination, in
    /// milliseconds.
    pub force_stop_timeout_millis: u128,
}

/// How the token of a setup with these writable roots is restricted.
pub open spec fn token_mode_of(write_roots: Seq<PathModel>) -> WireTokenMode {
    if write_roots.len() == 0 {
        WireTokenMode::ReadOnly
    } else {
        WireTokenMode::WritableRoots
    }
}

fn token_mode(request: &WindowsSandboxStandaloneSetupRequest) -> (result: WireTokenMode)
    ensures
        result == token_mode_of(request@.write_roots),
{
    if request.write_roots.len() == 0 {
        WireTokenMode::ReadOnly
    } else {
        WireTokenMode::WritableRoots
    }
}

/// The first failure among the streams and the durations of a spawn request.
pub open spec fn spawn_failure(
    stdin: Result<WireStream, Failure>,
    stdout: Result<WireStream, Failure>,
    stderr: Result<WireStream, Failure>,
    request: WindowsSandboxStandaloneLaunchRequest,
) -> Option<FailureModel> {
    if stdin is Err {
        Some(stdin->Err_0@)
    } else if stdout is Err {
        Some(stdout->Err_0@)
    } else if stderr is Err {
        Some(stderr->Err_0@)
    } else if let Some(failure) = wait_range_failure(request.descendant_grace_millis, "descendant grace"@) {
        Some(failure)
    } else {
        wait_range_failure(request.force_stop_timeout_millis, "force-stop timeout"@)
    }
}

/// What the request that starts the target holds.
pub open spec fn spawn_model(
    command: WireCommand,
    request: WindowsSandboxStandaloneLaunchRequest,
    capability_sids: Seq<Seq<char>>,
    runner_sid: Seq<char>,
    stdin: WireStream,
    stdout: WireStream,
    stderr: WireStream,
) -> SpawnModel {
    SpawnModel {
        program: command.program@,
        args: command.args.deep_view(),
        environment: command.environment.deep_view(),
        cwd: command.cwd@,
        state_dir: command.state_dir@,
        token_mode: token_mode_of(request.setup@.write_roots),
        capability_sids,
        network_proxy_restricting_sid: request.network_proxy_restricting_sid.deep_view(),
        runner_sid,
        stdin,
        stdout,
        stderr,
        use_private_desktop: request.use_private_desktop,
        descendant_grace_ms: request.descendant_grace_millis as u64,
        force_stop_timeout_ms: request.force_stop_timeout_millis as u64,
    }
}

/// The request that starts the target.
pub fn spawn_request_wire(
    command: WireCommand,
    request: &WindowsSandboxStandaloneLaunchRequest,
    capability_sids: Vec<String>,
    runner_sid: String,
    stdin: Result<WireStream, Failure>,
    stdout: Result<WireStream, Failure>,
    stderr: Result<WireStream, Failure>,
) -> (result: Result<WireSpawnRequest, Failure>)
    ensures
        match spawn_failure(stdin, stdout, stderr, *request) {
            Some(expected) => result matches Err(failure) && failure@ == expected,
            None => result matches Ok(spawn) && spawn@ == spawn_model(
                command,
                *request,
                capability_sids.deep_view(),
                runner_sid@,
                stdin->Ok_0,
                stdout->Ok_0,
                stderr->Ok_0,
            ),
        },
{
    let network_proxy_restricting_sid = match &request.network_proxy_restricting_sid {
        Some(sid) => Some(sid.clone()),
        None => None,
    };
    let stdin = stdin?;
    let stdout = stdout?;
    let stderr = stderr?;
    let descendant_grace_ms: u64 = duration_millis(request.descendant_grace_millis, "descendant grace")?;
    let force_stop_timeout_ms: u64 = duration_millis(request.force_stop_timeout_millis, "force-stop timeout")?;
    Ok(
        WireSpawnRequest {
            program: command.program,
            args: command.args,
            environment: command.environment,
            cwd: command.cwd,
            state_dir: command.state_dir,
            token_mode: token_mode(&request.setup),
            capability_sids,
            network_proxy_restricting_sid,
            runner_sid,
            stdin,
            stdout,
            stderr,
            use_private_desktop: request.use_private_desktop,
            descendant_grace_ms,
            force_stop_timeout_ms,
        },
    )
}

/// The handle to duplicate for a stream: none for the null device, and a failure where
/// there is no such handle.
pub open spec fn source_handle(source: WindowsSandboxStandaloneStream, label: Seq<char>) -> Result<Option<i64>, FailureModel> {
    match source {
        WindowsSandboxStandaloneStream::Null => Ok(None),
        WindowsSandboxStandaloneStream::Inherited(handle) | WindowsSandboxStandaloneStream::Passed(handle) => if handle == 0 || handle == -1 {
            Err(FailureModel::plain("standalone "@ + label + " source handle is unavailable"@))
        } else {
            Ok(Some(handle))
        },
    }
}

/// The handle to duplicate for a stream, if there is one to duplicate.
pub fn stream_source_handle(source: WindowsSandboxStandaloneStream, label: &str) -> (result: Result<Option<i64>, Failure>)
    ensures
        match source_handle(source, label@) {
            Ok(handle) => result matches Ok(found) && found == handle,
            Err(expected) => result matches Err(failure) && failure@ == expected,
        },
{
    let handle: i64 = match source {
        WindowsSandboxStandaloneStream::Null => {
            return Ok(None);
        },
        WindowsSandboxStandaloneStream::Inherited(handle) => handle,
        WindowsSandboxStandaloneStream::Passed(handle) => handle,
    };
    if handle == 0 || handle == -1 {
        let message = concat3("standalone ", label, " source handle is unavailable");
        return Err(Failure::new(message.as_str()));
    }
    Ok(Some(handle))
}

/// The stream on the wire once its handle was duplicated, or the failure with the
/// host's error.
pub fn duplicate_stream(duplicated: Result<u64, u32>, label: &str) -> (result: Result<WireStream, Failure>)
    ensures
        match duplicated {
            Ok(handle) => result matches Ok(stream) && stream == WireStream::Handle(handle),
            Err(error) => result matches Err(failure) && failure@ == FailureModel::plain(
                "DuplicateHandle failed for standalone "@ + label@ + ": "@ + crate::text::decimal(error as nat),
            ),
        },
{
    match duplicated {
        Ok(handle) => Ok(WireStream::Handle(handle)),
        Err(error) => {
            let code = decimal_string(error as u64);
            let message = concat4("DuplicateHandle failed for standalone ", label, ": ", code.as_str());
            Err(Failure::new(message.as_str()))
        },
    }
}

/// One variable of an environment.
pub open spec fn variable(key: Seq<char>, value: NativeText) -> (NativeText, NativeText) {
    (NativeText::Unicode(key), value)
}

/// The whole environment of the helper: the system's own directories where they are
/// known, and the temporary directory below the state directory.
pub open spec fn helper_environment(
    system_root: Option<NativeText>,
    windir: Option<NativeText>,
    temp: NativeText,
) -> Seq<(NativeText, NativeText)> {
    let none: Seq<(NativeText, NativeText)> = Seq::empty();
    (match system_root {
        Some(value) => none.push(variable("SystemRoot"@, value)),
        None => none,
    }) + (match windir {
        Some(value) => none.push(variable("WINDIR"@, value)),
        None => none,
    }) + seq![variable("TEMP"@, temp), variable("TMP"@, temp)]
}

/// The whole environment of the helper.
pub fn minimal_helper_environment(system_root: Option<NativeString>, windir: Option<NativeString>, temp: &NativeString) -> (result: Vec<
    (NativeString, NativeString),
>)
    ensures
        result.deep_view() == helper_environment(system_root.deep_view(), windir.deep_view(), temp@),
{
    let mut environment: Vec<(NativeString, NativeString)> = Vec::new();
    if let Some(value) = system_root {
        environment.push((NativeString::from_text("SystemRoot"), value));
    }
    if let Some(value) = windir {
        environment.push((NativeString::from_text("WINDIR"), value));
    }
    environment.push((NativeString::from_text("TEMP"), temp.clone()));
    environment.push((NativeString::from_text("TMP"), temp.clone()));
    assert(environment.deep_view() =~= helper_environment(system_root.deep_view(), windir.deep_view(), temp@));
    environment
}

/// The arguments of the helper, its own name aside.
pub open spec fn helper_arguments(pipe_in: Seq<char>, pipe_out: Seq<char>) -> Seq<NativeText> {
    seq![
        NativeText::Unicode(STANDALONE_HELPER_SWITCH@),
        NativeText::Unicode(PIPE_IN_PREFIX@ + pipe_in),
        NativeText::Unicode(PIPE_OUT_PREFIX@ + pipe_out),
    ]
}

/// The arguments that start the helper with its two control pipes.
pub fn spawn_helper_arguments(pipe_in: &str, pipe_out: &str) -> (result: Vec<NativeString>)
    ensures
        result.deep_view() == helper_arguments(pipe_in@, pipe_out@),
{
    let mut arguments: Vec<NativeString> = Vec::new();
    arguments.push(NativeString::from_text(STANDALONE_HELPER_SWITCH));
    arguments.push(NativeString::Unicode(concat2(PIPE_IN_PREFIX, pipe_in)));
    arguments.push(NativeString::Unicode(concat2(PIPE_OUT_PREFIX, pipe_out)));
    assert(arguments.deep_view() =~= helper_arguments(pipe_in@, pipe_out@));
    arguments
}

/// The helper finds in its arguments the pipes that it was started with.
pub proof fn helper_finds_its_pipes(pipe_in: Seq<char>, pipe_out: Seq<char>)
    requires
        pipe_in.len() > 0,
        pipe_out.len() > 0,
    ensures
        crate::windows::standalone::command::invocation_pipes(helper_arguments(pipe_in, pipe_out)) == Some(
            (pipe_in, pipe_out),
        ),
{
    let first = PIPE_IN_PREFIX@ + pipe_in;
    let second = PIPE_OUT_PREFIX@ + pipe_out;
    assert(first.subrange(0, PIPE_IN_PREFIX@.len() as int) =~= PIPE_IN_PREFIX@);
    assert(second.subrange(0, PIPE_OUT_PREFIX@.len() as int) =~= PIPE_OUT_PREFIX@);
    assert(first.skip(PIPE_IN_PREFIX@.len() as int) =~= pipe_in);
    assert(second.skip(PIPE_OUT_PREFIX@.len() as int) =~= pipe_out);
}

/// Whether the target is there.
#[derive(Debug)]
pub enum Readiness {
    Pending,
    /// The target exists, suspended; this is its process identifier.
    Ready(u32),
    Failed(String),
}

/// What a [`Readiness`] holds.
pub enum ReadinessModel {
    Pending,
    Ready(u32),
    Failed(Seq<char>),
}

impl DeepView for Readiness {
    type V = ReadinessModel;

    open spec fn deep_view(&self) -> ReadinessModel {
        match self {
            Readiness::Pending => ReadinessModel::Pending,
            Readiness::Ready(process_id) => ReadinessModel::Ready(*process_id),
            Readiness::Failed(message) => ReadinessModel::Failed(message@),
        }
    }
}

/// What the helper has said so far.
#[derive(Debug)]
pub struct Observation {
    pub ready: Readiness,
    pub target: Option<WindowsSandboxStandaloneRootOutcome>,
    pub final_outcome: Option<WindowsSandboxStandaloneOutcome>,
    pub committed: bool,
}

/// What an [`Observation`] holds.
pub struct ObservationModel {
    pub ready: ReadinessModel,
    pub target: Option<RootOutcomeModel>,
    pub final_outcome: Option<OutcomeModel>,
    pub committed: bool,
}

impl DeepView for Observation {
    type V = ObservationModel;

    open spec fn deep_view(&self) -> ObservationModel {
        ObservationModel {
            ready: self.ready.deep_view(),
            target: self.target.deep_view(),
            final_outcome: self.final_outcome.deep_view(),
            committed: self.committed,
        }
    }
}

impl View for Observation {
    type V = ObservationModel;

    open spec fn view(&self) -> ObservationModel {
        self.deep_view()
    }
}

/// What a message of the helper holds.
pub enum MessageModel {
    Ready { process_id: u32 },
    Committed,
    RootExited(RootOutcomeModel),
    Final(OutcomeModel),
    Error { stage: Seq<char>, message: Seq<char>, windows_error_code: Option<u32> },
}

impl DeepView for HelperMessage {
    type V = MessageModel;

    open spec fn deep_view(&self) -> MessageModel {
        match self {
            HelperMessage::Ready { process_id } => MessageModel::Ready { process_id: *process_id },
            HelperMessage::Committed => MessageModel::Committed,
            HelperMessage::RootExited(target) => MessageModel::RootExited(target@),
            HelperMessage::Final(outcome) => MessageModel::Final(outcome@),
            HelperMessage::Error { stage, message, windows_error_code } => MessageModel::Error {
                stage: stage@,
                message: message@,
                windows_error_code: *windows_error_code,
            },
        }
    }
}

impl View for HelperMessage {
    type V = MessageModel;

    open spec fn view(&self) -> MessageModel {
        self.deep_view()
    }
}

/// The failure that the helper reported.
pub open spec fn reported_failure(stage: Seq<char>, message: Seq<char>, windows_error_code: Option<u32>) -> Seq<char> {
    "standalone helper failed during "@ + stage + ": "@ + message + (match windows_error_code {
        Some(code) => " (Windows error "@ + crate::text::decimal(code as nat) + ")"@,
        None => ""@,
    })
}

impl ObservationModel {
    /// Before the helper said anything.
    pub open spec fn start() -> ObservationModel {
        ObservationModel { ready: ReadinessModel::Pending, target: None, final_outcome: None, committed: false }
    }

    /// Why a message cannot come now, if it cannot.
    pub open spec fn protocol_failure(self, message: MessageModel) -> Option<Seq<char>> {
        match message {
            MessageModel::Ready { process_id } => if self.ready is Pending {
                None
            } else {
                Some("standalone helper sent duplicate ready"@)
            },
            MessageModel::Committed => if !(self.ready is Ready) {
                Some("standalone helper committed before ready"@)
            } else if self.committed {
                Some("standalone helper sent duplicate launch commit"@)
            } else {
                None
            },
            MessageModel::RootExited(_) => if !(self.ready is Ready) || !self.committed {
                Some("standalone helper reported root exit before launch commit"@)
            } else {
                None
            },
            MessageModel::Final(_) => if !(self.ready is Ready) || !self.committed {
                Some("standalone helper reported final outcome before launch commit"@)
            } else {
                None
            },
            MessageModel::Error { stage, message, windows_error_code } => Some(
                reported_failure(stage, message, windows_error_code),
            ),
        }
    }

    /// What is known after a message that can come now.
    pub open spec fn with_message(self, message: MessageModel) -> ObservationModel {
        match message {
            MessageModel::Ready { process_id } => ObservationModel { ready: ReadinessModel::Ready(process_id), ..self },
            MessageModel::Committed => ObservationModel { committed: true, ..self },
            MessageModel::RootExited(target) => ObservationModel { target: Some(target), ..self },
            MessageModel::Final(outcome) => ObservationModel {
                target: if self.target is Some {
                    self.target
                } else {
                    Some(outcome.target)
                },
                final_outcome: Some(outcome),
                ..self
            },
            MessageModel::Error { .. } => self,
        }
    }

    /// What is known once the helper could not be followed any further.
    pub open spec fn after_failure(self, message: Seq<char>) -> ObservationModel {
        let target = match self.target {
            Some(target) => target,
            None => RootOutcomeModel::Unknown { error: message },
        };
        ObservationModel {
            ready: if self.ready is Pending {
                ReadinessModel::Failed(message)
            } else {
                self.ready
            },
            target: Some(target),
            final_outcome: Some(crate::windows::standalone::outcome::unobserved(target, message)),
            ..self
        }
    }

    /// What is known after a wait for the target. One that times out decides that the
    /// target is not there.
    pub open spec fn after_ready_wait(self, timed_out: bool) -> ObservationModel {
        if self.ready is Pending && timed_out {
            ObservationModel { ready: ReadinessModel::Failed(startup_timeout()), ..self }
        } else {
            self
        }
    }

    /// What the observations keep: the target does not run before it is committed, and
    /// nothing commits it before it is there; an end is known with the target's outcome.
    pub open spec fn well_formed(self) -> bool {
        &&& self.committed ==> self.ready is Ready
        &&& self.final_outcome is Some ==> self.target is Some
        &&& self.target is Some && !self.committed ==> self.final_outcome is Some
    }
}

impl Observation {
    /// Before the helper said anything.
    pub fn new() -> (result: Self)
        ensures
            result@ == ObservationModel::start(),
            result@.well_formed(),
    {
        Observation { ready: Readiness::Pending, target: None, final_outcome: None, committed: false }
    }

    /// Takes a message of the helper. The result is whether it was the last one, or why
    /// the helper is not followed any further.
    pub fn observe_helper(&mut self, message: HelperMessage) -> (result: Result<bool, Failure>)
        ensures
            match old(self)@.protocol_failure(message@) {
                Some(expected) => {
                    &&& result matches Err(failure) && failure@ == FailureModel::plain(expected)
                    &&& final(self)@ == old(self)@
                },
                None => {
                    &&& result matches Ok(finished) && finished == (message@ is Final)
                    &&& final(self)@ == old(self)@.with_message(message@)
                },
            },
    {
        let ready = match &self.ready {
            Readiness::Ready(_) => true,
            _ => false,
        };
        match message {
            HelperMessage::Ready { process_id } => {
                match &self.ready {
                    Readiness::Pending => {},
                    _ => {
                        return Err(Failure::new("standalone helper sent duplicate ready"));
                    },
                }
                self.ready = Readiness::Ready(process_id);
                Ok(false)
            },
            HelperMessage::Committed => {
                if !ready {
                    return Err(Failure::new("standalone helper committed before ready"));
                }
                if self.committed {
                    return Err(Failure::new("standalone helper sent duplicate launch commit"));
                }
                self.committed = true;
                Ok(false)
            },
            HelperMessage::RootExited(target) => {
                if !ready || !self.committed {
                    return Err(Failure::new("standalone helper reported root exit before launch commit"));
                }
                self.target = Some(target);
                Ok(false)
            },
            HelperMessage::Final(outcome) => {
                if !ready || !self.committed {
                    return Err(Failure::new("standalone helper reported final outcome before launch commit"));
                }
                if self.target.is_none() {
                    self.target = Some(outcome.target.clone());
                }
                self.final_outcome = Some(outcome);
                Ok(true)
            },
            HelperMessage::Error { stage, message, windows_error_code } => {
                let detail = match windows_error_code {
                    Some(code) => {
                        let digits = decimal_string(code as u64);
                        concat3(" (Windows error ", digits.as_str(), ")")
                    },
                    None => "".to_owned(),
                };
                let text = concat5(
                    "standalone helper failed during ",
                    stage.as_str(),
                    ": ",
                    message.as_str(),
                    detail.as_str(),
                );
                Err(Failure::new(text.as_str()))
            },
        }
    }

    /// The failure of a channel that the helper closed early.
    pub fn closed_early() -> (result: Failure)
        ensures
            result@ == FailureModel::plain("standalone helper control channel closed before final outcome"@),
    {
        Failure::new("standalone helper control channel closed before final outcome")
    }

    /// Records that the helper is not followed any further. It is retired before that.
    pub fn observation_failed(&mut self, failure: &Failure)
        ensures
            final(self)@ == old(self)@.after_failure(failure@.chain()),
    {
        let message = failure.chain();
        match &self.ready {
            Readiness::Pending => {
                self.ready = Readiness::Failed(message.clone());
            },
            _ => {},
        }
        let target = match &self.target {
            Some(target) => target.clone(),
            None => WindowsSandboxStandaloneRootOutcome::Unknown { error: message.clone() },
        };
        self.target = Some(target.clone());
        self.final_outcome = Some(unobserved_outcome(target, message));
    }

    /// Records that the spawn request could not be sent.
    pub fn spawn_not_sent(&mut self, failure: &Failure)
        ensures
            final(self)@ == (ObservationModel {
                ready: if old(self)@.ready is Pending {
                    ReadinessModel::Failed("send standalone target spawn request: "@ + failure@.chain())
                } else {
                    old(self)@.ready
                },
                ..old(self)@
            }),
    {
        match &self.ready {
            Readiness::Pending => {
                let chain = failure.chain();
                self.ready = Readiness::Failed(concat2("send standalone target spawn request: ", chain.as_str()));
            },
            _ => {},
        }
    }

    /// Whether the target is there. Where time is up and the helper said nothing, the
    /// launch has failed, and the helper is to be retired.
    fn wait_ready(&mut self, timed_out: bool) -> (result: ReadyProgress)
        ensures
            is_ready_progress(old(self)@, timed_out, result),
            final(self)@ == old(self)@.after_ready_wait(timed_out),
    {
        match &self.ready {
            Readiness::Ready(process_id) => ReadyProgress::Ready(*process_id),
            Readiness::Failed(message) => ReadyProgress::Failed(Failure::new(message.as_str())),
            Readiness::Pending => {
                if timed_out {
                    self.ready = Readiness::Failed("timed out waiting for standalone helper startup".to_owned());
                    ReadyProgress::TimedOut(Failure::new("timed out waiting for standalone helper startup"))
                } else {
                    ReadyProgress::Pending
                }
            },
        }
    }

    /// Whether the launch is committed. Where the wait for it timed out, the helper is
    /// to be retired.
    fn commit_progress(&self, timed_out: bool) -> (result: CommitProgress)
        ensures
            is_commit_progress(self@, timed_out, result),
    {
        if self.committed {
            return CommitProgress::Committed;
        }
        if timed_out {
            return CommitProgress::TimedOut(
                Failure::new("timed out waiting for standalone target launch commit"),
            );
        }
        match &self.final_outcome {
            Some(outcome) => {
                match &outcome.infrastructure_error {
                    Some(error) => CommitProgress::Failed(Failure::new(error.as_str())),
                    None => CommitProgress::Failed(Failure::new("standalone helper exited before launch commit")),
                }
            },
            None => CommitProgress::Pending,
        }
    }

    /// The target's outcome, once it is known.
    pub fn try_root_outcome(&self) -> (result: Option<WindowsSandboxStandaloneRootOutcome>)
        ensures
            result.deep_view() == self@.target,
    {
        match &self.target {
            Some(target) => Some(target.clone()),
            None => None,
        }
    }

    /// The final outcome, once it is known.
    pub fn try_outcome(&self) -> (result: Option<WindowsSandboxStandaloneOutcome>)
        ensures
            result.deep_view() == self@.final_outcome,
    {
        match &self.final_outcome {
            Some(outcome) => Some(outcome.clone()),
            None => None,
        }
    }
}

/// The message of a helper that did not start the target in time.
pub open spec fn startup_timeout() -> Seq<char> {
    "timed out waiting for standalone helper startup"@
}

/// How the wait for the target goes on.
#[derive(Debug)]
pub enum ReadyProgress {
    Ready(u32),
    Failed(Failure),
    Pending,
    TimedOut(Failure),
}

/// How the wait for the launch commit goes on.
#[derive(Debug)]
pub enum CommitProgress {
    Committed,
    Failed(Failure),
    Pending,
    TimedOut(Failure),
}

/// Whether this is how the wait for the target goes on.
pub open spec fn is_ready_progress(observation: ObservationModel, timed_out: bool, progress: ReadyProgress) -> bool {
    match observation.ready {
        ReadinessModel::Ready(process_id) => progress == ReadyProgress::Ready(process_id),
        ReadinessModel::Failed(message) => progress matches ReadyProgress::Failed(failure) && failure@
            == FailureModel::plain(message),
        ReadinessModel::Pending => if timed_out {
            progress matches ReadyProgress::TimedOut(failure) && failure@ == FailureModel::plain(startup_timeout())
        } else {
            progress is Pending
        },
    }
}

/// Whether this is how the wait for the launch commit goes on.
pub open spec fn is_commit_progress(observation: ObservationModel, timed_out: bool, progress: CommitProgress) -> bool {
    if observation.committed {
        progress is Committed
    } else if timed_out {
        progress matches CommitProgress::TimedOut(failure) && failure@ == FailureModel::plain(
            "timed out waiting for standalone target launch commit"@,
        )
    } else {
        match observation.final_outcome {
            Some(outcome) => progress matches CommitProgress::Failed(failure) && failure@ == FailureModel::plain(
                match outcome.infrastructure_error {
                    Some(error) => error,
                    None => "standalone helper exited before launch commit"@,
                },
            ),
            None => progress is Pending,
        }
    }
}

/// A message never breaks what the observations keep.
pub proof fn messages_keep_observations_well_formed(observation: ObservationModel, message: MessageModel)
    requires
        observation.well_formed(),
        observation.protocol_failure(message) is None,
    ensures
        observation.with_message(message).well_formed(),
{
}

/// Nor does any failure.
pub proof fn failures_keep_observations_well_formed(observation: ObservationModel, message: Seq<char>)
    requires
        observation.well_formed(),
    ensures
        observation.after_failure(message).well_formed(),
{
}

/// The helper is only believed about the target's exit and the final outcome after it
/// reported the target ready and then committed.
pub proof fn exit_is_only_accepted_after_commit(observation: ObservationModel, message: MessageModel)
    requires
        observation.protocol_failure(message) is None,
        message is RootExited || message is Final,
    ensures
        observation.ready is Ready,
        observation.committed,
{
}

/// What is once known stays: a target that is ready, a commit, and a reported exit are
/// not taken back by a failure.
pub proof fn failures_take_nothing_back(observation: ObservationModel, message: Seq<char>)
    ensures
        observation.ready !is Pending ==> observation.after_failure(message).ready == observation.ready,
        observation.target is Some ==> observation.after_failure(message).target == observation.target,
        observation.after_failure(message).committed == observation.committed,
        observation.after_failure(message).final_outcome matches Some(outcome) && outcome.infrastructure_error
            == Some(message) && !outcome.retirement.complete,
{
}

/// Controller for one standalone Windows target generation.
#[derive(Debug)]
pub struct WindowsSandboxStandaloneProcess {
    pub observation: Observation,
    /// Whether the commit of the launch was claimed.
    pub commit_sent: bool,
    /// Whether the control channel is open.
    pub control_open: bool,
    /// Whether the launch holds the policy lease.
    pub lease_held: bool,
}

impl WindowsSandboxStandaloneProcess {
    /// A launch whose helper was started under the policy lease.
    pub fn new() -> (result: Self)
        ensures
            result.observation@ == ObservationModel::start(),
            !result.commit_sent,
            result.control_open,
            result.lease_held,
    {
        WindowsSandboxStandaloneProcess {
            observation: Observation::new(),
            commit_sent: false,
            control_open: true,
            lease_held: true,
        }
    }

    /// Releases exclusive ownership of the shared Windows policy state. The result is
    /// whether there is a lease to release.
    ///
    /// Embedding supervisors call this only after full native retirement and
    /// proxy cleanup, immediately before publishing the final outcome.
    pub fn release_policy_lease(&mut self) -> (result: bool)
        ensures
            result == old(self).lease_held,
            !final(self).lease_held,
            final(self).observation == old(self).observation,
            final(self).commit_sent == old(self).commit_sent,
            final(self).control_open == old(self).control_open,
    {
        let held = self.lease_held;
        self.lease_held = false;
        held
    }

    /// Closes the control channel, which makes the helper retire the target.
    pub fn fail_safe_retire(&mut self)
        ensures
            !final(self).control_open,
            final(self).observation == old(self).observation,
            final(self).commit_sent == old(self).commit_sent,
            final(self).lease_held == old(self).lease_held,
    {
        self.control_open = false;
    }

    /// Waits until the helper confirms that the target exists suspended in the
    /// non-breakaway Job Object. Failure still consumes this launch attempt, and one for
    /// want of time closes the control channel.
    pub fn wait_ready(&mut self, timed_out: bool) -> (result: ReadyProgress)
        ensures
            is_ready_progress(old(self).observation@, timed_out, result),
            final(self).observation@ == old(self).observation@.after_ready_wait(timed_out),
            final(self).control_open == (old(self).control_open && !(result is TimedOut)),
            final(self).commit_sent == old(self).commit_sent,
            final(self).lease_held == old(self).lease_held,
    {
        let progress = self.observation.wait_ready(timed_out);
        match &progress {
            ReadyProgress::TimedOut(_) => {
                self.control_open = false;
            },
            _ => {},
        }
        progress
    }

    /// Commits a prepared suspended launch after the embedding owner has installed
    /// supervision: claims the one commit and gives the message to send for it. The
    /// target cannot execute before that message.
    pub fn commit_launch(&mut self) -> (result: Result<ParentMessage, Failure>)
        ensures
            commits(*old(self), result, *final(self)),
            final(self).commit_sent,
            final(self).observation == old(self).observation,
            final(self).control_open == old(self).control_open,
            final(self).lease_held == old(self).lease_held,
            if old(self).commit_sent {
                result matches Err(failure) && failure@ == FailureModel::plain(
                    "standalone target launch was already committed"@,
                )
            } else if !old(self).control_open {
                result matches Err(failure) && failure@ == FailureModel::plain(
                    "standalone control channel is closed"@,
                )
            } else {
                result matches Ok(message) && message is CommitLaunch
            },
    {
        if self.commit_sent {
            return Err(Failure::new("standalone target launch was already committed"));
        }
        self.commit_sent = true;
        if !self.control_open {
            return Err(Failure::new("standalone control channel is closed"));
        }
        Ok(ParentMessage::CommitLaunch)
    }

    /// Whether the launch is committed. A wait for it that timed out closes the control
    /// channel.
    pub fn wait_committed(&mut self, timed_out: bool) -> (result: CommitProgress)
        ensures
            is_commit_progress(old(self).observation@, timed_out, result),
            final(self).observation == old(self).observation,
            final(self).control_open == (old(self).control_open && !(result is TimedOut)),
            final(self).commit_sent == old(self).commit_sent,
            final(self).lease_held == old(self).lease_held,
    {
        let progress = self.observation.commit_progress(timed_out);
        match &progress {
            CommitProgress::TimedOut(_) => {
                self.control_open = false;
            },
            _ => {},
        }
        progress
    }

    /// Requests immediate full-job termination: gives the message to send for it.
    /// Windows interrupt projection is deliberately not claimed by this standalone
    /// boundary.
    pub fn force_terminate(&self, force_stop_timeout_millis: u128) -> (result: Result<ParentMessage, Failure>)
        ensures
            is_termination_request(self.control_open, force_stop_timeout_millis, result),
    {
        if !self.control_open {
            return Err(Failure::new("standalone control channel is closed"));
        }
        let force_stop_timeout_ms: u64 = duration_millis(force_stop_timeout_millis, "force-stop timeout")?;
        Ok(ParentMessage::ForceTerminate { force_stop_timeout_ms })
    }

    /// The target's outcome, once it is known.
    pub fn try_root_outcome(&self) -> (result: Option<WindowsSandboxStandaloneRootOutcome>)
        ensures
            result.deep_view() == self.observation@.target,
    {
        self.observation.try_root_outcome()
    }

    /// The final outcome, once it is known.
    pub fn try_outcome(&self) -> (result: Option<WindowsSandboxStandaloneOutcome>)
        ensures
            result.deep_view() == self.observation@.final_outcome,
    {
        self.observation.try_outcome()
    }
}

/// Whether this is the request for a termination, or why there is none.
pub open spec fn is_termination_request(
    control_open: bool,
    force_stop_timeout_millis: u128,
    requested: Result<ParentMessage, Failure>,
) -> bool {
    if !control_open {
        requested matches Err(failure) && failure@ == FailureModel::plain("standalone control channel is closed"@)
    } else {
        match wait_range_failure(force_stop_timeout_millis, "force-stop timeout"@) {
            Some(expected) => requested matches Err(failure) && failure@ == expected,
            None => requested == Ok::<ParentMessage, Failure>(
                ParentMessage::ForceTerminate { force_stop_timeout_ms: force_stop_timeout_millis as u64 },
            ),
        }
    }
}

/// A launch is committed at most once: of two attempts, one at most gives a message.
pub proof fn launches_are_committed_once(
    before: WindowsSandboxStandaloneProcess,
    first: Result<ParentMessage, Failure>,
    between: WindowsSandboxStandaloneProcess,
    second: Result<ParentMessage, Failure>,
    after: WindowsSandboxStandaloneProcess,
)
    requires
        commits(before, first, between),
        commits(between, second, after),
    ensures
        !(first is Ok && second is Ok),
        second is Err,
{
}

/// What an attempt to commit a launch does to it.
pub open spec fn commits(
    before: WindowsSandboxStandaloneProcess,
    attempt: Result<ParentMessage, Failure>,
    after: WindowsSandboxStandaloneProcess,
) -> bool {
    &&& after.commit_sent
    &&& attempt is Ok <==> !before.commit_sent && before.control_open
}

/// The failure of a commit that could not be sent. The helper is retired before that.
pub fn commit_not_sent(failure: Failure) -> (result: Failure)
    ensures
        result@ == failure@.within("commit standalone target launch"@),
{
    failure.within("commit standalone target launch")
}

/// Whether a helper is still there once the wait for its retirement is over.
pub open spec fn outlives_its_channel(waited: u32) -> bool {
    waited == WAIT_TIMEOUT
}

/// Whether a helper whose control channel was closed must be terminated, by how the
/// wait for it ended.
pub fn must_terminate_helper(waited: u32) -> (result: bool)
    ensures
        result == outlives_its_channel(waited),
{
    waited == WAIT_TIMEOUT
}

/// Why a launch does not go with its network setup, if it does not.
pub open spec fn launch_network_failure(network: NetworkSetupModel, restricted: bool) -> Option<FailureModel> {
    match network.identity {
        WindowsSandboxStandaloneNetworkIdentity::Online => if restricted {
            Some(FailureModel::plain("unrestricted networking cannot use a proxy restricting SID"@))
        } else {
            None
        },
        WindowsSandboxStandaloneNetworkIdentity::Offline => if restricted && network.proxy_ports.len() == 0 {
            Some(FailureModel::plain("managed-proxy restriction requires an explicit proxy port"@))
        } else if !restricted && (network.proxy_ports.len() > 0 || network.allow_local_binding) {
            Some(FailureModel::plain("offline network exceptions require a proxy restricting SID"@))
        } else {
            None
        },
    }
}

/// Checks that a launch goes with its network setup. The setup was validated before.
pub fn validate_launch_network(network: &WindowsSandboxStandaloneNetworkSetup, restricted: bool) -> (result: Result<
    (),
    Failure,
>)
    requires
        crate::windows::standalone::setup::network_setup_failure(network@) is None,
    ensures
        match launch_network_failure(network@, restricted) {
            Some(expected) => result matches Err(failure) && failure@ == expected,
            None => result is Ok,
        },
{
    let no_ports = network.proxy_ports.len() == 0;
    match network.identity {
        WindowsSandboxStandaloneNetworkIdentity::Online => {
            if restricted {
                return Err(Failure::new("unrestricted networking cannot use a proxy restricting SID"));
            }
        },
        WindowsSandboxStandaloneNetworkIdentity::Offline => {
            if restricted && no_ports {
                return Err(Failure::new("managed-proxy restriction requires an explicit proxy port"));
            }
            if !restricted && (!no_ports || network.allow_local_binding) {
                return Err(Failure::new("offline network exceptions require a proxy restricting SID"));
            }
        },
    }
    Ok(())
}

/// An operation of a launch, once it was validated.
#[derive(Clone, Copy, Debug, PartialEq, Eq, Structural)]
pub enum LaunchStage {
    /// Acquire the exclusive lease of the machine-global policy.
    AcquireLease,
    VerifyNetwork,
    RefreshSetup,
    InspectState,
    /// Load the prepared credentials; succeeding means that there are some.
    LoadCredentials,
    ResolveCapabilities,
    SpawnHelper,
    StartObserver,
    BuildSpawnRequest,
    SendSpawnRequest,
}

/// How a launch goes on.
#[derive(Debug)]
pub enum LaunchStep {
    Perform(LaunchStage),
    /// The target-creation request was sent or may have been sent, so this launch is
    /// consumed. A failure to send it is kept for the observation.
    Launched { send_failure: Option<Failure> },
    /// Nothing was asked of a target. A helper that was started is retired.
    Refused { failure: Failure, retire_helper: bool },
}

/// What a [`LaunchStep`] holds.
pub enum LaunchStepModel {
    Perform(LaunchStage),
    Launched { send_failure: Option<FailureModel> },
    Refused { failure: FailureModel, retire_helper: bool },
}

impl DeepView for LaunchStep {
    type V = LaunchStepModel;

    open spec fn deep_view(&self) -> LaunchStepModel {
        match self {
            LaunchStep::Perform(stage) => LaunchStepModel::Perform(*stage),
            LaunchStep::Launched { send_failure } => LaunchStepModel::Launched {
                send_failure: send_failure.deep_view(),
            },
            LaunchStep::Refused { failure, retire_helper } => LaunchStepModel::Refused {
                failure: failure@,
                retire_helper: *retire_helper,
            },
        }
    }
}

impl View for LaunchStep {
    type V = LaunchStepModel;

    open spec fn view(&self) -> LaunchStepModel {
        self.deep_view()
    }
}

impl LaunchStage {
    /// The place of the operation.
    pub open spec fn rank(self) -> nat {
        match self {
            LaunchStage::AcquireLease => 0,
            LaunchStage::VerifyNetwork => 1,
            LaunchStage::RefreshSetup => 2,
            LaunchStage::InspectState => 3,
            LaunchStage::LoadCredentials => 4,
            LaunchStage::ResolveCapabilities => 5,
            LaunchStage::SpawnHelper => 6,
            LaunchStage::StartObserver => 7,
            LaunchStage::BuildSpawnRequest => 8,
            LaunchStage::SendSpawnRequest => 9,
        }
    }

    /// Whether an event can follow the operation.
    pub open spec fn expects(self, event: EventModel) -> bool {
        if self == LaunchStage::InspectState {
            event is Inspected
        } else {
            event is Succeeded || event is Failed
        }
    }
}

/// A refusal, which retires the helper where it was started before this operation.
pub open spec fn refused(stage: LaunchStage, failure: FailureModel) -> LaunchStepModel {
    LaunchStepModel::Refused { failure, retire_helper: stage.rank() > LaunchStage::SpawnHelper.rank() }
}

/// How a launch goes on after an operation.
pub open spec fn after_launching(stage: LaunchStage, event: EventModel) -> LaunchStepModel {
    match event {
        EventModel::Failed(failure) => match stage {
            LaunchStage::AcquireLease => refused(
                stage,
                failure.within("acquire Windows sandbox policy generation lease"@),
            ),
            LaunchStage::VerifyNetwork => refused(
                stage,
                failure.within("verify machine-global Windows sandbox firewall policy"@),
            ),
            LaunchStage::SendSpawnRequest => LaunchStepModel::Launched { send_failure: Some(failure) },
            _ => refused(stage, failure),
        },
        EventModel::Inspected(state) => if state == SetupStateModel::Ready {
            LaunchStepModel::Perform(LaunchStage::LoadCredentials)
        } else {
            refused(
                stage,
                FailureModel::plain(
                    "standalone Windows setup changed before the policy lease was acquired: "@ + state.text(),
                ),
            )
        },
        EventModel::Succeeded => match stage {
            LaunchStage::AcquireLease => LaunchStepModel::Perform(LaunchStage::VerifyNetwork),
            LaunchStage::VerifyNetwork => LaunchStepModel::Perform(LaunchStage::RefreshSetup),
            LaunchStage::RefreshSetup => LaunchStepModel::Perform(LaunchStage::InspectState),
            LaunchStage::InspectState => LaunchStepModel::Perform(LaunchStage::LoadCredentials),
            LaunchStage::LoadCredentials => LaunchStepModel::Perform(LaunchStage::ResolveCapabilities),
            LaunchStage::ResolveCapabilities => LaunchStepModel::Perform(LaunchStage::SpawnHelper),
            LaunchStage::SpawnHelper => LaunchStepModel::Perform(LaunchStage::StartObserver),
            LaunchStage::StartObserver => LaunchStepModel::Perform(LaunchStage::BuildSpawnRequest),
            LaunchStage::BuildSpawnRequest => LaunchStepModel::Perform(LaunchStage::SendSpawnRequest),
            LaunchStage::SendSpawnRequest => LaunchStepModel::Launched { send_failure: None },
        },
    }
}

/// Why a launch is refused before anything is done for it, if it is: its setup, its
/// command, its network and its directory are checked in that order.
pub open spec fn launch_failure(
    request: WindowsSandboxStandaloneLaunchRequest,
    resources: Result<(), Failure>,
    probes: PathProbes,
    program_is_file: bool,
    cwd_is_directory: bool,
    same_directory: bool,
) -> Option<FailureModel> {
    let setup = match resources {
        Err(failure) => Some(failure@),
        Ok(_) => crate::windows::standalone::setup::request_failure(request.setup@, probes),
    };
    let command = crate::windows::standalone::command::standalone_command_failure(
        request.command@,
        program_is_file,
        cwd_is_directory,
    );
    let network = launch_network_failure(
        request.setup@.network,
        request.network_proxy_restricting_sid is Some,
    );
    if setup is Some {
        setup
    } else if command is Some {
        command
    } else if network is Some {
        network
    } else if !same_directory {
        Some(FailureModel::plain("launch working directory differs from the refreshed setup policy"@))
    } else {
        None
    }
}

/// Checks a launch before anything is done for it. Only one that is in order goes on, to
/// the policy lease. `resources` is the outcome of verifying the helpers, and
/// `same_directory` tells whether the command and the setup name the same directory.
pub fn begin_launch(
    request: &WindowsSandboxStandaloneLaunchRequest,
    resources: Result<(), Failure>,
    probes: &PathProbes,
    program_is_file: bool,
    cwd_is_directory: bool,
    same_directory: bool,
) -> (result: LaunchStep)
    requires
        probes.answer(request.setup@),
    ensures
        result@ == match launch_failure(
            *request,
            resources,
            *probes,
            program_is_file,
            cwd_is_directory,
            same_directory,
        ) {
            Some(failure) => LaunchStepModel::Refused { failure, retire_helper: false },
            None => LaunchStepModel::Perform(LaunchStage::AcquireLease),
        },
{
    if let Err(failure) = validate_setup_request(&request.setup, resources, probes) {
        return LaunchStep::Refused { failure, retire_helper: false };
    }
    if let Err(failure) = request.command.validate(program_is_file, cwd_is_directory) {
        return LaunchStep::Refused { failure, retire_helper: false };
    }
    let restricted = request.network_proxy_restricting_sid.is_some();
    if let Err(failure) = validate_launch_network(&request.setup.network, restricted) {
        return LaunchStep::Refused { failure, retire_helper: false };
    }
    if !same_directory {
        return LaunchStep::Refused {
            failure: Failure::new("launch working directory differs from the refreshed setup policy"),
            retire_helper: false,
        };
    }
    LaunchStep::Perform(LaunchStage::AcquireLease)
}

/// A launch that goes on has either no network exception at all, or both a restricting
/// SID and a proxy port under the offline identity; and it starts in the directory of its
/// setup.
pub proof fn launches_have_a_consistent_network(
    request: WindowsSandboxStandaloneLaunchRequest,
    resources: Result<(), Failure>,
    probes: PathProbes,
    program_is_file: bool,
    cwd_is_directory: bool,
    same_directory: bool,
)
    requires
        probes.answer(request.setup@),
        launch_failure(request, resources, probes, program_is_file, cwd_is_directory, same_directory) is None,
    ensures
        ({
            let network = request.setup@.network;
            let restricted = request.network_proxy_restricting_sid is Some;
            ||| !restricted && network.proxy_ports.len() == 0 && !network.allow_local_binding
            ||| restricted && network.proxy_ports.len() > 0 && network.identity
                == WindowsSandboxStandaloneNetworkIdentity::Offline
        }),
        resources is Ok,
        same_directory,
{
}

/// Launches one target through the prepared elevated Windows sandbox account: decides
/// how a launch that [`begin_launch`] let through goes on after an operation.
///
/// The caller must install supervision, wait until the target is ready, and only commit
/// the launch after that.
pub fn spawn_windows_sandbox_standalone(stage: LaunchStage, event: HostEvent) -> (result: LaunchStep)
    requires
        stage.expects(event@),
    ensures
        result@ == after_launching(stage, event@),
{
    let retire_helper = match stage {
        LaunchStage::StartObserver => true,
        LaunchStage::BuildSpawnRequest => true,
        LaunchStage::SendSpawnRequest => true,
        _ => false,
    };
    match event {
        HostEvent::Failed(failure) => {
            match stage {
                LaunchStage::AcquireLease => LaunchStep::Refused {
                    failure: failure.within("acquire Windows sandbox policy generation lease"),
                    retire_helper,
                },
                LaunchStage::VerifyNetwork => LaunchStep::Refused {
                    failure: failure.within("verify machine-global Windows sandbox firewall policy"),
                    retire_helper,
                },
                LaunchStage::SendSpawnRequest => LaunchStep::Launched { send_failure: Some(failure) },
                _ => LaunchStep::Refused { failure, retire_helper },
            }
        },
        HostEvent::Inspected(WindowsSandboxStandaloneSetupState::Ready) => LaunchStep::Perform(
            LaunchStage::LoadCredentials,
        ),
        HostEvent::Inspected(state) => {
            let shown = state.text();
            let message = concat2(
                "standalone Windows setup changed before the policy lease was acquired: ",
                shown.as_str(),
            );
            LaunchStep::Refused { failure: Failure::new(message.as_str()), retire_helper }
        },
        HostEvent::Succeeded => {
            match stage {
                LaunchStage::AcquireLease => LaunchStep::Perform(LaunchStage::VerifyNetwork),
                LaunchStage::VerifyNetwork => LaunchStep::Perform(LaunchStage::RefreshSetup),
                LaunchStage::RefreshSetup => LaunchStep::Perform(LaunchStage::InspectState),
                LaunchStage::InspectState => LaunchStep::Perform(LaunchStage::LoadCredentials),
                LaunchStage::LoadCredentials => LaunchStep::Perform(LaunchStage::ResolveCapabilities),
                LaunchStage::ResolveCapabilities => LaunchStep::Perform(LaunchStage::SpawnHelper),
                LaunchStage::SpawnHelper => LaunchStep::Perform(LaunchStage::StartObserver),
                LaunchStage::StartObserver => LaunchStep::Perform(LaunchStage::BuildSpawnRequest),
                LaunchStage::BuildSpawnRequest => LaunchStep::Perform(LaunchStage::SendSpawnRequest),
                LaunchStage::SendSpawnRequest => LaunchStep::Launched { send_failure: None },
            }
        },
    }
}

/// The failure of a launch without prepared credentials.
pub fn credentials_unavailable() -> (result: Failure)
    ensures
        result@ == FailureModel::plain("prepared standalone sandbox credentials are unavailable"@),
{
    Failure::new("prepared standalone sandbox credentials are unavailable")
}

/// A launch passes every operation in order, and goes on only where the one before
/// succeeded. So a helper only starts under the lease, with a verified network policy
/// and a refreshed, ready setup, and a target is only asked for after that.
pub proof fn launches_pass_every_operation(stage: LaunchStage, event: EventModel)
    requires
        stage.expects(event),
    ensures
        after_launching(stage, event) matches LaunchStepModel::Perform(next) ==> {
            &&& next.rank() == stage.rank() + 1
            &&& event is Succeeded || event == EventModel::Inspected(SetupStateModel::Ready)
        },
        after_launching(stage, event) is Launched ==> stage == LaunchStage::SendSpawnRequest,
{
}

/// A duration can be waited for exactly where its milliseconds fit the host's own type.
pub proof fn waits_fit_the_host(millis: u128, label: Seq<char>)
    ensures
        wait_range_failure(millis, label) is None <==> millis <= 0xffff_ffff,
{
}

/// A termination is asked for exactly while the channel is open and the host can wait as
/// long, and asks for the job's forced end within that time.
pub proof fn terminations_are_asked_for_on_open_channels(
    control_open: bool,
    force_stop_timeout_millis: u128,
    requested: Result<ParentMessage, Failure>,
)
    requires
        is_termination_request(control_open, force_stop_timeout_millis, requested),
    ensures
        requested is Ok <==> control_open && force_stop_timeout_millis <= 0xffff_ffff,
        requested matches Ok(message) ==> (message matches ParentMessage::ForceTerminate { force_stop_timeout_ms }
            && force_stop_timeout_ms == force_stop_timeout_millis),
{
}

/// A setup without a writable root restricts its target to the read-only capability. Any
/// other has a capability for the place of each writable root, and for nothing else.
pub proof fn capabilities_are_those_of_the_writable_roots(
    capabilities: CapabilityRequest,
    write_roots: Seq<PathModel>,
    index: int,
)
    requires
        are_capabilities_of(capabilities, write_roots),
    ensures
        capabilities is ReadOnly <==> write_roots.len() == 0,
        token_mode_of(write_roots) is ReadOnly <==> write_roots.len() == 0,
        token_mode_of(write_roots) is WritableRoots <==> write_roots.len() > 0,
        capabilities matches CapabilityRequest::Roots(roots) ==> {
            &&& 0 <= index < roots.deep_view().len() ==> write_roots.contains(roots.deep_view()[index])
            &&& 0 <= index < write_roots.len() ==> exists|root: int|
                0 <= root < roots.deep_view().len() && crate::order::path_key(#[trigger] roots.deep_view()[root])
                    == crate::order::path_key(write_roots[index])
        },
{
    if capabilities is Roots {
        let roots = capabilities->Roots_0.deep_view();
        if 0 <= index < roots.len() {
            assert(crate::order::comes_first_in(write_roots, roots[index]));
        }
        if 0 <= index < write_roots.len() {
            assert(crate::order::has_place_of(roots, write_roots[index]));
        }
    }
}

/// The request that starts a target carries the command as it was put on the wire, each
/// stream in its own place, and the restrictions and times that were asked for.
pub proof fn spawn_requests_carry_what_was_asked(
    wire: WireCommand,
    request: WindowsSandboxStandaloneLaunchRequest,
    capability_sids: Seq<Seq<char>>,
    runner_sid: Seq<char>,
    stdin: WireStream,
    stdout: WireStream,
    stderr: WireStream,
    spawn: WireSpawnRequest,
)
    requires
        spawn@ == spawn_model(wire, request, capability_sids, runner_sid, stdin, stdout, stderr),
        request.descendant_grace_millis <= 0xffff_ffff,
        request.force_stop_timeout_millis <= 0xffff_ffff,
    ensures
        spawn.program@ == wire.program@,
        spawn.args.deep_view() == wire.args.deep_view(),
        spawn.environment.deep_view() == wire.environment.deep_view(),
        spawn.cwd@ == wire.cwd@,
        spawn.state_dir@ == wire.state_dir@,
        spawn.token_mode is ReadOnly <==> request.setup.write_roots@.len() == 0,
        spawn.capability_sids.deep_view() == capability_sids,
        spawn.network_proxy_restricting_sid.deep_view() == request.network_proxy_restricting_sid.deep_view(),
        spawn.runner_sid@ == runner_sid,
        spawn.stdin == stdin,
        spawn.stdout == stdout,
        spawn.stderr == stderr,
        spawn.use_private_desktop == request.use_private_desktop,
        spawn.descendant_grace_ms == request.descendant_grace_millis,
        spawn.force_stop_timeout_ms == request.force_stop_timeout_millis,
{
    assert(request.setup.write_roots.deep_view().len() == request.setup.write_roots@.len());
}

/// Nothing is asked of a target whose streams could not be handed over or whose times the
/// host cannot wait for.
pub proof fn spawn_requests_need_every_part(
    stdin: Result<WireStream, Failure>,
    stdout: Result<WireStream, Failure>,
    stderr: Result<WireStream, Failure>,
    request: WindowsSandboxStandaloneLaunchRequest,
)
    ensures
        spawn_failure(stdin, stdout, stderr, request) is None <==> {
            &&& stdin is Ok && stdout is Ok && stderr is Ok
            &&& request.descendant_grace_millis <= 0xffff_ffff
            &&& request.force_stop_timeout_millis <= 0xffff_ffff
        },
{
}

/// What is put on the wire is the whole command: as many arguments and variables, each the
/// units of its own value, in its own place.
pub proof fn wire_commands_are_whole(
    wire: WireCommand,
    command: StandaloneCommandModel,
    state_dir: NativeText,
    index: int,
)
    requires
        is_wire_form(wire, command, state_dir),
    ensures
        wire.program@ == crate::windows::standalone::wire::wide_units(command.program.text),
        wire.cwd@ == crate::windows::standalone::wire::wide_units(command.cwd.text),
        wire.state_dir@ == crate::windows::standalone::wire::wide_units(state_dir),
        wire.args@.len() == command.args.len(),
        wire.environment@.len() == command.environment.len(),
        0 <= index < command.args.len() ==> wire.args@[index]@ == crate::windows::standalone::wire::wide_units(
            command.args[index],
        ),
        0 <= index < command.environment.len() ==> {
            &&& wire.environment@[index].0@ == crate::windows::standalone::wire::wide_units(
                command.environment[index].0,
            )
            &&& wire.environment@[index].1@ == crate::windows::standalone::wire::wide_units(
                command.environment[index].1,
            )
        },
{
    assert(wire.args.deep_view().len() == wire.args@.len());
    assert(wire.environment.deep_view().len() == wire.environment@.len());
    if 0 <= index < command.args.len() {
        assert(wire.args.deep_view()[index] == units_of_all(command.args)[index]);
    }
    if 0 <= index < command.environment.len() {
        assert(wire.environment.deep_view()[index] == units_of_variables(command.environment)[index]);
    }
}

/// A stream hands over the handle that it names, where that is one; the null device needs
/// none.
pub proof fn streams_hand_over_their_own_handle(source: WindowsSandboxStandaloneStream, label: Seq<char>)
    ensures
        match source {
            WindowsSandboxStandaloneStream::Null => source_handle(source, label) == Ok::<Option<i64>, FailureModel>(
                None,
            ),
            WindowsSandboxStandaloneStream::Inherited(handle) => {
                &&& source_handle(source, label) is Err <==> handle == 0 || handle == -1
                &&& source_handle(source, label) matches Ok(handed) ==> handed == Some(handle)
            },
            WindowsSandboxStandaloneStream::Passed(handle) => {
                &&& source_handle(source, label) is Err <==> handle == 0 || handle == -1
                &&& source_handle(source, label) matches Ok(handed) ==> handed == Some(handle)
            },
        },
{
}

/// The helper's environment is the system's own directories, where they are known, and its
/// temporary directory; nothing of the runner's environment is in it besides.
pub proof fn helper_environments_are_minimal(
    system_root: Option<NativeText>,
    windir: Option<NativeText>,
    temp: NativeText,
    entry: (NativeText, NativeText),
)
    ensures
        helper_environment(system_root, windir, temp).contains(entry) <==> {
            ||| entry.0 == NativeText::Unicode("SystemRoot"@) && system_root == Some(entry.1)
            ||| entry.0 == NativeText::Unicode("WINDIR"@) && windir == Some(entry.1)
            ||| entry.0 == NativeText::Unicode("TEMP"@) && entry.1 == temp
            ||| entry.0 == NativeText::Unicode("TMP"@) && entry.1 == temp
        },
{
    let environment = helper_environment(system_root, windir, temp);
    let none: Seq<(NativeText, NativeText)> = Seq::empty();
    let first = match system_root {
        Some(value) => none.push(variable("SystemRoot"@, value)),
        None => none,
    };
    let second = match windir {
        Some(value) => none.push(variable("WINDIR"@, value)),
        None => none,
    };
    if system_root is Some {
        assert(environment[0] == variable("SystemRoot"@, system_root->Some_0));
    }
    if windir is Some {
        assert(environment[first.len() as int] == variable("WINDIR"@, windir->Some_0));
    }
    assert(environment[(first.len() + second.len()) as int] == variable("TEMP"@, temp));
    assert(environment[(first.len() + second.len()) as int + 1] == variable("TMP"@, temp));
}

/// The helper is believed in one order only: the target is ready once, is committed once
/// after that, and its exit and the end come after the commit. An error ends it.
pub proof fn helper_messages_come_in_order(observation: ObservationModel, message: MessageModel)
    ensures
        observation.protocol_failure(message) is None <==> match message {
            MessageModel::Ready { .. } => observation.ready is Pending,
            MessageModel::Committed => observation.ready is Ready && !observation.committed,
            MessageModel::RootExited(_) => observation.ready is Ready && observation.committed,
            MessageModel::Final(_) => observation.ready is Ready && observation.committed,
            MessageModel::Error { .. } => false,
        },
{
}

/// Each message adds exactly what it says, and takes back nothing: a reported exit stands
/// even where the end says otherwise.
pub proof fn helper_messages_add_what_they_say(observation: ObservationModel, message: MessageModel)
    ensures
        ({
            let after = observation.with_message(message);
            &&& after.ready == (if let MessageModel::Ready { process_id } = message {
                ReadinessModel::Ready(process_id)
            } else {
                observation.ready
            })
            &&& after.committed == (observation.committed || message is Committed)
            &&& after.final_outcome == (if let MessageModel::Final(outcome) = message {
                Some(outcome)
            } else {
                observation.final_outcome
            })
            &&& message matches MessageModel::RootExited(target) ==> after.target == Some(target)
            &&& message matches MessageModel::Final(outcome) ==> after.target == (if observation.target is Some {
                observation.target
            } else {
                Some(outcome.target)
            })
            &&& !(message is RootExited) && !(message is Final) ==> after.target == observation.target
        }),
{
}

/// A wait for the target ends with what the helper said of it, and times out only where it
/// said nothing.
pub proof fn ready_waits_end_with_the_report(observation: ObservationModel, timed_out: bool, progress: ReadyProgress)
    requires
        is_ready_progress(observation, timed_out, progress),
    ensures
        progress matches ReadyProgress::Ready(process_id) ==> observation.ready == ReadinessModel::Ready(process_id),
        progress is Ready <==> observation.ready is Ready,
        progress is Failed <==> observation.ready is Failed,
        progress is TimedOut <==> observation.ready is Pending && timed_out,
        progress is Pending <==> observation.ready is Pending && !timed_out,
        observation.after_ready_wait(timed_out).ready is Failed <==> observation.ready is Failed || progress is TimedOut,
{
}

/// A wait for the commit ends well exactly where the helper confirmed it.
pub proof fn commit_waits_need_the_confirmation(
    observation: ObservationModel,
    timed_out: bool,
    progress: CommitProgress,
)
    requires
        is_commit_progress(observation, timed_out, progress),
    ensures
        progress is Committed <==> observation.committed,
        progress is TimedOut <==> !observation.committed && timed_out,
        progress is Failed <==> !observation.committed && !timed_out && observation.final_outcome is Some,
        progress is Pending <==> !observation.committed && !timed_out && observation.final_outcome is None,
{
}

/// A launch goes with its network exactly where the online account has no restricting SID,
/// or the offline one has it together with a proxy port, or has neither it nor any
/// exception.
pub proof fn restricting_sids_go_with_proxy_ports(network: NetworkSetupModel, restricted: bool)
    ensures
        launch_network_failure(network, restricted) is None <==> {
            ||| network.identity is Online && !restricted
            ||| network.identity is Offline && restricted && network.proxy_ports.len() > 0
            ||| network.identity is Offline && !restricted && network.proxy_ports.len() == 0
                && !network.allow_local_binding
        },
{
}

/// A launch begins exactly where its helpers were verified, its setup and its command are
/// valid, its network is consistent, and both name one directory.
pub proof fn launches_begin_when_everything_is_in_order(
    request: WindowsSandboxStandaloneLaunchRequest,
    resources: Result<(), Failure>,
    probes: PathProbes,
    program_is_file: bool,
    cwd_is_directory: bool,
    same_directory: bool,
)
    ensures
        launch_failure(request, resources, probes, program_is_file, cwd_is_directory, same_directory) is None <==> {
            &&& resources is Ok
            &&& crate::windows::standalone::setup::request_failure(request.setup@, probes) is None
            &&& crate::windows::standalone::command::standalone_command_failure(
                request.command@,
                program_is_file,
                cwd_is_directory,
            ) is None
            &&& launch_network_failure(request.setup@.network, request.network_proxy_restricting_sid is Some) is None
            &&& same_directory
        },
{
}

/// A launch passes its operations in one order. It is refused by the first failure, which
/// retires the helper where one runs; a failure to send the request consumes it instead.
pub proof fn launches_end_with_the_first_failure(stage: LaunchStage, event: EventModel)
    requires
        stage.expects(event),
    ensures
        ({
            let step = after_launching(stage, event);
            let succeeded = event is Succeeded || event == EventModel::Inspected(SetupStateModel::Ready);
            &&& succeeded ==> match stage {
                LaunchStage::AcquireLease => step == LaunchStepModel::Perform(LaunchStage::VerifyNetwork),
                LaunchStage::VerifyNetwork => step == LaunchStepModel::Perform(LaunchStage::RefreshSetup),
                LaunchStage::RefreshSetup => step == LaunchStepModel::Perform(LaunchStage::InspectState),
                LaunchStage::InspectState => step == LaunchStepModel::Perform(LaunchStage::LoadCredentials),
                LaunchStage::LoadCredentials => step == LaunchStepModel::Perform(LaunchStage::ResolveCapabilities),
                LaunchStage::ResolveCapabilities => step == LaunchStepModel::Perform(LaunchStage::SpawnHelper),
                LaunchStage::SpawnHelper => step == LaunchStepModel::Perform(LaunchStage::StartObserver),
                LaunchStage::StartObserver => step == LaunchStepModel::Perform(LaunchStage::BuildSpawnRequest),
                LaunchStage::BuildSpawnRequest => step == LaunchStepModel::Perform(LaunchStage::SendSpawnRequest),
                LaunchStage::SendSpawnRequest => step == LaunchStepModel::Launched { send_failure: None },
            }
            &&& !succeeded && !(stage is SendSpawnRequest) ==> (step matches LaunchStepModel::Refused {
                retire_helper,
                ..
            } && (retire_helper <==> stage is StartObserver || stage is BuildSpawnRequest))
            &&& !succeeded && stage is SendSpawnRequest ==> (step matches LaunchStepModel::Launched { send_failure }
                && send_failure is Some)
        }),
{
}

/// A command is put on the wire exactly where none of its values, and not the state
/// directory, holds a NUL.
pub proof fn wire_values_hold_no_nul(command: StandaloneCommandModel, state_dir: NativeText)
    ensures
        !command_has_nul(command, state_dir) <==> {
            &&& !command.program.text.has_nul()
            &&& !command.cwd.text.has_nul()
            &&& !state_dir.has_nul()
            &&& forall|index: int| 0 <= index < command.args.len() ==> !(#[trigger] command.args[index]).has_nul()
            &&& forall|index: int|
                0 <= index < command.environment.len() ==> !(#[trigger] command.environment[index]).0.has_nul()
                    && !command.environment[index].1.has_nul()
        },
{
}

/// A helper is terminated exactly where the wait for its own retirement timed out.
pub proof fn lasting_helpers_are_terminated(waited: u32)
    ensures
        outlives_its_channel(waited) <==> waited == 0x102,
        !outlives_its_channel(0),
{
}

} // verus!
