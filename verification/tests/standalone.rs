use codex_sandbox::native::{NativePath, NativeString, PathComponent, PathPrefix};
use codex_sandbox::runtime::command::validate_folded_environment;
use codex_sandbox::windows::failure::Failure;
use codex_sandbox::windows::namespace::WindowsSandboxPolicyNamespace;
use codex_sandbox::windows::standalone::client::{
    capability_sids, duration_millis, duplicate_stream, minimal_helper_environment, must_terminate_helper,
    spawn_helper_arguments, spawn_request_wire, spawn_windows_sandbox_standalone, stream_source_handle,
    begin_launch, wire_command, CapabilityRequest, CommitProgress, LaunchStage, LaunchStep, Observation, Readiness,
    ReadyProgress, WindowsSandboxStandaloneLaunchRequest, WindowsSandboxStandaloneProcess,
    WindowsSandboxStandaloneStdio, WindowsSandboxStandaloneStream, WAIT_TIMEOUT,
};
use codex_sandbox::windows::standalone::command::{
    helper_pipe_names, is_absolute_local_disk_path, is_windows_sandbox_standalone_helper_invocation,
    validate_target_environment, WindowsSandboxStandaloneCommand,
};
use codex_sandbox::windows::standalone::compatibility::{
    query_progress, require_compatible_output, verify_windows_sandbox_standalone_resources,
    windows_sandbox_standalone_helper_compatibility_response, HelperQuery, PipePeek, PipeStep, QueryOutput, QueryPipe,
    QueryProgress, ResourceStep, WindowsSandboxStandaloneHelperKind, ERROR_BROKEN_PIPE,
};
use codex_sandbox::windows::standalone::outcome::{
    WindowsSandboxStandaloneOutcome, WindowsSandboxStandaloneRetirementOutcome, WindowsSandboxStandaloneRootOutcome,
};
use codex_sandbox::windows::standalone::setup::{
    denied_read_paths, is_windows_sandbox_standalone_setup_only_environment_variable, setup_payload,
    validate_resource_layout, validate_setup_request, windows_sandbox_standalone_setup_request_from_permission_profile,
    windows_sandbox_standalone_setup_status, AccountName, PathProbes, ProfilePermissions, ResourceProbe, SetupMarker,
    StateProbe, TranslatedRoots, WindowsSandboxStandaloneFilesystemOverrides, WindowsSandboxStandaloneNetworkIdentity,
    WindowsSandboxStandaloneNetworkSetup, WindowsSandboxStandalonePolicyRequest, WindowsSandboxStandaloneResources,
    WindowsSandboxStandaloneSetupOperation, WindowsSandboxStandaloneSetupRequest, WindowsSandboxStandaloneSetupState,
};
use codex_sandbox::windows::standalone::setup_flow::{
    begin_preparation, begin_refresh, needs_elevation, prepare_windows_sandbox_standalone, refresh_windows_sandbox_standalone,
    windows_sandbox_standalone_verified_setup_status, HostEvent, SetupStage, SetupStep,
};
use codex_sandbox::windows::standalone::wire::{
    read_wire_frame, require_wire_version, write_wire_frame, FrameRead, HelperMessage, ParentMessage, WireNativeString,
    WireStream, WireTokenMode, MAX_FRAME_BYTES,
};

fn text(value: &str) -> NativeString {
    NativeString::from_text(value)
}

fn path(value: &str) -> NativePath {
    let mut components = Vec::new();
    let (absolute, rest) = match value.strip_prefix("C:\\") {
        Some(rest) => {
            components.push(PathComponent::Prefix(PathPrefix::Disk(b'C')));
            components.push(PathComponent::RootDir);
            (true, rest)
        }
        None => (false, value),
    };
    for name in rest.split('\\').filter(|name| !name.is_empty()) {
        components.push(PathComponent::Normal(text(name)));
    }
    NativePath { text: text(value), absolute, components }
}

fn resources() -> WindowsSandboxStandaloneResources {
    WindowsSandboxStandaloneResources {
        setup_executable: path(r"C:\root\codex-windows-sandbox-setup.exe"),
        command_runner_executable: path(r"C:\root\codex-command-runner.exe"),
    }
}

fn sibling_layout() -> ResourceProbe {
    ResourceProbe {
        setup_is_file: true,
        runner_is_file: true,
        setup_parent: path(r"C:\root"),
        runner_parent: path(r"C:\root"),
    }
}

fn setup_request(resources: WindowsSandboxStandaloneResources) -> WindowsSandboxStandaloneSetupRequest {
    WindowsSandboxStandaloneSetupRequest {
        state_dir: path(r"C:\root\state"),
        resources,
        command_cwd: path(r"C:\root"),
        read_roots: vec![path(r"C:\root")],
        read_roots_include_platform_defaults: true,
        write_roots: Vec::new(),
        deny_read_paths: Vec::new(),
        deny_write_paths: Vec::new(),
        network: WindowsSandboxStandaloneNetworkSetup {
            identity: WindowsSandboxStandaloneNetworkIdentity::Online,
            proxy_ports: Vec::new(),
            allow_local_binding: false,
        },
    }
}

fn unprepared() -> StateProbe {
    StateProbe { marker: Ok(None), users_match: Ok(false), credentials: Ok(None) }
}

fn existing(request: &WindowsSandboxStandaloneSetupRequest) -> PathProbes {
    PathProbes {
        read_roots: vec![true; request.read_roots.len()],
        write_roots: vec![true; request.write_roots.len()],
        deny_read_paths: vec![true; request.deny_read_paths.len()],
        deny_write_paths: vec![true; request.deny_write_paths.len()],
    }
}

fn status(
    request: &WindowsSandboxStandaloneSetupRequest,
    layout: &ResourceProbe,
    state: &StateProbe,
) -> WindowsSandboxStandaloneSetupState {
    windows_sandbox_standalone_setup_status(request, layout, &existing(request), state)
}

#[test]
fn standalone_helper_dispatch_requires_the_exact_private_shape() {
    let valid = vec![
        text("--standalone-sandbox-runner"),
        text(r"--pipe-in=\\.\pipe\private-in"),
        text(r"--pipe-out=\\.\pipe\private-out"),
    ];
    let mut extra = valid.clone();
    extra.push(text("target-argument"));
    let ordinary = vec![text("normal-command"), text("--standalone-sandbox-runner")];

    assert_eq!(
        [
            is_windows_sandbox_standalone_helper_invocation(&valid),
            is_windows_sandbox_standalone_helper_invocation(&extra),
            is_windows_sandbox_standalone_helper_invocation(&ordinary),
        ],
        [true, false, false]
    );
}

#[test]
fn the_helper_finds_the_pipes_it_was_given() {
    let arguments = spawn_helper_arguments(r"\\.\pipe\in", r"\\.\pipe\out");
    assert!(is_windows_sandbox_standalone_helper_invocation(&arguments));
    let names = helper_pipe_names(&arguments).unwrap();
    assert_eq!(names, (r"\\.\pipe\in".to_string(), r"\\.\pipe\out".to_string()));
    assert!(helper_pipe_names(&vec![text("normal-command")]).is_err());
}

#[test]
fn standalone_policy_constructor_reuses_native_root_and_deny_translation() {
    let state_dir = path(r"C:\root\state");
    let workspace = path(r"C:\root\workspace");
    let readable = path(r"C:\root\readable");
    let denied_read = path(r"C:\root\readable\private");
    let denied_write = path(r"C:\root\workspace\protected");
    let network = || WindowsSandboxStandaloneNetworkSetup {
        identity: WindowsSandboxStandaloneNetworkIdentity::Offline,
        proxy_ports: Vec::new(),
        allow_local_binding: false,
    };
    let request = WindowsSandboxStandalonePolicyRequest {
        permissions: ProfilePermissions { enforceable: true, network_block: true },
        command_cwd: workspace.clone(),
        state_dir: state_dir.clone(),
        resources: resources(),
        network: network(),
        profile_deny_read_paths: Vec::new(),
        filesystem_overrides: WindowsSandboxStandaloneFilesystemOverrides {
            read_roots: Some(vec![readable.clone()]),
            read_roots_include_platform_defaults: false,
            write_roots: Some(vec![workspace.clone()]),
            additional_deny_read_paths: vec![denied_read.clone()],
            additional_deny_write_paths: vec![denied_write.clone()],
        },
    };
    assert_eq!(denied_read_paths(&request), vec![denied_read.clone()]);
    let roots = TranslatedRoots {
        read_roots: vec![path(r"C:\root\state\.sandbox-bin"), readable.clone()],
        write_roots: vec![workspace.clone()],
        deny_write_paths: vec![denied_write.clone()],
    };
    let request = windows_sandbox_standalone_setup_request_from_permission_profile(request, roots).unwrap();

    assert_eq!(
        request,
        WindowsSandboxStandaloneSetupRequest {
            state_dir,
            resources: resources(),
            command_cwd: workspace.clone(),
            read_roots: vec![path(r"C:\root\state\.sandbox-bin"), readable],
            read_roots_include_platform_defaults: false,
            write_roots: vec![workspace],
            deny_read_paths: vec![denied_read],
            deny_write_paths: vec![denied_write],
            network: network(),
        }
    );
}

#[test]
fn setup_status_requires_explicit_existing_resources() {
    let request = setup_request(resources());
    let layout = ResourceProbe { setup_is_file: false, runner_is_file: false, ..sibling_layout() };

    assert!(matches!(
        status(&request, &layout, &unprepared()),
        WindowsSandboxStandaloneSetupState::Unavailable { .. }
    ));
}

#[test]
fn setup_status_requires_a_fixed_sibling_companion_layout() {
    let request = setup_request(WindowsSandboxStandaloneResources {
        setup_executable: path(r"C:\root\codex-windows-sandbox-setup.exe"),
        command_runner_executable: path(r"C:\other\codex-command-runner.exe"),
    });
    let layout = ResourceProbe { runner_parent: path(r"C:\other"), ..sibling_layout() };

    assert!(matches!(
        status(&request, &layout, &unprepared()),
        WindowsSandboxStandaloneSetupState::Unavailable { .. }
    ));
}

#[test]
fn setup_status_reports_administrative_action_for_unprepared_state() {
    let request = setup_request(resources());

    assert!(matches!(
        status(&request, &sibling_layout(), &unprepared()),
        WindowsSandboxStandaloneSetupState::AdministrativeActionRequired { .. }
    ));
}

#[test]
fn setup_status_rejects_proxy_exceptions_for_online_identity() {
    let mut request = setup_request(resources());
    request.network.proxy_ports = vec![8080];

    assert!(matches!(
        status(&request, &sibling_layout(), &unprepared()),
        WindowsSandboxStandaloneSetupState::Unavailable { .. }
    ));
}

#[test]
fn setup_status_rejects_relative_policy_paths() {
    let mut request = setup_request(resources());
    request.read_roots = vec![path("relative")];

    assert!(matches!(
        status(&request, &sibling_layout(), &unprepared()),
        WindowsSandboxStandaloneSetupState::Unavailable { .. }
    ));
}

#[test]
fn a_prepared_state_is_ready_for_its_own_identities_only() {
    let request = setup_request(resources());
    let namespace = WindowsSandboxPolicyNamespace::McpConsole;
    let marker = |online: &str| SetupMarker {
        version_matches: true,
        offline_username: namespace.offline_username().to_string(),
        online_username: online.to_string(),
        proxy_ports: Vec::new(),
        allow_local_binding: false,
    };
    let mut state = StateProbe {
        marker: Ok(Some(marker(namespace.online_username()))),
        users_match: Ok(true),
        credentials: Ok(Some(namespace.online_username().to_string())),
    };
    let ready = status(&request, &sibling_layout(), &state);
    assert!(matches!(&ready, WindowsSandboxStandaloneSetupState::Ready));
    assert_eq!(ready.text(), "Ready");
    assert!(matches!(
        windows_sandbox_standalone_verified_setup_status(ready, &Ok(()), &Err(Failure::new("drifted"))),
        WindowsSandboxStandaloneSetupState::AdministrativeActionRequired { .. }
    ));
    state.marker = Ok(Some(marker("CodexSandboxOnline")));
    assert!(!matches!(
        status(&request, &sibling_layout(), &state),
        WindowsSandboxStandaloneSetupState::Ready
    ));
}

#[test]
fn payloads_protect_the_state_and_the_helpers() {
    let request = setup_request(resources());
    let platform = vec![path(r"C:\Windows")];
    let account = AccountName::Units("runner\0".encode_utf16().collect());
    let payload = setup_payload(&request, &platform, 7, account, false).unwrap();
    assert_eq!(payload.version, 7);
    assert_eq!(payload.real_user, "runner");
    assert_eq!(payload.offline_username, "McpConsoleSbxOffline");
    assert!(payload.read_roots.contains(&path(r"C:\Windows")));
    assert!(payload.read_roots.contains(&path(r"C:\root")));
    assert!(payload.deny_write_paths.contains(&path(r"C:\root\state")));
    assert!(payload.deny_write_paths.contains(&request.resources.setup_executable));
    assert!(payload.deny_write_paths.contains(&request.resources.command_runner_executable));
    let unpaired = AccountName::Units(vec![0x61, 0xd800, 0x62]);
    assert!(setup_payload(&request, &platform, 7, unpaired, true).is_err());
    assert!(setup_payload(&request, &platform, 7, AccountName::NoLength, false).is_err());
}

#[test]
fn preparation_follows_its_stages() {
    let state_dir = text(r"C:\root\state");
    let step = |stage, event| prepare_windows_sandbox_standalone(stage, &state_dir, event);
    assert!(matches!(
        step(SetupStage::ValidateRequest, HostEvent::Succeeded),
        SetupStep::Perform(SetupStage::CreateStateDirectory)
    ));
    assert!(matches!(
        step(SetupStage::CreateStateDirectory, HostEvent::Failed(Failure::new("denied"))),
        SetupStep::Refused(_)
    ));
    assert!(matches!(
        step(SetupStage::InspectState, HostEvent::Inspected(WindowsSandboxStandaloneSetupState::Ready)),
        SetupStep::Perform(SetupStage::VerifyNetwork)
    ));
    assert!(matches!(
        step(SetupStage::VerifyNetwork, HostEvent::Succeeded),
        SetupStep::Finished(WindowsSandboxStandaloneSetupOperation::AlreadyReady)
    ));
    assert!(matches!(
        step(SetupStage::VerifyAgain, HostEvent::Succeeded),
        SetupStep::Finished(WindowsSandboxStandaloneSetupOperation::Prepared)
    ));
    let refresh = refresh_windows_sandbox_standalone(
        SetupStage::InspectState,
        HostEvent::Inspected(WindowsSandboxStandaloneSetupState::Unavailable { reason: "gone".to_string() }),
    );
    assert!(matches!(refresh, SetupStep::Refused(failure) if failure.chain().contains("gone")));
    assert!(needs_elevation(false, false));
    assert!(!needs_elevation(true, false) && !needs_elevation(false, true));
}

#[test]
fn native_command_and_environment_values_preserve_unpaired_surrogates() {
    let native_arg = NativeString::Wide(vec![b'a' as u16, 0xd800, b'z' as u16]);
    let native_value = NativeString::Wide(vec![0xdc00, b'=' as u16]);
    let command = WindowsSandboxStandaloneCommand {
        program: path(r"C:\root\program.exe"),
        args: vec![native_arg.clone()],
        environment: vec![(text("VALUE"), native_value.clone())],
        cwd: path(r"C:\root"),
    };

    assert!(command.validate(true, true).is_ok());
    assert_eq!(command.args, vec![native_arg.clone()]);
    assert_eq!(command.environment, vec![(text("VALUE"), native_value)]);

    let wire = wire_command(&command, &text(r"C:\root\state")).unwrap();
    assert_eq!(wire.args[0].0, vec![b'a' as u16, 0xd800, b'z' as u16]);
    let back = wire.args.into_iter().next().unwrap().into_os_string().unwrap();
    assert_eq!(back, native_arg);
}

#[test]
fn native_environment_rejects_non_unicode_and_case_duplicate_names() {
    let mut command = WindowsSandboxStandaloneCommand {
        program: path(r"C:\root\program.exe"),
        args: Vec::new(),
        environment: vec![(NativeString::Wide(vec![b'N' as u16, 0xd800]), text("value"))],
        cwd: path(r"C:\root"),
    };

    assert!(command.validate(true, true).is_err());
    command.environment = vec![(text("ä"), text("first")), (text("Ä"), text("second"))];
    assert!(command.validate(true, true).is_err());
    command.environment = vec![(text("ä"), text("first")), (text("B"), text("second"))];
    assert!(command.validate(true, true).is_ok());
    assert!(command.validate(false, true).is_err());
    assert!(command.validate(true, false).is_err());
    assert!(is_absolute_local_disk_path(&path(r"C:\root")));
    assert!(!is_absolute_local_disk_path(&path("root")));
}

#[test]
fn frames_are_read_back_as_they_were_written() {
    let payload = b"{\"message\":1}".to_vec();
    let frame = write_wire_frame(&payload).unwrap();
    assert_eq!(&frame[..4], &(payload.len() as u32).to_le_bytes());
    assert!(matches!(read_wire_frame(&frame), FrameRead::Payload(read) if read == payload));
    assert!(matches!(read_wire_frame(&Vec::new()), FrameRead::First));
    assert!(matches!(read_wire_frame(&frame[..1].to_vec()), FrameRead::More(3)));
    assert!(matches!(read_wire_frame(&frame[..6].to_vec()), FrameRead::More(more) if more == payload.len() - 2));
    assert!(write_wire_frame(&vec![0; MAX_FRAME_BYTES + 1]).is_err());
    let oversized = ((MAX_FRAME_BYTES + 1) as u32).to_le_bytes().to_vec();
    assert!(matches!(read_wire_frame(&oversized), FrameRead::Refused(_)));
    assert!(require_wire_version(1).is_ok());
    assert!(require_wire_version(2).is_err());
    assert!(WireNativeString(vec![0x61, 0]).into_os_string().is_err());
}

#[test]
fn a_launch_is_committed_once_and_observed_to_its_end() {
    let mut process = WindowsSandboxStandaloneProcess::new();
    assert!(matches!(process.wait_ready(false), ReadyProgress::Pending));
    let accepted = process.observation.observe_helper(HelperMessage::Ready { process_id: 9 });
    assert!(matches!(accepted, Ok(false)));
    assert!(matches!(process.wait_ready(false), ReadyProgress::Ready(9)));
    assert!(matches!(process.commit_launch(), Ok(ParentMessage::CommitLaunch)));
    assert!(process.commit_launch().is_err());
    assert!(matches!(process.wait_committed(false), CommitProgress::Pending));
    assert!(matches!(process.observation.observe_helper(HelperMessage::Committed), Ok(false)));
    assert!(matches!(process.wait_committed(false), CommitProgress::Committed));
    let exited = WindowsSandboxStandaloneRootOutcome::Exited { code: 3 };
    assert!(process.observation.observe_helper(HelperMessage::RootExited(exited.clone())).is_ok());
    assert_eq!(process.try_root_outcome(), Some(exited.clone()));
    assert_eq!(process.try_outcome(), None);
    let outcome = WindowsSandboxStandaloneOutcome {
        target: exited,
        retirement: WindowsSandboxStandaloneRetirementOutcome { complete: true, forced: false, error: None },
        infrastructure_error: None,
    };
    assert!(matches!(process.observation.observe_helper(HelperMessage::Final(outcome.clone())), Ok(true)));
    assert_eq!(process.try_outcome(), Some(outcome));
    assert!(matches!(
        process.force_terminate(25),
        Ok(ParentMessage::ForceTerminate { force_stop_timeout_ms: 25 })
    ));
    assert!(process.force_terminate(u128::from(u32::MAX) + 1).is_err());
}

#[test]
fn an_exit_before_the_commit_is_a_protocol_error() {
    let mut observation = Observation::new();
    let exited = WindowsSandboxStandaloneRootOutcome::Exited { code: 0 };
    assert!(observation.observe_helper(HelperMessage::RootExited(exited)).is_err());
    let mut failed = Observation::new();
    failed.observation_failed(&Failure::new("pipe closed"));
    assert!(matches!(&failed.ready, Readiness::Failed(message) if message.contains("pipe closed")));
    assert!(failed.try_outcome().is_some());
    assert_eq!(duration_millis(u128::from(u32::MAX), "grace").unwrap(), u64::from(u32::MAX));
    assert_eq!(
        duration_millis(u128::from(u32::MAX) + 1, "grace").unwrap_err().chain(),
        "grace exceeds the Windows wait range"
    );
    assert_eq!(
        duration_millis(u128::from(u64::MAX) + 1, "grace").unwrap_err().message,
        "grace exceeds the Windows helper duration range"
    );
    assert!(must_terminate_helper(WAIT_TIMEOUT));
    assert!(!must_terminate_helper(0));
}

#[test]
fn launches_pass_every_stage_in_order() {
    let mut stage = LaunchStage::AcquireLease;
    let mut count = 1;
    loop {
        let event = match stage {
            LaunchStage::InspectState => HostEvent::Inspected(WindowsSandboxStandaloneSetupState::Ready),
            _ => HostEvent::Succeeded,
        };
        match spawn_windows_sandbox_standalone(stage, event) {
            LaunchStep::Perform(next) => {
                stage = next;
                count += 1;
            }
            LaunchStep::Launched { send_failure } => {
                assert!(send_failure.is_none());
                break;
            }
            LaunchStep::Refused { .. } => panic!("nothing failed"),
        }
    }
    assert_eq!(count, 10);
    assert!(matches!(
        spawn_windows_sandbox_standalone(LaunchStage::BuildSpawnRequest, HostEvent::Failed(Failure::new("x"))),
        LaunchStep::Refused { retire_helper: true, .. }
    ));
    assert!(matches!(
        spawn_windows_sandbox_standalone(LaunchStage::AcquireLease, HostEvent::Failed(Failure::new("x"))),
        LaunchStep::Refused { retire_helper: false, .. }
    ));
    assert!(matches!(
        spawn_windows_sandbox_standalone(LaunchStage::SendSpawnRequest, HostEvent::Failed(Failure::new("x"))),
        LaunchStep::Launched { send_failure: Some(_) }
    ));
}

#[test]
fn commands_and_states_are_values() {
    let command = launch_request(WindowsSandboxStandaloneNetworkIdentity::Online, Vec::new(), None).command;
    assert_eq!(command.clone(), command);
    let mut other = command.clone();
    other.args.push(text("more"));
    assert_ne!(other, command);
    let state = WindowsSandboxStandaloneSetupState::Unavailable { reason: "gone".to_string() };
    assert_eq!(state.clone(), state);
    assert_ne!(state, WindowsSandboxStandaloneSetupState::Ready);
}

#[test]
fn setups_begin_with_a_valid_request() {
    let request = setup_request(resources());
    assert!(matches!(
        begin_preparation(&request, Ok(()), &existing(&request)),
        SetupStep::Perform(SetupStage::CreateStateDirectory)
    ));
    assert!(matches!(
        begin_refresh(&request, Ok(()), &existing(&request), false),
        SetupStep::Perform(SetupStage::InspectState)
    ));
    assert!(matches!(
        begin_preparation(&request, Err(Failure::new("bad helper")), &existing(&request)),
        SetupStep::Refused(failure) if failure.message == "bad helper"
    ));
    let mut relative = setup_request(resources());
    relative.command_cwd = path("relative");
    assert!(matches!(begin_preparation(&relative, Ok(()), &existing(&relative)), SetupStep::Refused(_)));
    assert!(matches!(begin_refresh(&relative, Ok(()), &existing(&relative), true), SetupStep::Refused(_)));
}

fn launch_request(
    identity: WindowsSandboxStandaloneNetworkIdentity,
    ports: Vec<u16>,
    sid: Option<&str>,
) -> WindowsSandboxStandaloneLaunchRequest {
    let mut setup = setup_request(resources());
    setup.network =
        WindowsSandboxStandaloneNetworkSetup { identity, proxy_ports: ports, allow_local_binding: false };
    WindowsSandboxStandaloneLaunchRequest {
        setup,
        command: WindowsSandboxStandaloneCommand {
            program: path(r"C:\root\tool.exe"),
            args: Vec::new(),
            environment: Vec::new(),
            cwd: path(r"C:\root"),
        },
        stdio: WindowsSandboxStandaloneStdio {
            stdin: WindowsSandboxStandaloneStream::Null,
            stdout: WindowsSandboxStandaloneStream::Null,
            stderr: WindowsSandboxStandaloneStream::Null,
        },
        network_proxy_restricting_sid: sid.map(str::to_string),
        use_private_desktop: false,
        descendant_grace_millis: 100,
        force_stop_timeout_millis: 200,
    }
}

fn begin(
    request: &WindowsSandboxStandaloneLaunchRequest,
    resources: Result<(), Failure>,
    same_directory: bool,
) -> Result<(), String> {
    let step = begin_launch(request, resources, &existing(&request.setup), true, true, same_directory);
    match step {
        LaunchStep::Perform(stage) => {
            assert_eq!(stage, LaunchStage::AcquireLease);
            Ok(())
        }
        LaunchStep::Refused { failure, retire_helper } => {
            assert!(!retire_helper);
            Err(failure.message)
        }
        LaunchStep::Launched { .. } => panic!("nothing was sent"),
    }
}

/// Reads one frame from the front of a stream.
fn read_one(stream: &mut Vec<u8>) -> Result<Option<Vec<u8>>, String> {
    let mut received = Vec::new();
    loop {
        let wanted = match read_wire_frame(&received) {
            FrameRead::Payload(payload) => return Ok(Some(payload)),
            FrameRead::Refused(failure) => return Err(failure.message),
            FrameRead::First if stream.is_empty() => return Ok(None),
            FrameRead::First => 1,
            FrameRead::More(wanted) => wanted,
        };
        if wanted > stream.len() {
            return Err("truncated".to_string());
        }
        received.extend(stream.drain(..wanted));
    }
}

#[test]
fn a_stream_of_frames_reads_back_whole() {
    let payloads = [b"one".to_vec(), Vec::new(), vec![7; 300]];
    let mut stream = Vec::new();
    for payload in &payloads {
        stream.extend(write_wire_frame(payload).unwrap());
    }
    for payload in &payloads {
        assert_eq!(read_one(&mut stream), Ok(Some(payload.clone())));
    }
    assert_eq!(read_one(&mut stream), Ok(None));
    let frame = write_wire_frame(&payloads[0]).unwrap();
    for cut in 1..frame.len() {
        assert_eq!(read_one(&mut frame[..cut].to_vec()), Err("truncated".to_string()));
    }
    assert_eq!(
        read_one(&mut vec![1, 0, 16, 0, 9]),
        Err("standalone Windows helper frame length 1048577 exceeds 1048576".to_string())
    );
    assert!(require_wire_version(2).is_err());
}

#[test]
fn folded_names_decide_about_repeats() {
    let variables = vec![(text("Path"), text("a")), (text("PATH"), text("b"))];
    let upper = |one: &str, other: &str| vec![one.to_string(), other.to_string()];
    assert_eq!(
        validate_target_environment(&variables, &upper("PATH", "PATH")).unwrap_err().message,
        "duplicate Windows environment variable name"
    );
    assert!(validate_target_environment(&variables, &upper("PATH", "OTHER")).is_ok());
    assert!(validate_folded_environment(&variables, &upper("PATH", "PATH")).is_err());
    assert!(validate_folded_environment(&variables, &upper("PATH", "OTHER")).is_ok());
}

#[test]
fn launches_need_a_consistent_network_and_directory() {
    let online = || launch_request(WindowsSandboxStandaloneNetworkIdentity::Online, Vec::new(), None);
    let offline =
        |ports, sid| launch_request(WindowsSandboxStandaloneNetworkIdentity::Offline, ports, sid);
    assert_eq!(begin(&online(), Ok(()), true), Ok(()));
    assert_eq!(begin(&offline(Vec::new(), None), Ok(()), true), Ok(()));
    assert_eq!(begin(&offline(vec![3128], Some("S-1-5-21")), Ok(()), true), Ok(()));
    assert_eq!(
        begin(
            &launch_request(WindowsSandboxStandaloneNetworkIdentity::Online, Vec::new(), Some("S-1-5-21")),
            Ok(()),
            true
        ),
        Err("unrestricted networking cannot use a proxy restricting SID".to_string())
    );
    assert_eq!(
        begin(&offline(Vec::new(), Some("S-1-5-21")), Ok(()), true),
        Err("managed-proxy restriction requires an explicit proxy port".to_string())
    );
    assert_eq!(
        begin(&offline(vec![3128], None), Ok(()), true),
        Err("offline network exceptions require a proxy restricting SID".to_string())
    );
    assert_eq!(
        begin(&online(), Ok(()), false),
        Err("launch working directory differs from the refreshed setup policy".to_string())
    );
    assert_eq!(begin(&online(), Err(Failure::new("bad")), true), Err("bad".to_string()));
    let mut relative = online();
    relative.setup.state_dir = path("relative");
    assert!(begin(&relative, Ok(()), true).is_err());
    let mut missing = online();
    missing.command.program = path("tool.exe");
    assert_eq!(
        begin(&missing, Ok(()), true),
        Err("target program must be an absolute local-disk Windows path".to_string())
    );
}

#[test]
fn spawn_requests_carry_the_command_and_the_capabilities() {
    let mut setup = setup_request(resources());
    assert!(matches!(capability_sids(&setup), CapabilityRequest::ReadOnly));
    setup.write_roots = vec![path(r"C:\root\workspace")];
    assert!(matches!(capability_sids(&setup), CapabilityRequest::Roots(roots) if roots == setup.write_roots));
    let command = WindowsSandboxStandaloneCommand {
        program: path(r"C:\root\program.exe"),
        args: vec![text("one")],
        environment: vec![(text("KEY"), text("value"))],
        cwd: path(r"C:\root"),
    };
    let wire = wire_command(&command, &text(r"C:\root\state")).unwrap();
    let request = WindowsSandboxStandaloneLaunchRequest {
        setup,
        command,
        stdio: WindowsSandboxStandaloneStdio {
            stdin: WindowsSandboxStandaloneStream::Null,
            stdout: WindowsSandboxStandaloneStream::Passed(12),
            stderr: WindowsSandboxStandaloneStream::Inherited(-1),
        },
        network_proxy_restricting_sid: None,
        use_private_desktop: true,
        descendant_grace_millis: 100,
        force_stop_timeout_millis: 200,
    };
    let sent = spawn_request_wire(
        wire,
        &request,
        vec!["S-1-5-21".to_string()],
        "S-1-5-18".to_string(),
        Ok(WireStream::Null),
        duplicate_stream(Ok(40), "stdout"),
        Ok(WireStream::Null),
    )
    .unwrap();
    assert_eq!(sent.program.0, r"C:\root\program.exe".encode_utf16().collect::<Vec<u16>>());
    assert!(matches!(sent.token_mode, WireTokenMode::WritableRoots));
    assert!(matches!(sent.stdout, WireStream::Handle(40)));
    assert_eq!((sent.descendant_grace_ms, sent.force_stop_timeout_ms), (100, 200));
    assert_eq!(stream_source_handle(request.stdio.stdin, "stdin").unwrap(), None);
    assert_eq!(stream_source_handle(request.stdio.stdout, "stdout").unwrap(), Some(12));
    assert!(stream_source_handle(request.stdio.stderr, "stderr").is_err());
    assert!(duplicate_stream(Err(6), "stdout").is_err());
}

#[test]
fn the_helper_gets_a_minimal_environment() {
    let environment = minimal_helper_environment(Some(text(r"C:\Windows")), None, &text(r"C:\temp"));
    let value = |key: &str| environment.iter().find(|(name, _)| *name == text(key)).map(|(_, value)| value.clone());
    assert_eq!(value("SystemRoot"), Some(text(r"C:\Windows")));
    assert_eq!(value("TEMP"), Some(text(r"C:\temp")));
    assert_eq!(value("TMP"), Some(text(r"C:\temp")));
    assert_eq!(value("WINDIR"), None);
    assert!(is_windows_sandbox_standalone_setup_only_environment_variable(&text("PORTS"), "PORTS"));
    assert!(!is_windows_sandbox_standalone_setup_only_environment_variable(&text("PATH"), "PORTS"));
}

#[test]
fn helpers_are_told_apart_by_their_responses() {
    let setup = WindowsSandboxStandaloneHelperKind::Setup;
    let runner = WindowsSandboxStandaloneHelperKind::CommandRunner;
    let asked = vec![text(setup.query())];
    let response = windows_sandbox_standalone_helper_compatibility_response(setup, &asked, "1.2.3").unwrap();
    assert_eq!(response, setup.response("1.2.3"));
    assert_eq!(windows_sandbox_standalone_helper_compatibility_response(runner, &asked, "1.2.3"), None);
    let program = path(r"C:\root\codex-windows-sandbox-setup.exe");
    let output = |stdout: &str, stderr: &str, success| QueryOutput {
        success,
        stdout: stdout.as_bytes().to_vec(),
        stderr: stderr.as_bytes().to_vec(),
    };
    assert!(require_compatible_output(&program, setup, "1.2.3", &output(&response, "", true)).is_ok());
    assert!(require_compatible_output(&program, runner, "1.2.3", &output(&response, "", true)).is_err());
    assert!(require_compatible_output(&program, setup, "1.2.4", &output(&response, "", true)).is_err());
    assert!(require_compatible_output(&program, setup, "1.2.3", &output(&response, "", false)).is_err());
    assert!(require_compatible_output(&program, setup, "1.2.3", &output(&response, "noise", true)).is_err());
    let step = verify_windows_sandbox_standalone_resources(
        &resources(),
        &sibling_layout(),
        "1.2.3",
        HelperQuery::Unasked,
        HelperQuery::Unasked,
    );
    assert!(matches!(step, ResourceStep::Query(WindowsSandboxStandaloneHelperKind::Setup)));
    let step = verify_windows_sandbox_standalone_resources(
        &resources(),
        &sibling_layout(),
        "1.2.3",
        HelperQuery::Asked(Ok(output(&response, "", true))),
        HelperQuery::Asked(Ok(output(&runner.response("1.2.3"), "", true))),
    );
    assert!(matches!(step, ResourceStep::Verified));
}

#[test]
fn query_output_is_bounded() {
    let mut pipe = QueryPipe::new();
    assert!(matches!(pipe.peeked(PipePeek::Available(0), "stdout"), PipeStep::Idle));
    assert!(matches!(pipe.peeked(PipePeek::Available(10_000), "stdout"), PipeStep::Read(256)));
    for _ in 0..4 {
        assert!(pipe.received(Ok(vec![b'x'; 256]), "stdout").is_ok());
    }
    assert!(pipe.received(Ok(vec![b'x'; 1]), "stdout").is_err());
    let mut ended = QueryPipe::new();
    assert!(matches!(ended.peeked(PipePeek::Failed(ERROR_BROKEN_PIPE), "stderr"), PipeStep::Idle));
    assert!(ended.eof);
    let setup = WindowsSandboxStandaloneHelperKind::Setup;
    assert!(matches!(query_progress(setup, true, &ended, &ended, true), QueryProgress::Complete));
    assert!(matches!(query_progress(setup, false, &ended, &ended, false), QueryProgress::Pending));
    assert!(matches!(query_progress(setup, false, &ended, &ended, true), QueryProgress::TimedOut(_)));
}
