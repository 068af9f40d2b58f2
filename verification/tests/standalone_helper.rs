use codex_sandbox::native::{NativePath, NativeString, PathComponent, PathPrefix};
use codex_sandbox::windows::failure::Failure;
use codex_sandbox::windows::standalone::helper::{
    await_launch_commit, decode_arguments, decode_environment, decode_wire_path, final_outcome, first_request,
    helper_error, helper_run, prepare_helper_stream, require_capabilities, require_handle, retire_job,
    retirement_grace, root_outcome, wait_for_job_empty, CommitStep, ControlFlow, ControlRead, HelperControl,
    HelperStage, HelperStandardStream, HelperStep, RetireEvent, RetireStage, RetireStep, StreamPlan, GENERIC_READ,
    GENERIC_WRITE,
};
use codex_sandbox::windows::standalone::helper_process::{spawn_helper, SpawnHelperStage, SpawnHelperStep};
use codex_sandbox::windows::standalone::outcome::WindowsSandboxStandaloneRootOutcome;
use codex_sandbox::windows::standalone::process_security::{
    require_acl, require_security_applied, HelperProcessSecurity,
};
use codex_sandbox::windows::standalone::target::{spawn_helper_target, TargetPaths};
use codex_sandbox::windows::standalone::window_access::{
    cleanup_failure_line, grant_access, open_default_desktop, revoke_access, update_dacl, DaclStep, DesktopOpening,
    StandaloneDesktop, WindowAccessLease, WindowObject, GRANT_ACCESS, REVOKE_ACCESS,
};
use codex_sandbox::windows::standalone::wire::{
    HelperMessage, ParentMessage, WireNativeString, WireSpawnRequest, WireStream, WireTokenMode,
};

fn injected_termination_failure() -> Result<(), String> {
    Err("injected job termination failure".to_string())
}

fn control(message: Option<ParentMessage>) -> ControlRead {
    match message {
        Some(message) => ControlRead::Message(message),
        None => ControlRead::Closed,
    }
}

fn failure_of(flow: ControlFlow) -> Failure {
    match flow {
        ControlFlow::Failed(failure) => failure,
        _ => panic!("the termination failure must propagate"),
    }
}

#[test]
fn explicit_force_termination_failure_returns_to_the_helper_owner() {
    let mut owner = HelperControl::new(10);
    let termination =
        owner.helper_input_loop(control(Some(ParentMessage::ForceTerminate { force_stop_timeout_ms: 25 })));
    let error = failure_of(termination.conclude(injected_termination_failure()));

    assert_eq!(
        (error.chain(), owner.forced, owner.force_stop_timeout_ms),
        (
            "force-terminate standalone process job: injected job termination failure".to_string(),
            true,
            25,
        )
    );
}

#[test]
fn control_eof_termination_failure_returns_to_the_helper_owner() {
    let mut owner = HelperControl::new(10);
    let termination = owner.helper_input_loop(control(None));
    let error = failure_of(termination.conclude(injected_termination_failure()));

    assert_eq!(
        (error.chain(), owner.forced, owner.force_stop_timeout_ms),
        (
            "terminate standalone process job after control EOF: injected job termination failure".to_string(),
            true,
            10,
        )
    );
}

#[test]
fn launch_commit_is_required_before_the_helper_owner_can_resume_the_target() {
    assert!(matches!(
        await_launch_commit(control(Some(ParentMessage::CommitLaunch))),
        CommitStep::Proceed
    ));

    let termination = match await_launch_commit(control(None)) {
        CommitStep::Terminate(termination) => termination,
        CommitStep::Proceed => panic!("control EOF before commit must reject target execution"),
    };
    let error = failure_of(termination.conclude(Ok(())));
    assert_eq!(
        error.message,
        "standalone helper control channel closed before launch commit"
    );
}

#[test]
fn a_second_spawn_request_stops_the_helper() {
    let read = ControlRead::Message(ParentMessage::CommitLaunch);
    let mut owner = HelperControl::new(10);
    let flow = owner.helper_input_loop(read).conclude(Ok(()));
    assert!(matches!(flow, ControlFlow::Failed(_)));
    let mut closed = HelperControl::new(10);
    assert!(matches!(closed.helper_input_loop(ControlRead::Closed).conclude(Ok(())), ControlFlow::Finished));
    assert!(first_request(ControlRead::Message(ParentMessage::CommitLaunch)).is_err());
    assert!(first_request(ControlRead::Closed).is_err());
}

#[test]
fn jobs_retire_on_their_own_or_by_force() {
    assert_eq!(retirement_grace(true, 500), 0);
    assert_eq!(retirement_grace(false, 500), 500);
    assert!(matches!(
        retire_job(RetireStage::AwaitGrace, false, RetireEvent::Waited(Ok(true))),
        RetireStep::Done(outcome) if outcome.complete && !outcome.forced && outcome.error.is_none()
    ));
    assert!(matches!(
        retire_job(RetireStage::AwaitGrace, false, RetireEvent::Waited(Ok(false))),
        RetireStep::Enter(RetireStage::Terminate(None))
    ));
    assert!(matches!(
        retire_job(RetireStage::Terminate(None), false, RetireEvent::Terminated(Ok(()))),
        RetireStep::Enter(RetireStage::AwaitForced)
    ));
    assert!(matches!(
        retire_job(RetireStage::AwaitForced, false, RetireEvent::Waited(Ok(false))),
        RetireStep::Done(outcome) if !outcome.complete && outcome.forced && outcome.error.is_some()
    ));
    assert_eq!(wait_for_job_empty(Ok(0), false), Some(Ok(true)));
    assert_eq!(wait_for_job_empty(Ok(2), false), None);
    assert_eq!(wait_for_job_empty(Ok(2), true), Some(Ok(false)));
    assert_eq!(wait_for_job_empty(Err("e".to_string()), false), Some(Err("e".to_string())));
}

#[test]
fn the_helper_resumes_the_target_only_after_the_commit() {
    let mut stage = HelperStage::ReadSpawnRequest;
    let mut seen = Vec::new();
    loop {
        seen.push(stage);
        match helper_run(stage, Ok(())) {
            HelperStep::Perform(next) => stage = next,
            HelperStep::Done => break,
            HelperStep::Abandon(_) => panic!("nothing failed"),
        }
    }
    assert_eq!(seen.len(), 15);
    let place = |wanted: fn(&HelperStage) -> bool| seen.iter().position(wanted).unwrap();
    assert!(
        place(|stage| matches!(stage, HelperStage::AwaitCommit))
            < place(|stage| matches!(stage, HelperStage::ResumeTarget))
    );
    assert!(matches!(
        helper_run(HelperStage::ResumeTarget, Err(Failure::new("no"))),
        HelperStep::Abandon(cleanup) if cleanup.terminate_job
    ));
    assert!(matches!(
        helper_run(HelperStage::ReadSpawnRequest, Err(Failure::new("no"))),
        HelperStep::Abandon(cleanup) if !cleanup.terminate_job && !cleanup.join_control_thread
    ));
}

#[test]
fn wire_values_are_decoded_whole() {
    let units = |text: &str| WireNativeString(text.encode_utf16().collect());
    let arguments = decode_arguments(&vec![units("one"), WireNativeString(vec![0xd800])]).unwrap();
    assert_eq!(arguments, vec![NativeString::from_text("one"), NativeString::Wide(vec![0xd800])]);
    assert!(decode_arguments(&vec![WireNativeString(vec![0x61, 0])]).is_err());
    let environment = decode_environment(&vec![(units("KEY"), units("value"))]).unwrap();
    assert_eq!(environment, vec![(NativeString::from_text("KEY"), NativeString::from_text("value"))]);
    let program = NativePath { text: NativeString::from_text("relative"), absolute: false, components: Vec::new() };
    assert!(decode_wire_path(units("relative"), program, "program").is_err());
    assert!(require_capabilities(0).is_err());
    assert!(require_capabilities(1).is_ok());
    assert!(require_handle(0, "stdin").is_err());
    assert!(require_handle(7, "stdin").is_ok());
    assert!(matches!(
        prepare_helper_stream(WireStream::Null, HelperStandardStream::Stdin),
        StreamPlan::OpenNull(GENERIC_READ)
    ));
    assert!(matches!(
        prepare_helper_stream(WireStream::Null, HelperStandardStream::Stderr),
        StreamPlan::OpenNull(GENERIC_WRITE)
    ));
    assert!(matches!(
        prepare_helper_stream(WireStream::Handle(7), HelperStandardStream::Stdout),
        StreamPlan::Take(7)
    ));
}

#[test]
fn outcomes_report_what_was_observed() {
    assert!(matches!(root_outcome(0, Ok(5)), WindowsSandboxStandaloneRootOutcome::Exited { code: 5 }));
    assert!(matches!(root_outcome(0x102, Ok(5)), WindowsSandboxStandaloneRootOutcome::Unknown { .. }));
    assert!(matches!(root_outcome(0, Err(6)), WindowsSandboxStandaloneRootOutcome::Unknown { .. }));
    let retired = match retire_job(RetireStage::AwaitGrace, true, RetireEvent::Waited(Ok(true))) {
        RetireStep::Done(outcome) => outcome,
        RetireStep::Enter(_) => panic!("the job is empty"),
    };
    let outcome = final_outcome(WindowsSandboxStandaloneRootOutcome::Exited { code: 1 }, retired);
    assert!(outcome.infrastructure_error.is_none());
    let failure = Failure::new("denied").within("open channel");
    assert!(matches!(
        helper_error("spawn", &failure, Some(5)),
        HelperMessage::Error { stage, message, windows_error_code: Some(5) }
            if stage == "spawn" && message == "open channel: denied"
    ));
}

#[test]
fn only_the_runner_and_the_system_may_open_the_helper() {
    let security = HelperProcessSecurity::prepare(vec![1], &vec![2], vec![3]).unwrap();
    assert_eq!(security.trustees(), vec![vec![1], vec![3]]);
    assert!(HelperProcessSecurity::prepare(vec![2], &vec![2], vec![3]).is_err());
    assert!(require_acl(0, true).is_ok());
    assert!(require_acl(0, false).is_err());
    assert!(require_acl(5, true).is_err());
    assert!(require_security_applied(5).is_err());
}

#[test]
fn window_access_is_granted_and_revoked_once() {
    let mut lease = WindowAccessLease::new();
    assert!(matches!(lease.prepare(StandaloneDesktop::Private), Some(WindowObject::Station)));
    assert!(matches!(lease.prepare(StandaloneDesktop::Default), Some(WindowObject::Station)));
    lease.granted(WindowObject::Station);
    assert!(lease.prepare(StandaloneDesktop::Private).is_none());
    assert!(matches!(lease.prepare(StandaloneDesktop::Default), Some(WindowObject::Desktop)));
    lease.granted(WindowObject::Desktop);
    assert!(lease.prepare(StandaloneDesktop::Default).is_none());
    assert!(lease.revoke(Ok(()), Ok(())).is_ok());
    assert!(!lease.station_granted && !lease.desktop_granted);
    assert!(lease.revoke(Ok(()), Ok(())).is_ok());
    assert!(grant_access(WindowObject::Desktop, 0x1ff).iter().all(|entry| entry.mode == GRANT_ACCESS));
    assert_eq!(revoke_access().mode, REVOKE_ACCESS);
    assert!(update_dacl(DaclStep::Read, 0, WindowObject::Station).is_ok());
    assert!(update_dacl(DaclStep::Apply, 5, WindowObject::Station).is_err());
    assert!(cleanup_failure_line(&Failure::new("stuck")).contains("stuck"));
    assert!(open_default_desktop(DesktopOpening::Opened).is_ok());
    assert!(open_default_desktop(DesktopOpening::NotRestored("5".to_string())).is_err());
}

fn disk_path(value: &str) -> NativePath {
    let mut components = vec![PathComponent::Prefix(PathPrefix::Disk(b'C')), PathComponent::RootDir];
    for name in value.trim_start_matches("C:\\").split('\\').filter(|name| !name.is_empty()) {
        components.push(PathComponent::Normal(NativeString::from_text(name)));
    }
    NativePath { text: NativeString::from_text(value), absolute: true, components }
}

fn spawn_request(program: &str, args: Vec<WireNativeString>) -> WireSpawnRequest {
    let units = |text: &str| WireNativeString(text.encode_utf16().collect());
    WireSpawnRequest {
        program: units(program),
        args,
        environment: vec![(units("KEY"), units("value"))],
        cwd: units(r"C:\work"),
        state_dir: units(r"C:\state"),
        token_mode: WireTokenMode::ReadOnly,
        capability_sids: vec!["S-1-5-21".to_string()],
        network_proxy_restricting_sid: None,
        runner_sid: "S-1-5-18".to_string(),
        stdin: WireStream::Null,
        stdout: WireStream::Handle(12),
        stderr: WireStream::Null,
        use_private_desktop: true,
        descendant_grace_ms: 1,
        force_stop_timeout_ms: 2,
    }
}

#[test]
fn the_target_is_the_command_that_was_sent() {
    let paths = || TargetPaths {
        program: disk_path(r"C:\bin\tool.exe"),
        cwd: disk_path(r"C:\work"),
        state_dir: disk_path(r"C:\state"),
    };
    let request = spawn_request(r"C:\bin\tool.exe", vec![WireNativeString(vec![0x61, 0xd800])]);
    let target = spawn_helper_target(request, paths()).unwrap();
    assert_eq!(
        target.argv,
        [NativeString::from_text(r"C:\bin\tool.exe"), NativeString::Wide(vec![0x61, 0xd800])]
    );
    assert_eq!(target.cwd, disk_path(r"C:\work"));
    assert_eq!(target.environment, [(NativeString::from_text("KEY"), NativeString::from_text("value"))]);
    assert_eq!(target.stdout, StreamPlan::Take(12));
    assert_eq!(target.stdin, StreamPlan::OpenNull(GENERIC_READ));
    let broken = spawn_request(r"C:\bin\tool.exe", vec![WireNativeString(vec![0x61, 0])]);
    assert_eq!(
        spawn_helper_target(broken, paths()).unwrap_err().message,
        "standalone helper received a native value containing NUL"
    );
    let mut unrestricted = spawn_request(r"C:\bin\tool.exe", Vec::new());
    unrestricted.capability_sids = Vec::new();
    assert_eq!(
        spawn_helper_target(unrestricted, paths()).unwrap_err().message,
        "standalone helper received no filesystem capability SID"
    );
    let relative = TargetPaths {
        program: NativePath { text: NativeString::from_text("tool.exe"), absolute: false, components: Vec::new() },
        ..paths()
    };
    assert_eq!(
        spawn_helper_target(spawn_request("tool.exe", Vec::new()), relative).unwrap_err().message,
        "standalone helper received a non-absolute program"
    );
}

#[test]
fn unreachable_helpers_are_terminated() {
    assert!(matches!(
        spawn_helper(SpawnHelperStage::CreateInputPipe, Ok(())),
        SpawnHelperStep::Perform(SpawnHelperStage::CreateOutputPipe)
    ));
    assert!(matches!(spawn_helper(SpawnHelperStage::ConnectOutputPipe, Ok(())), SpawnHelperStep::Spawned));
    assert!(matches!(
        spawn_helper(SpawnHelperStage::CreateProcess, Err(Failure::new("5"))),
        SpawnHelperStep::Failed { failure, close_pipes: true, terminate_process: false }
            if failure.message == "CreateProcessWithLogonW failed for standalone helper: 5"
    ));
    assert!(matches!(
        spawn_helper(SpawnHelperStage::ConnectInputPipe, Err(Failure::new("timed out"))),
        SpawnHelperStep::Failed { close_pipes: true, terminate_process: true, .. }
    ));
}
