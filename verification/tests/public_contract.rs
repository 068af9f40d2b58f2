use codex_sandbox::error::{IoErrorKind, IoFailure, SandboxError, SandboxFeature};
use codex_sandbox::native::{NativePath, NativeString, PathComponent};
use codex_sandbox::process::{ProcessCompletion, ProcessLease, RootProcess, SandboxExitStatus, SandboxedChild, SandboxedProcess};
use codex_sandbox::process::{ChildObservation, ControlAction, ProcessSignal};
use codex_sandbox::runtime::command::HostPlatform;
use codex_sandbox::runtime::launch::{terminate_current_process_group_members, BackendReport, SandboxRuntime};
use codex_sandbox::runtime::linux::{dispatch_embedded_helper, HelperDispatch};
use codex_sandbox::types::{
    BackendPreference, CommandSpec, FileSystemBase, FileSystemPolicy, LinuxHelper, MissingPathBehavior, NetworkPolicy,
    PathAccess, PathRule, SandboxBackend, SandboxCapabilities, SandboxLifetime, SandboxPolicy, SandboxRequest,
    SandboxRuntimeConfig, SandboxStdio, SandboxStdioMode, TerminalPolicy, SANDBOX_API_VERSION,
};

fn path(text: &str) -> NativePath {
    let mut components = Vec::new();
    let absolute = text.starts_with('/');
    if absolute {
        components.push(PathComponent::RootDir);
    }
    for name in text.split('/').filter(|name| !name.is_empty()) {
        components.push(PathComponent::Normal(NativeString::from_text(name)));
    }
    NativePath { text: NativeString::from_text(text), absolute, components }
}

fn text(value: &str) -> NativeString {
    NativeString::from_text(value)
}

#[test]
fn constructs_the_documented_public_request() {
    let state_dir = path("/application/state");
    let runtime_root = path("/runtime");
    let cache_root = path("/cache");
    let home = path("/home/example");
    let cwd = path("/workspace");
    let env = vec![(text("ONLY"), text("this"))];

    let command = CommandSpec::new(path("worker"), cwd.clone(), vec![(text("ONLY"), text("this"))])
        .arg(text("--stdio"))
        .args(vec![text("-v")]);
    let policy = SandboxPolicy::platform_minimal()
        .read_only(runtime_root.clone())
        .read_write(cache_root.clone())
        .deny(home.clone())
        .network_denied()
        .terminal_inherited_or_created();
    let request = SandboxRequest::new(command, policy)
        .stdin(SandboxStdioMode::Pipe)
        .stdout(SandboxStdioMode::Inherit)
        .stderr(SandboxStdioMode::Null)
        .lifetime(SandboxLifetime::SupervisedProcessTree);
    let config = SandboxRuntimeConfig::new(state_dir.clone());

    assert_eq!(config.state_dir, state_dir);
    assert_eq!(config.backend, BackendPreference::PlatformDefault);
    assert_eq!(request.command.program, path("worker"));
    assert_eq!(request.command.args, vec![text("--stdio"), text("-v")]);
    assert_eq!(request.command.cwd, cwd);
    assert_eq!(request.command.env, env);
    assert_eq!(
        request.stdio,
        SandboxStdio {
            stdin: SandboxStdioMode::Pipe,
            stdout: SandboxStdioMode::Inherit,
            stderr: SandboxStdioMode::Null,
        }
    );
    assert_eq!(request.lifetime, SandboxLifetime::SupervisedProcessTree);
    assert_eq!(request.policy.filesystem.base, FileSystemBase::PlatformMinimal);
    assert_eq!(
        request.policy.filesystem,
        FileSystemPolicy {
            base: FileSystemBase::PlatformMinimal,
            rules: vec![
                PathRule { path: runtime_root, access: PathAccess::Read, missing: MissingPathBehavior::Error },
                PathRule { path: cache_root, access: PathAccess::Write, missing: MissingPathBehavior::Error },
                PathRule { path: home, access: PathAccess::Deny, missing: MissingPathBehavior::Error },
            ],
        }
    );
    assert_eq!(request.policy.network, NetworkPolicy::Denied);
    assert_eq!(request.policy.terminal, TerminalPolicy::InheritedAndCreatedOnly);
}

#[test]
fn request_defaults_preserve_version_one_streams_without_requesting_supervision() {
    let request = SandboxRequest::new(
        CommandSpec::new(path("worker"), path("/workspace"), Vec::new()),
        SandboxPolicy::host_read_only(),
    );

    assert_eq!(
        request.stdio,
        SandboxStdio {
            stdin: SandboxStdioMode::Null,
            stdout: SandboxStdioMode::Pipe,
            stderr: SandboxStdioMode::Pipe,
        }
    );
    assert_eq!(request.stdio, SandboxStdio::default());
    assert_eq!(request.lifetime, SandboxLifetime::BackendDefault);
    assert_eq!(request.policy.terminal, TerminalPolicy::BackendDefault);
}

#[test]
fn constructs_host_read_only_policy_with_missing_path_ignore() {
    let optional_root = path("/optional/root");
    let policy = SandboxPolicy::host_read_only()
        .rule(PathRule::new(optional_root.clone(), PathAccess::Read).ignore_if_missing())
        .network_unrestricted();

    assert_eq!(policy.filesystem.base, FileSystemBase::HostReadOnly);
    assert_eq!(
        policy.filesystem.rules,
        [PathRule { path: optional_root, access: PathAccess::Read, missing: MissingPathBehavior::Ignore }]
    );
    assert_eq!(policy.network, NetworkPolicy::Unrestricted);
}

#[test]
fn preserves_nested_rule_order() {
    let parent = path("/workspace");
    let child = path("/workspace/private");
    let policy = SandboxPolicy::host_read_only().read_write(parent.clone()).deny(child.clone());

    assert_eq!(
        policy.filesystem.rules,
        [PathRule::new(parent, PathAccess::Write), PathRule::new(child, PathAccess::Deny)]
    );
}

#[test]
fn exposes_the_versioned_runtime_and_process_contract() {
    let _: u32 = SANDBOX_API_VERSION;
    assert_eq!(SANDBOX_API_VERSION, 2);
    assert_send_sync::<SandboxRuntime>();
    assert_send::<SandboxedChild<Vec<u8>, Vec<u8>>>();
    assert_send_sync::<SandboxedProcess>();
    let _ = [
        SandboxBackend::MacosSeatbelt,
        SandboxBackend::LinuxBubblewrap,
        SandboxBackend::LinuxLandlock,
        SandboxBackend::WindowsRestrictedToken,
        SandboxBackend::WindowsElevated,
    ];
    let _ = [
        SandboxFeature::MinimalReadPolicy,
        SandboxFeature::DeniedReadPaths,
        SandboxFeature::DeniedWritePaths,
        SandboxFeature::NestedAllowUnderDeny,
        SandboxFeature::NetworkDenial,
        SandboxFeature::NetworkUnrestricted,
        SandboxFeature::Interrupt,
        SandboxFeature::ProcessTreeTermination,
        SandboxFeature::CurrentProcessGroupTermination,
        SandboxFeature::TerminalIsolation,
    ];
    let _: fn(SandboxExitStatus) -> Option<i32> = SandboxExitStatus::code;
    let _: fn(SandboxExitStatus) -> Option<i32> = SandboxExitStatus::signal;
    let _: fn(SandboxExitStatus) -> bool = SandboxExitStatus::success;

    let mut config = SandboxRuntimeConfig::new(path("/application/state"));
    assert_eq!(config.linux.helper, LinuxHelper::CurrentExecutable);
    config.linux.helper = LinuxHelper::External(path("/packaged/helper"));
    assert!(matches!(dispatch_embedded_helper(None), HelperDispatch::Register));

    let runtime = SandboxRuntime::new(path("/application/state"), BackendReport::Macos { launcher_installed: true });
    let runtime = runtime.unwrap_or_else(|_| panic!("an installed launcher is enough"));
    capabilities_contract(runtime.capabilities());
    error_contract(SandboxError::InvalidCommand { message: "message".to_string() });
    assert!(matches!(
        terminate_current_process_group_members(HostPlatform::Linux, 7, 7, 7),
        Err(SandboxError::UnsupportedPolicy { feature: SandboxFeature::CurrentProcessGroupTermination, .. })
    ));
    assert!(terminate_current_process_group_members(HostPlatform::Macos, 7, 7, 7).is_ok());
}

fn assert_send<T: Send>() {}

fn assert_send_sync<T: Send + Sync>() {}

fn capabilities_contract(capabilities: SandboxCapabilities) {
    let SandboxCapabilities {
        backend,
        minimal_read_policy,
        denied_read_paths,
        denied_write_paths,
        network_denial,
        network_unrestricted,
        interrupt,
        process_tree_termination,
        terminal_isolation,
    } = capabilities;
    assert_eq!(backend, SandboxBackend::MacosSeatbelt);
    assert_eq!(
        [
            minimal_read_policy,
            denied_read_paths,
            denied_write_paths,
            network_denial,
            network_unrestricted,
            interrupt,
            process_tree_termination,
            terminal_isolation,
        ],
        [true; 8]
    );
}

fn error_contract(error: SandboxError) {
    match error {
        SandboxError::UnsupportedPlatform { platform } => drop(platform),
        SandboxError::BackendUnavailable { backend, message } => drop((backend, message)),
        SandboxError::UnsupportedPolicy { backend, feature, message } => drop((backend, feature, message)),
        SandboxError::InvalidCommand { message } => drop(message),
        SandboxError::InvalidOperation { message } => drop(message),
        SandboxError::InvalidPath { path, message } => drop((path, message)),
        SandboxError::Preparation { backend, message, source } | SandboxError::Spawn { backend, message, source } => {
            drop((backend, message, source))
        }
        SandboxError::Io { operation, source } => drop((operation, source)),
    }
}

fn running_root(backend: SandboxBackend) -> SandboxedProcess {
    SandboxedProcess {
        backend,
        lifetime: SandboxLifetime::BackendDefault,
        process: ProcessLease::Root(RootProcess { process_id: 41, completion: ProcessCompletion::Running }),
    }
}

#[test]
fn a_running_root_is_polled_interrupted_and_terminated() {
    let mut process = running_root(SandboxBackend::LinuxBubblewrap);
    assert!(matches!(process.try_root_status(ChildObservation::Running), Ok(None)));
    assert!(matches!(
        process.terminate(ChildObservation::Running),
        ControlAction::SignalProcess { process_id: 41, signal: ProcessSignal::Kill }
    ));
    let status = SandboxExitStatus::from_code(3);
    assert!(matches!(
        process.try_root_status(ChildObservation::Exited(status)),
        Ok(Some(seen)) if seen.code() == Some(3) && !seen.success()
    ));
    assert!(matches!(process.terminate(ChildObservation::Running), ControlAction::Nothing));
    assert_eq!(process.backend(), SandboxBackend::LinuxBubblewrap);
    assert_eq!(process.lifetime(), SandboxLifetime::BackendDefault);
}

#[test]
fn an_interrupt_is_refused_where_the_backend_has_none() {
    let mut process = SandboxedProcess {
        backend: SandboxBackend::WindowsRestrictedToken,
        lifetime: SandboxLifetime::BackendDefault,
        process: ProcessLease::Windows(codex_sandbox::process::WindowsProcess {
            lifetime: SandboxLifetime::BackendDefault,
            completion: ProcessCompletion::Running,
            exit_code: None,
        }),
    };
    assert!(matches!(
        process.interrupt(ChildObservation::Running),
        Err(SandboxError::UnsupportedPolicy { feature: SandboxFeature::Interrupt, .. })
    ));
}

#[test]
fn streams_are_taken_once() {
    let mut child = SandboxedChild {
        process: running_root(SandboxBackend::MacosSeatbelt),
        stdin: Some(1_u8),
        stdout: Some(2_u16),
        stderr: None,
    };
    assert_eq!((child.take_stdin(), child.take_stdin()), (Some(1), None));
    assert_eq!((child.take_stdout(), child.take_stdout()), (Some(2), None));
    assert_eq!(child.take_stderr(), None);
}

#[test]
fn errors_say_what_went_wrong() {
    let error = SandboxError::io("waiting", IoFailure::new(IoErrorKind::TimedOut, "too late"));
    assert!(error.message().contains("waiting"));
    assert!(error.message().contains("too late"));
    let unsupported = SandboxError::UnsupportedPolicy {
        backend: SandboxBackend::LinuxBubblewrap,
        feature: SandboxFeature::NetworkDenial,
        message: "no namespace".to_string(),
    };
    assert!(unsupported.message().contains("NetworkDenial"));
    let unavailable = SandboxError::BackendUnavailable {
        backend: Some(SandboxBackend::MacosSeatbelt),
        message: "not installed".to_string(),
    };
    assert!(unavailable.message().contains("not installed"));
}

#[test]
fn commands_compare_their_programs_by_spelling() {
    let command = |program: &str, cwd: &str| {
        CommandSpec::new(path(program), path(cwd), vec![(text("KEY"), text("value"))]).arg(text("a"))
    };
    assert_eq!(path("/bin//sh"), path("/bin/sh"));
    assert_ne!(command("/bin//sh", "/"), command("/bin/sh", "/"));
    assert_eq!(command("/bin/sh", "/tmp//"), command("/bin/sh", "/tmp"));
    assert_eq!(command("/bin/sh", "/").clone(), command("/bin/sh", "/"));
    assert_ne!(command("/bin/sh", "/").arg(text("b")), command("/bin/sh", "/"));
    let request = |program| SandboxRequest::new(command(program, "/"), SandboxPolicy::host_read_only());
    assert_ne!(request("/bin//sh"), request("/bin/sh"));
    let mut other = command("/bin/sh", "/");
    other.env = vec![(text("KEY"), text("other"))];
    assert_ne!(other, command("/bin/sh", "/"));
}
