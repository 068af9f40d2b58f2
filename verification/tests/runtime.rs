use codex_sandbox::error::{SandboxError, SandboxFeature};
use codex_sandbox::native::{NativePath, NativeString, PathComponent};
use codex_sandbox::policy::host::{InternalRoot, Resolution};
use codex_sandbox::policy::linux::PathCrossings;
use codex_sandbox::policy::prepare::NetworkSandboxPolicy;
use codex_sandbox::runtime::command::{
    host_backend, validate_command, validate_command_cwd, DirectoryProbe, HostPlatform,
};
use codex_sandbox::runtime::launch::{
    prepare_state_directory, terminate_current_process_group_members, text_environment, validate_network_denial,
    BackendReport, BwrapReport, LaunchReport, SandboxRuntime, StateDirectoryReport,
};
use codex_sandbox::runtime::linux::{
    dispatch_embedded_helper, linux_helper_options, select_linux_helper, text_target, BwrapStatus, ExecutableProbe,
    FileStatus, HelperDirectoryReport, HelperDispatch, HelperSelection, LinuxRuntimeHelper,
};
use codex_sandbox::runtime::spawn::{
    denies_preexisting_terminals, linux_target, spawn_linux, spawn_macos, spawn_windows,
};
use codex_sandbox::seatbelt::{
    create_seatbelt_command_prefix, CreateSeatbeltCommandPrefixParams, MACOS_SANDBOX_EXEC_PATH,
};
use codex_sandbox::types::{
    CommandSpec, LinuxHelper, SandboxBackend, SandboxLifetime, SandboxPolicy, SandboxRequest, SandboxRuntimeConfig,
    TerminalPolicy,
};

fn text(value: &str) -> NativeString {
    NativeString::from_text(value)
}

fn path(value: &str) -> NativePath {
    let mut components = Vec::new();
    let absolute = value.starts_with('/');
    if absolute {
        components.push(PathComponent::RootDir);
    }
    for name in value.split('/').filter(|name| !name.is_empty()) {
        components.push(PathComponent::Normal(text(name)));
    }
    NativePath { text: text(value), absolute, components }
}

fn executable(at: &str) -> ExecutableProbe {
    ExecutableProbe {
        status: FileStatus::Known { is_file: true, mode: 0o755 },
        resolution: Resolution::Resolved(path(at)),
    }
}

fn message_of<T>(result: Result<T, SandboxError>) -> String {
    match result {
        Ok(_) => panic!("the operation must fail"),
        Err(error) => error.message(),
    }
}

#[test]
fn rejects_non_utf8_state_directory() {
    let state_dir = NativePath {
        text: NativeString::Bytes(vec![b'/', b't', b'm', b'p', b'/', b's', 0xff]),
        absolute: true,
        components: vec![
            PathComponent::RootDir,
            PathComponent::Normal(text("tmp")),
            PathComponent::Normal(NativeString::Bytes(vec![b's', 0xff])),
        ],
    };
    let report = StateDirectoryReport {
        creation_failure: None,
        resolution: Resolution::Resolved(state_dir.clone()),
        is_directory: true,
    };
    let config = SandboxRuntimeConfig::new(state_dir.clone());
    let error = match prepare_state_directory(&config, HostPlatform::Linux, "linux", &report) {
        Ok(_) => panic!("non-UTF-8 state directory should fail"),
        Err(error) => error,
    };

    assert!(matches!(error, SandboxError::InvalidPath { path, .. } if path == state_dir));
}

#[test]
fn state_directories_are_created_resolved_and_checked() {
    let config = SandboxRuntimeConfig::new(path("/application/state"));
    let report = |creation_failure, is_directory| StateDirectoryReport {
        creation_failure,
        resolution: Resolution::Resolved(path("/real/state")),
        is_directory,
    };
    let prepared = prepare_state_directory(&config, HostPlatform::Linux, "linux", &report(None, true));
    assert!(matches!(prepared, Ok(state_dir) if state_dir == path("/real/state")));
    let refused = prepare_state_directory(&config, HostPlatform::Linux, "linux", &report(None, false));
    assert!(message_of(refused).contains("the sandbox state path must be a directory"));
    let denied =
        prepare_state_directory(&config, HostPlatform::Linux, "linux", &report(Some("EACCES".to_string()), true));
    assert!(message_of(denied).contains("failed to create application-owned state directory /application/state"));
    let other = prepare_state_directory(&config, HostPlatform::Other, "plan9", &report(None, true));
    assert!(matches!(other, Err(SandboxError::UnsupportedPlatform { platform }) if platform == "plan9"));
}

#[test]
fn current_executable_requires_the_startup_dispatch_hook() {
    let config = SandboxRuntimeConfig::new(path("/tmp/state"));
    let error = match select_linux_helper(
        &config.linux.helper,
        false,
        &Resolution::Resolved(path("/bin/application")),
        &executable("/bin/application"),
    ) {
        Ok(_) => panic!("CurrentExecutable should require startup helper registration"),
        Err(error) => error,
    };

    assert!(matches!(error, SandboxError::BackendUnavailable { .. }));
}

#[test]
fn helpers_are_external_executables_or_registered_aliases() {
    let current = Resolution::Resolved(path("/bin/application"));
    assert!(matches!(
        select_linux_helper(&LinuxHelper::CurrentExecutable, true, &current, &executable("/bin/application")),
        Ok(HelperSelection::Alias(target)) if target == path("/bin/application")
    ));
    let external = LinuxHelper::External(path("/opt/helper"));
    assert!(matches!(
        select_linux_helper(&external, false, &current, &executable("/opt/helper")),
        Ok(HelperSelection::External(helper)) if helper == path("/opt/helper")
    ));
    let data_file = ExecutableProbe {
        status: FileStatus::Known { is_file: true, mode: 0o644 },
        resolution: Resolution::Resolved(path("/opt/helper")),
    };
    assert!(message_of(select_linux_helper(&external, false, &current, &data_file))
        .contains("the Linux sandbox helper is not an executable file"));
    assert!(matches!(
        dispatch_embedded_helper(Some(&path("/private/codex-linux-sandbox"))),
        HelperDispatch::RunHelper
    ));
    assert!(matches!(dispatch_embedded_helper(Some(&path("/bin/application"))), HelperDispatch::Register));
}

fn linux_report(network_namespace: bool, seccomp_supported: bool) -> BackendReport {
    let helper = LinuxRuntimeHelper::new(
        HelperSelection::External(path("/opt/helper")),
        HelperDirectoryReport {
            directory: Resolution::Resolved(path("/state/helper")),
            registry_root: Resolution::Resolved(path("/state/helper/registry")),
            alias: Resolution::Failed("unused".to_string()),
        },
    );
    BackendReport::Linux {
        helper: helper.unwrap_or_else(|error| panic!("{}", error.message())),
        working_directory_failure: None,
        bwrap: Some(BwrapReport {
            program: path("/usr/bin/bwrap"),
            resolution: Resolution::Resolved(path("/usr/bin/bwrap")),
            network_namespace,
        }),
        seccomp_supported,
    }
}

#[test]
fn linux_capabilities_follow_the_host() {
    let runtime = SandboxRuntime::new(path("/state"), linux_report(true, true))
        .unwrap_or_else(|error| panic!("{}", error.message()));
    let capabilities = runtime.capabilities();
    assert_eq!(capabilities.backend, SandboxBackend::LinuxBubblewrap);
    assert!(capabilities.network_denial && !capabilities.process_tree_termination);
    let weak = SandboxRuntime::new(path("/state"), linux_report(false, true))
        .unwrap_or_else(|error| panic!("{}", error.message()));
    assert!(!weak.capabilities().network_denial);
    assert!(matches!(
        validate_network_denial(weak.capabilities(), NetworkSandboxPolicy::Restricted),
        Err(SandboxError::UnsupportedPolicy { feature: SandboxFeature::NetworkDenial, .. })
    ));
    assert!(validate_network_denial(weak.capabilities(), NetworkSandboxPolicy::Enabled).is_ok());
    assert!(matches!(
        SandboxRuntime::new(path("/state"), BackendReport::Macos { launcher_installed: false }),
        Err(SandboxError::BackendUnavailable { .. })
    ));
    assert_eq!(host_backend(HostPlatform::Windows), SandboxBackend::WindowsRestrictedToken);
}

fn launch_report(runtime: &SandboxRuntime, helper: Option<(ExecutableProbe, BwrapStatus)>) -> LaunchReport {
    let helper_target = Resolution::Resolved(path("/opt/helper"));
    let internal_roots = runtime
        .internal_read_roots(&helper_target)
        .into_iter()
        .map(|root| InternalRoot { resolution: Resolution::Resolved(root.clone()), path: root })
        .collect();
    LaunchReport {
        cwd: DirectoryProbe { is_directory: Ok(true), resolution: Resolution::Resolved(path("/workspace")) },
        helper,
        helper_target,
        rules: Vec::new(),
        internal_roots,
    }
}

fn stable() -> PathCrossings {
    PathCrossings { read_only: Vec::new(), unreadable: Vec::new() }
}

#[test]
fn launches_stay_within_the_capabilities() {
    let runtime = SandboxRuntime::new(path("/state"), linux_report(true, true))
        .unwrap_or_else(|error| panic!("{}", error.message()));
    let request = |policy| {
        SandboxRequest::new(CommandSpec::new(path("/bin/true"), path("/workspace"), Vec::new()), policy)
    };
    let helper = |available| Some((executable("/opt/helper"), BwrapStatus { available, network_namespace: true }));
    let policy = SandboxPolicy::host_read_only().network_denied();
    assert!(runtime.authorize(&request(policy), &launch_report(&runtime, helper(true)), &stable()).is_ok());
    let unavailable =
        runtime.authorize(&request(SandboxPolicy::host_read_only()), &launch_report(&runtime, helper(false)), &stable());
    assert!(message_of(unavailable).contains("cannot create a user namespace"));
    let crossing = PathCrossings { read_only: Vec::new(), unreadable: vec![Some(path("/workspace/link"))] };
    let unstable = request(SandboxPolicy::host_read_only());
    assert!(message_of(runtime.authorize(&unstable, &launch_report(&runtime, helper(true)), &crossing))
        .contains("a deny rule crosses writable symlink /workspace/link"));
    assert!(runtime.draft(&unstable, &launch_report(&runtime, helper(true))).is_ok());
    let supervised =
        request(SandboxPolicy::host_read_only()).lifetime(SandboxLifetime::SupervisedProcessTree);
    assert!(matches!(
        runtime.authorize(&supervised, &launch_report(&runtime, helper(true)), &stable()),
        Err(SandboxError::UnsupportedPolicy { feature: SandboxFeature::ProcessTreeTermination, .. })
    ));
    let terminal = request(SandboxPolicy::host_read_only().terminal_inherited_or_created());
    assert!(matches!(
        runtime.authorize(&terminal, &launch_report(&runtime, helper(true)), &stable()),
        Err(SandboxError::UnsupportedPolicy { feature: SandboxFeature::TerminalIsolation, .. })
    ));
}

#[test]
fn commands_are_validated_before_anything_runs() {
    let linux = HostPlatform::Linux;
    let command = |program: &str, env| CommandSpec::new(path(program), path("/workspace"), env);
    assert!(validate_command(linux, &command("/bin/true", Vec::new())).is_ok());
    assert!(message_of(validate_command(linux, &command("bin/true", Vec::new())))
        .contains("program must be an absolute path"));
    assert!(message_of(validate_command(linux, &command("", Vec::new()))).contains("program must not be empty"));
    let nul = command("/bin/true", Vec::new()).arg(text("a\0b"));
    assert!(message_of(validate_command(linux, &nul)).contains("argument must not contain an interior NUL"));
    let bytes = command("/bin/true", Vec::new()).arg(NativeString::Bytes(vec![0xff]));
    assert!(message_of(validate_command(linux, &bytes)).contains("argument must be valid UTF-8"));
    assert!(validate_command(HostPlatform::Macos, &bytes).is_ok() != validate_command(linux, &bytes).is_ok());
    let empty_key = command("/bin/true", vec![(text(""), text("value"))]);
    assert!(message_of(validate_command(linux, &empty_key)).contains("environment keys must not be empty"));
    let loader = command("/bin/true", vec![(text("LD_PRELOAD"), text("x"))]);
    assert!(message_of(validate_command(linux, &loader)).contains("LD_"));
    assert!(validate_command(HostPlatform::Macos, &loader).is_ok());
    let dyld = command("/bin/true", vec![(text("DYLD_INSERT_LIBRARIES"), text("x"))]);
    assert!(message_of(validate_command(HostPlatform::Macos, &dyld)).contains("DYLD_"));
    let drive = command("/bin/true", vec![(text("=C:"), text("C:\\"))]);
    assert!(validate_command(HostPlatform::Windows, &drive).is_ok());
    assert!(validate_command(linux, &drive).is_err());
    let ambiguous = command("/bin/true", vec![(text("Path"), text("a")), (text("straße"), text("b"))]);
    assert!(validate_command(HostPlatform::Windows, &ambiguous).is_ok());
    let ambiguous = command("/bin/true", vec![(text("STRASSE"), text("a")), (text("straße"), text("b"))]);
    assert!(message_of(validate_command(HostPlatform::Windows, &ambiguous)).contains("unique ignoring case"));
}

#[test]
fn working_directories_must_exist() {
    let command = CommandSpec::new(path("/bin/true"), path("/workspace"), Vec::new());
    let probe = |is_directory| DirectoryProbe {
        is_directory,
        resolution: Resolution::Resolved(path("/workspace")),
    };
    assert!(validate_command_cwd(&command, &probe(Ok(true))).is_ok());
    assert!(message_of(validate_command_cwd(&command, &probe(Ok(false)))).contains("is not a directory"));
    assert!(message_of(validate_command_cwd(&command, &probe(Err("ENOENT".to_string())))).contains("ENOENT"));
    let relative = CommandSpec::new(path("/bin/true"), path("workspace"), Vec::new());
    assert!(message_of(validate_command_cwd(&relative, &probe(Ok(true)))).contains("must be absolute"));
}

#[test]
fn helper_commands_carry_the_pinned_launcher() {
    let options = linux_helper_options(&path("/usr/bin/bwrap"), "system", &path("/state/registry"));
    assert_eq!(
        options,
        [
            "--embedding",
            "--embedding-bwrap",
            "/usr/bin/bwrap",
            "--embedding-bwrap-kind",
            "system",
            "--embedding-registry-root",
            "/state/registry",
        ]
        .map(text)
    );
    let command = CommandSpec::new(path("/bin/echo"), path("/"), Vec::new()).args(vec![text("a"), text("b")]);
    assert_eq!(text_target(&command).ok(), Some(vec!["/bin/echo".to_string(), "a".to_string(), "b".to_string()]));
    let env = vec![(text("KEY"), text("value"))];
    assert_eq!(text_environment(&env).ok(), Some(vec![("KEY".to_string(), "value".to_string())]));
    assert!(text_environment(&vec![(text("KEY"), NativeString::Wide(vec![0xd800]))]).is_err());
}

#[test]
fn only_an_isolated_leader_may_stop_its_group() {
    assert!(terminate_current_process_group_members(HostPlatform::Macos, 7, 7, 7).is_ok());
    assert!(matches!(
        terminate_current_process_group_members(HostPlatform::Macos, 7, 6, 7),
        Err(SandboxError::InvalidOperation { .. })
    ));
    assert!(matches!(
        terminate_current_process_group_members(HostPlatform::Macos, u32::MAX, 7, 7),
        Err(SandboxError::InvalidOperation { .. })
    ));
}

#[test]
fn builds_a_closed_network_profile_with_lossless_path_parameters() {
    let writable_path = NativePath {
        text: NativeString::Bytes(b"/tmp/private-\xFE".to_vec()),
        absolute: true,
        components: vec![
            PathComponent::RootDir,
            PathComponent::Normal(text("tmp")),
            PathComponent::Normal(NativeString::Bytes(b"private-\xFE".to_vec())),
        ],
    };
    let base_policy = "(version 1)\n(deny default)";
    let arguments = create_seatbelt_command_prefix(
        base_policy,
        CreateSeatbeltCommandPrefixParams {
            allow_read_all: true,
            writable_roots: &vec![writable_path],
            allow_network: false,
            extra_policy_sections: &vec!["(deny file-read* (literal \"/dev/tty\"))".to_string()],
        },
    );

    assert_eq!(MACOS_SANDBOX_EXEC_PATH, "/usr/bin/sandbox-exec");
    assert_eq!(arguments.first(), Some(&text("-p")));
    let policy = arguments[1].display();
    assert!(policy.contains("(deny default)"));
    assert_eq!(
        policy.strip_prefix(base_policy),
        Some(
            "\n(allow file-read*)\n(allow file-write* (subpath (param \"WRITABLE_ROOT_0\")))\n\
             (deny file-read* (literal \"/dev/tty\"))"
        )
    );
    assert!(policy.contains("(allow file-read*)"));
    assert!(policy.contains("(allow file-write* (subpath (param \"WRITABLE_ROOT_0\")))"));
    assert!(policy.contains("(deny file-read* (literal \"/dev/tty\"))"));
    assert!(!policy.contains("(allow network-outbound)"));
    assert_eq!(arguments[2], NativeString::Bytes(b"-DWRITABLE_ROOT_0=/tmp/private-\xFE".to_vec()));
    assert_eq!(arguments.last(), Some(&text("--")));
}

#[test]
fn native_commands_carry_the_target_whole() {
    let env = || vec![(text("KEY"), text("value"))];
    let command = || CommandSpec::new(path("/bin/echo"), path("/workspace"), env()).arg(NativeString::Bytes(vec![0xff]));
    let prefix = vec![text("-p"), text("(deny default)"), text("--")];
    let native = spawn_macos(SandboxBackend::MacosSeatbelt, Ok(prefix), command())
        .unwrap_or_else(|error| panic!("{}", error.message()));
    assert_eq!(native.program, text("/usr/bin/sandbox-exec"));
    assert_eq!(
        native.args,
        [text("-p"), text("(deny default)"), text("--"), text("/bin/echo"), NativeString::Bytes(vec![0xff])]
    );
    assert_eq!((native.cwd, native.env), (path("/workspace"), env()));
    assert!(matches!(
        spawn_macos(SandboxBackend::MacosSeatbelt, Err("bad glob".to_string()), command()),
        Err(SandboxError::Preparation { message, source: None, .. }) if message == "bad glob"
    ));
    assert!(denies_preexisting_terminals(TerminalPolicy::InheritedAndCreatedOnly));
    assert!(!denies_preexisting_terminals(TerminalPolicy::BackendDefault));

    let runtime = SandboxRuntime::new(path("/state"), linux_report(false, true))
        .unwrap_or_else(|error| panic!("{}", error.message()));
    let plain = || CommandSpec::new(path("/bin/echo"), path("/workspace"), env()).arg(text("a"));
    assert_eq!(
        linux_target(runtime.capabilities(), NetworkSandboxPolicy::Enabled, &plain()).ok(),
        Some(vec!["/bin/echo".to_string(), "a".to_string()])
    );
    assert!(linux_target(runtime.capabilities(), NetworkSandboxPolicy::Restricted, &plain()).is_err());
    let linux = runtime.linux.as_ref().unwrap();
    let native = spawn_linux(&linux.helper, &linux.bwrap_program, "system", vec![text("--"), text("x")], plain());
    assert_eq!(native.program, text("/opt/helper"));
    assert_eq!(native.args.len(), 9);
    assert_eq!(native.args[6], text("/state/helper/registry"));
    assert_eq!(native.args[7..], [text("--"), text("x")]);

    let target = spawn_windows(&plain()).unwrap_or_else(|error| panic!("{}", error.message()));
    assert_eq!(target.command, ["/bin/echo", "a"]);
    assert_eq!(target.env, [("KEY".to_string(), "value".to_string())]);
    assert!(spawn_windows(&command()).is_err());
}
