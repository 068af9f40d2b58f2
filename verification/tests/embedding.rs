use codex_sandbox::error::{IoErrorKind, IoFailure};
use codex_sandbox::native::{NativePath, NativeString, PathComponent, PathPrefix};
use codex_sandbox::windows::deny_write_state::{
    after_sync_step, applied_count, apply_paths, sync_persistent_deny_write_acls, KeyedPath, PrincipalPaths, SyncEvent,
    SyncProgress, SyncStep,
};
use codex_sandbox::windows::embedding::ace::{
    require_acl_read, revoke_path_ace, update_acl, update_null_device_ace, update_window_station_ace, SET_ACCESS,
};
use codex_sandbox::windows::embedding::acl::{
    acl_change_failure, apply_embedding_acl_rules, deny_root_capabilities_for_path, matching_root_capability,
    AclStep, AclTarget, EmbeddingAclLease, RootRelation,
};
use codex_sandbox::windows::embedding::env_block::{env_block_by_name, make_embedding_env_block, FoldedVariable};
use codex_sandbox::windows::embedding::launch::{
    create_embedding_process, finish_embedding_spawn, handles_to_close, InputRequest, InputStep, InputWriter,
};
use codex_sandbox::windows::embedding::process::{
    close_acknowledged, creation_failure_message, CreationRequest, exposes_transport, inherited_handles, prepare_stream,
    terminate_job_or_process, write_acknowledged, write_all_handle, RootTermination, StandardStream,
    StreamPreparation, WindowsSandboxEmbeddingProcessHandle, WindowsSandboxEmbeddingStdio,
    WindowsSandboxEmbeddingStdioMode,
};
use codex_sandbox::windows::embedding::session::{
    create_embedding_token_with_caps_from, prepare_embedding_session_security,
    spawn_windows_sandbox_session_for_embedding,
    SessionCapabilities, SessionEvent, SessionStage, SessionStep,
};
use codex_sandbox::windows::failure::Failure;
use codex_sandbox::windows::namespace::WindowsSandboxPolicyNamespace;
use codex_sandbox::windows::standalone::window_access::REVOKE_ACCESS;
use codex_sandbox::windows::wfp::filter_specs::{filter_specs, ConditionSpec, FilterSpec};
use codex_sandbox::windows::wfp::verify::{
    provider_key, retrieve, sublayer_key, verify_wfp_filters_for_account_in_namespace, ConditionField,
    ConditionRecord, ConditionValue, FilterRecord, InstalledObjects, ProviderRecord, SecurityDescriptor,
    SublayerRecord, FWPM_FLAG_PERSISTENT, SUBLAYER_WEIGHT,
};

fn path(value: &str) -> NativePath {
    let mut components = vec![PathComponent::Prefix(PathPrefix::Disk(b'C')), PathComponent::RootDir];
    for name in value.trim_start_matches("C:\\").split('\\').filter(|name| !name.is_empty()) {
        components.push(PathComponent::Normal(NativeString::from_text(name)));
    }
    NativePath { text: NativeString::from_text(value), absolute: true, components }
}

#[test]
fn spawn_failure_does_not_disclose_or_persist_the_command() {
    let secret_program = r"C:\codex-embedding-secret-program-never-exists.exe";
    let secret_argument = "embedding-secret-argument";

    let request = |command: Vec<String>| CreationRequest {
        command,
        cwd: path(r"C:\cwd"),
        environment_block: make_embedding_env_block(&Vec::new()),
        startup_flags: 0x100,
        creation_flags: 0x8000,
    };
    let secret = request(vec![secret_program.to_string(), secret_argument.to_string()]);
    let error = creation_failure_message(&secret, 2, "The system cannot find the file.");

    assert!(error.contains("CreateProcessAsUserW failed"), "{error}");
    assert!(!error.contains(secret_program), "{error}");
    assert!(!error.contains(secret_argument), "{error}");
    assert_eq!(
        error,
        "CreateProcessAsUserW failed: 2 (The system cannot find the file.) | cwd=C:\\cwd | env_u16_len=2 | \
         si_flags=256 | creation_flags=32768"
    );
    let other = request(vec!["other".to_string()]);
    assert_eq!(creation_failure_message(&other, 2, "The system cannot find the file."), error);
}

#[test]
fn embedding_stdio_modes_are_independent() {
    let stdio = WindowsSandboxEmbeddingStdio {
        stdin: WindowsSandboxEmbeddingStdioMode::Pipe,
        stdout: WindowsSandboxEmbeddingStdioMode::Pipe,
        stderr: WindowsSandboxEmbeddingStdioMode::Null,
    };
    assert!(!exposes_transport(stdio.stderr));
    assert!(exposes_transport(stdio.stdout));
    assert!(matches!(
        prepare_stream(stdio.stdin, StandardStream::Stdin, 5),
        StreamPreparation::Pipe { child_reads: true }
    ));
    assert!(matches!(
        prepare_stream(stdio.stdout, StandardStream::Stdout, 6),
        StreamPreparation::Pipe { child_reads: false }
    ));
    let mut session = WindowsSandboxEmbeddingProcessHandle::new(stdio.stdin);
    assert!(session.write_all().is_ok());
    assert!(session.close_stdin());
    assert_eq!(session.write_all().unwrap_err().kind, IoErrorKind::BrokenPipe);
    session.completed(Some(0));
    assert_eq!(session.exit_code(), Some(0));
}

#[test]
fn inherited_and_null_stdio_do_not_expose_pipe_transports() {
    let stdio = WindowsSandboxEmbeddingStdio {
        stdin: WindowsSandboxEmbeddingStdioMode::Null,
        stdout: WindowsSandboxEmbeddingStdioMode::Inherit,
        stderr: WindowsSandboxEmbeddingStdioMode::Null,
    };
    assert!(!exposes_transport(stdio.stdout));
    assert!(!exposes_transport(stdio.stderr));
    assert!(matches!(prepare_stream(stdio.stdout, StandardStream::Stdout, 6), StreamPreparation::Duplicate(6)));
    let mut session = WindowsSandboxEmbeddingProcessHandle::new(stdio.stdin);
    let error = session.write_all().expect_err("non-piped stdin should reject writes");
    assert_eq!(error.kind, IoErrorKind::BrokenPipe);
    session.completed(Some(0));
    assert!(session.has_exited());
    assert_eq!(session.exit_code(), Some(0));
}

#[test]
fn sessions_keep_the_job_until_it_was_terminated() {
    let mut session = WindowsSandboxEmbeddingProcessHandle::new(WindowsSandboxEmbeddingStdioMode::Null);
    session.completed(None);
    assert_eq!(session.exit_code(), Some(-1));
    assert!(session.terminator);
    assert!(session.terminate(Ok(())).is_ok());
    assert!(!session.terminator);
    let failure = IoFailure::new(IoErrorKind::Other, "job");
    let mut stuck = WindowsSandboxEmbeddingProcessHandle::new(WindowsSandboxEmbeddingStdioMode::Null);
    assert!(!stuck.revokes_entries_on_drop(&Err(failure)));
    assert!(stuck.revokes_entries_on_drop(&Ok(())));
    assert!(stuck.terminate(Err(IoFailure::new(IoErrorKind::Other, "job"))).is_err());
    assert!(terminate_job_or_process(Ok(()), &RootTermination::Failed("e".to_string())).is_ok());
    assert!(terminate_job_or_process(Err("job".to_string()), &RootTermination::Done).is_err());
    assert_eq!(write_all_handle(10, Ok(4)).unwrap(), 6);
    assert_eq!(write_all_handle(10, Ok(0)).unwrap_err().kind, IoErrorKind::WriteZero);
    assert!(write_acknowledged(Some(Ok(()))).is_ok());
    assert!(write_acknowledged(None).is_err());
    assert_eq!(close_acknowledged(None).unwrap_err().kind, IoErrorKind::BrokenPipe);
    assert_eq!(inherited_handles(4, 4, 0), [4]);
}

#[test]
fn processes_inherit_their_standard_handles_only() {
    let creation = create_embedding_process(8, 4, 8);
    assert_eq!(creation.inherited, [4, 8]);
    assert_eq!((creation.inherit_handles, creation.attributes, creation.startup_flags), (true, 2, 0x100));
    assert_eq!(creation.creation_flags, 0x8_0400);
    let detached = create_embedding_process(0, -1, 0);
    assert!(detached.inherited.is_empty() && !detached.inherit_handles);
    assert_eq!((detached.attributes, detached.startup_flags), (1, 0));
    let transports = finish_embedding_spawn(WindowsSandboxEmbeddingStdio {
        stdin: WindowsSandboxEmbeddingStdioMode::Inherit,
        stdout: WindowsSandboxEmbeddingStdioMode::Pipe,
        stderr: WindowsSandboxEmbeddingStdioMode::Null,
    });
    assert!(transports.stdout && !transports.stderr && !transports.session.stdin_open);
    assert_eq!(handles_to_close(3, Some(4), -1), [3, 4]);
    assert_eq!(handles_to_close(0, None, 9), [9]);
}

#[test]
fn the_input_writer_ends_once() {
    let mut writer = InputWriter::new();
    assert!(matches!(writer.serve(InputRequest::Write), InputStep::WriteBytes));
    writer.wrote(false);
    assert!(writer.open);
    assert!(matches!(writer.serve(InputRequest::Close), InputStep::CloseAndEnd));
    assert!(matches!(
        writer.serve(InputRequest::Write),
        InputStep::Reject(failure) if failure.kind == IoErrorKind::BrokenPipe
    ));
    let mut failed = InputWriter::new();
    failed.wrote(true);
    assert!(!failed.open);
}

#[test]
fn device_entries_are_set_and_revoked() {
    assert_eq!(update_null_device_ace(SET_ACCESS).permissions, 0x0012_01bf);
    assert_eq!(update_window_station_ace(SET_ACCESS).permissions, 0x37f);
    assert_eq!(update_null_device_ace(REVOKE_ACCESS).permissions, 0);
    assert_eq!(update_window_station_ace(REVOKE_ACCESS).permissions, 0);
    assert_eq!(revoke_path_ace().inheritance, 3);
    assert!(matches!(update_acl(0, 0), Ok(true)));
    assert_eq!(update_acl(5, 0).unwrap_err().message, "SetEntriesInAclW failed: 5");
    assert_eq!(update_acl(0, 6).unwrap_err().message, "setting the updated ACL failed: 6");
    assert!(require_acl_read(&AclTarget::NullDevice, 0).is_ok());
    assert_eq!(
        require_acl_read(&AclTarget::WindowStation, 5).unwrap_err().message,
        "GetSecurityInfo failed for Winsta0: 5"
    );
}

#[test]
fn environment_blocks_are_sorted_and_terminated() {
    let entry = |key: &str, value: &str| (key.to_string(), value.to_string());
    let block = make_embedding_env_block(&vec![entry("b", "2"), entry("A", "1")]);
    assert_eq!(block, "A=1\0b=2\0\0".encode_utf16().collect::<Vec<u16>>());
    let folded = |upper: &str, name: &str| FoldedVariable {
        upper: upper.to_string(),
        name: name.to_string(),
        value: "v".to_string(),
    };
    assert_eq!(
        env_block_by_name(&vec![folded("B", "a"), folded("A", "b"), folded("A", "B")]),
        "B=v\0b=v\0a=v\0\0".encode_utf16().collect::<Vec<u16>>()
    );
    assert_eq!(make_embedding_env_block(&Vec::new()), "\0\0".encode_utf16().collect::<Vec<u16>>());
}

fn relation(contains: bool, overlaps: bool, specificity: usize) -> RootRelation {
    RootRelation { contains, overlaps, specificity }
}

#[test]
fn paths_belong_to_their_most_specific_root() {
    let relations = vec![relation(true, true, 1), relation(true, true, 3), relation(false, true, 9)];
    assert_eq!(matching_root_capability(&relations), Some(1));
    assert_eq!(matching_root_capability(&vec![relation(false, false, 1)]), None);
    assert_eq!(deny_root_capabilities_for_path(&relations), [0, 1, 2]);
    let plan = apply_embedding_acl_rules(
        Ok(()),
        &vec![true, false],
        &vec![path(r"C:\work")],
        &vec![relations],
        &vec![vec![relation(false, false, 1), relation(true, true, 2), relation(false, false, 1)]],
        3,
        false,
    )
    .unwrap();
    assert!(matches!(plan.allow.as_slice(), [AclStep::AllowWrite(0, 1)]));
    assert!(matches!(plan.create.as_slice(), [AclStep::CreateDenied(1)]));
    assert!(matches!(plan.deny.as_slice(), [AclStep::DenyWrite(0, 1)]));
    assert_eq!(plan.devices.len(), 3);
    let refused =
        apply_embedding_acl_rules(Ok(()), &Vec::new(), &vec![path(r"C:\work")], &vec![vec![relation(false, false, 1)]], &vec![vec![relation(true, true, 1)]], 1, false)
            .unwrap();
    assert!(matches!(refused.allow.last(), Some(AclStep::Refuse(_))));
    assert!(refused.deny.is_empty() && refused.devices.is_empty());
    let unlocked =
        apply_embedding_acl_rules(Err(Failure::new("no mutex")), &Vec::new(), &Vec::new(), &Vec::new(), &Vec::new(), 0, true);
    assert_eq!(unlocked.unwrap_err().message, "no mutex");
    let readonly =
        apply_embedding_acl_rules(Ok(()), &Vec::new(), &vec![path(r"C:\work")], &vec![Vec::new()], &Vec::new(), 0, true)
            .unwrap();
    assert!(matches!(readonly.allow.as_slice(), [AclStep::AllowReadonly(0)]));
    assert!(matches!(readonly.devices.as_slice(), [AclStep::OpenReadonlyDevices]));
    assert!(acl_change_failure(&AclStep::DenyWrite(0, 1), &path(r"C:\work"), "denied").chain().contains("denied"));
}

#[test]
fn every_recorded_entry_is_revoked_in_reverse() {
    let mut lease = EmbeddingAclLease::default();
    lease.record_path_ace(&path(r"C:\one"), "S-1");
    lease.record_path_ace(&path(r"C:\two"), "S-2");
    lease.record_null_device_ace("S-1");
    lease.record_window_station_ace("S-1");
    assert_eq!(lease.end(false).len(), 4);
    lease.complete();
    assert!(lease.end(false).is_empty());
    let revocations = lease.end(true);
    assert_eq!(revocations.len(), 4);
    assert!(revocations.iter().any(|entry| matches!(&entry.target, AclTarget::Path(at) if *at == path(r"C:\two"))
        && entry.sid == "S-2"));
    assert!(revocations.iter().any(|entry| matches!(entry.target, AclTarget::NullDevice)));
    assert!(revocations.iter().any(|entry| matches!(entry.target, AclTarget::WindowStation)));
}

#[test]
fn earlier_denials_stay_or_are_revoked() {
    let keyed = |text: &str| KeyedPath { path: path(text), key: text.to_lowercase() };
    let principal = |sid: &str, paths: Vec<KeyedPath>| PrincipalPaths { principal: sid.to_string(), paths };
    let desired = vec![principal("S-1", vec![keyed(r"C:\A"), keyed(r"C:\a"), keyed(r"C:\b")])];
    let previous = vec![principal("S-1", vec![keyed(r"C:\A"), keyed(r"C:\old")])];
    let plan = sync_persistent_deny_write_acls(&desired, &previous);
    assert_eq!(plan.steps.len(), 6);
    assert!(matches!(&plan.steps[0], SyncStep::ConvertDesired(principal) if principal == "S-1"));
    assert!(matches!(&plan.steps[1], SyncStep::Apply(at) if *at == path(r"C:\A")));
    assert!(matches!(&plan.steps[2], SyncStep::Apply(at) if *at == path(r"C:\b")));
    assert!(matches!(&plan.steps[3], SyncStep::ConvertStale(principal) if principal == "S-1"));
    assert!(matches!(&plan.steps[4], SyncStep::Revoke(at) if *at == path(r"C:\old")));
    assert!(matches!(&plan.steps[5], SyncStep::Store));
    assert_eq!(applied_count(&plan.state), 2);
    assert_eq!(apply_paths(&desired[0].paths).len(), 2);
}

#[test]
fn a_failed_denial_stores_nothing() {
    let keyed = |text: &str| KeyedPath { path: path(text), key: text.to_lowercase() };
    let principal = |sid: &str, paths: Vec<KeyedPath>| PrincipalPaths { principal: sid.to_string(), paths };
    let desired = vec![principal("S-1", vec![keyed(r"C:\b")])];
    let previous = vec![principal("S-2", vec![keyed(r"C:\old")])];
    let plan = sync_persistent_deny_write_acls(&desired, &previous);
    let run = |failing: usize| {
        let mut stored = false;
        let mut position = 0;
        loop {
            let step = &plan.steps[position];
            let event = if position == failing {
                SyncEvent::Failed("denied".to_string())
            } else if matches!(step, SyncStep::Revoke(_)) {
                SyncEvent::Missing
            } else {
                stored = stored || matches!(step, SyncStep::Store);
                SyncEvent::Succeeded
            };
            match after_sync_step(&plan, position, event) {
                SyncProgress::Perform(next) => position = next,
                SyncProgress::Synced(count) => return (stored, Ok(count)),
                SyncProgress::Refused(failure) => return (stored, Err(failure.chain())),
            }
        }
    };
    assert_eq!(run(plan.steps.len()), (true, Ok(1)));
    assert_eq!(run(0), (false, Err("convert deny-write capability SID failed".to_string())));
    assert_eq!(run(1), (false, Err(r"apply deny-write ACE to C:\b: denied".to_string())));
    assert_eq!(run(2), (false, Err("convert stale deny-write capability SID failed".to_string())));
    assert_eq!(run(3), (false, Err(r"revoke stale deny-write ACE from C:\old: denied".to_string())));
    assert_eq!(run(4), (false, Err("denied".to_string())));
}

#[test]
fn sessions_need_an_enforceable_policy() {
    let permissions = |network_block, full_read_access| {
        spawn_windows_sandbox_session_for_embedding(
            SessionStage::ResolvePermissions,
            SessionEvent::Permissions { network_block, full_read_access },
        )
    };
    assert!(matches!(permissions(false, true), SessionStep::Perform(SessionStage::CreateStateDirectory)));
    assert!(matches!(
        permissions(true, true),
        SessionStep::Refused { failure, close_token: false }
            if failure.message == "network restriction is unavailable for embedding sessions"
    ));
    assert!(matches!(
        permissions(false, false),
        SessionStep::Refused { failure, close_token: false }
            if failure.message == "restricted read access requires the elevated Windows sandbox backend"
    ));
    assert!(matches!(
        spawn_windows_sandbox_session_for_embedding(
            SessionStage::ApplyAclRules,
            SessionEvent::Failed(Failure::new("denied"))
        ),
        SessionStep::Refused { close_token: true, .. }
    ));
    assert!(matches!(
        spawn_windows_sandbox_session_for_embedding(SessionStage::SpawnProcess, SessionEvent::Succeeded),
        SessionStep::Launched
    ));
    let prepare = |capabilities| prepare_embedding_session_security(capabilities, "S-logon", "S-everyone");
    let lists = prepare(SessionCapabilities::ReadOnly("S-1".to_string())).unwrap();
    assert_eq!(lists.restricting, ["S-1"]);
    assert_eq!(lists.default_dacl, ["S-logon", "S-everyone", "S-1"]);
    assert_eq!(
        prepare(SessionCapabilities::WriteRoots(Vec::new())).unwrap_err().message,
        "workspace-write sandbox has no writable root capability SIDs"
    );
    let lists = create_embedding_token_with_caps_from(&vec!["S-1".to_string()], "S-logon", "S-everyone").unwrap();
    assert!(lists.restricting.contains(&"S-1".to_string()));
    assert!(create_embedding_token_with_caps_from(&Vec::new(), "S-logon", "S-everyone").is_err());
}

fn installed(spec: FilterSpec, namespace: WindowsSandboxPolicyNamespace) -> FilterRecord {
    let conditions: Vec<ConditionRecord> = spec
        .conditions()
        .into_iter()
        .map(|condition| match condition {
            ConditionSpec::User => ConditionRecord {
                match_equal: true,
                field: ConditionField::AleUserId,
                value: ConditionValue::SecurityDescriptor(SecurityDescriptor::Bytes(vec![1, 2, 3])),
            },
            ConditionSpec::Protocol(protocol) => ConditionRecord {
                match_equal: true,
                field: ConditionField::IpProtocol,
                value: ConditionValue::Uint8(protocol),
            },
            ConditionSpec::RemotePort(port) => ConditionRecord {
                match_equal: true,
                field: ConditionField::IpRemotePort,
                value: ConditionValue::Uint16(port),
            },
        })
        .collect();
    FilterRecord {
        key: spec.key(namespace),
        provider: Some(provider_key()),
        layer: Some(spec.layer),
        sublayer: sublayer_key(),
        flags: FWPM_FLAG_PERSISTENT,
        blocks: true,
        weight_empty: true,
        condition_count: conditions.len() as u32,
        conditions: Some(conditions),
    }
}

fn installed_objects(namespace: WindowsSandboxPolicyNamespace) -> InstalledObjects {
    InstalledObjects {
        provider: Ok(ProviderRecord {
            key: provider_key(),
            flags: FWPM_FLAG_PERSISTENT,
            provider_data_size: 0,
            has_service: false,
        }),
        sublayer: Ok(SublayerRecord {
            key: sublayer_key(),
            flags: FWPM_FLAG_PERSISTENT,
            provider: Some(provider_key()),
            provider_data_size: 0,
            weight: SUBLAYER_WEIGHT,
        }),
        user: Ok(SecurityDescriptor::Bytes(vec![1, 2, 3])),
        filters: filter_specs().into_iter().map(|spec| Ok(installed(spec, namespace))).collect(),
    }
}

#[test]
fn standalone_filter_verification_rejects_a_missing_filter() {
    let namespace = WindowsSandboxPolicyNamespace::McpConsole;
    let mut objects = installed_objects(namespace);
    assert!(verify_wfp_filters_for_account_in_namespace(&objects, namespace).is_ok());

    let name = filter_specs()[0].name(namespace);
    objects.filters[0] = retrieve(0x8032_0003, "FwpmFilterGetByKey0", "filter", None);
    let missing = verify_wfp_filters_for_account_in_namespace(&objects, namespace)
        .expect_err("missing standalone WFP filter must fail verification");
    assert!(missing.message.contains(name), "{}", missing.chain());
}

#[test]
fn drifted_filters_are_rejected() {
    let namespace = WindowsSandboxPolicyNamespace::McpConsole;
    let drift = |change: fn(&mut FilterRecord)| {
        let mut objects = installed_objects(namespace);
        match &mut objects.filters[2] {
            Ok(filter) => change(filter),
            Err(_) => unreachable!(),
        }
        verify_wfp_filters_for_account_in_namespace(&objects, namespace).is_err()
    };
    assert!(drift(|filter| filter.blocks = false));
    assert!(drift(|filter| filter.flags = 0));
    assert!(drift(|filter| filter.weight_empty = false));
    assert!(drift(|filter| {
        filter.condition_count = 0;
        filter.conditions = Some(Vec::new());
    }));
    assert!(drift(|filter| filter.conditions = None));
    assert!(drift(|filter| filter.provider = None));
    let mut other_user = installed_objects(namespace);
    other_user.user = Ok(SecurityDescriptor::Bytes(vec![9]));
    assert!(verify_wfp_filters_for_account_in_namespace(&other_user, namespace).is_err());
    assert!(verify_wfp_filters_for_account_in_namespace(
        &installed_objects(WindowsSandboxPolicyNamespace::Codex),
        namespace
    )
    .is_err());
}
