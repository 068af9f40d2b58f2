use codex_sandbox::windows::firewall::blocked_ports::{blocked_loopback_tcp_remote_ports, port_range_string};
use codex_sandbox::windows::firewall::configure::{
    configure_rule, confirm_user_scope, ensure_block_rule, remove_rule_if_present, rule_configured_line, rule_value,
    writes_local_ports, ConfigureStep, RuleOperation, RuleProperty, RuleStep, RuleValue,
};
use codex_sandbox::windows::firewall::policy_state::{
    ensure_local_policy_rules_take_effect, validate_active_profile_firewall_state, validate_local_policy_modify_result,
    verify_active_profile_firewalls_enabled, PolicyReadings, ProfileReadings, NET_FW_MODIFY_STATE_GP_OVERRIDE, NET_FW_MODIFY_STATE_OK,
    NET_FW_PROFILE2_PUBLIC, S_FALSE, S_OK, VARIANT_FALSE, VARIANT_TRUE,
};
use codex_sandbox::windows::firewall::rules::{
    ensure_offline_outbound_block, ensure_offline_proxy_allowlist, firewall_rule_names, verify_offline_sandbox_network,
    BlockRuleSpec, FirewallChange, FirewallDemand, ALL_NETWORK_VALUES, MCP_CONSOLE_OFFLINE_BLOCK_RULE_FRIENDLY,
    MCP_CONSOLE_OFFLINE_BLOCK_RULE_NAME, NET_FW_IP_PROTOCOL_ANY, NET_FW_IP_PROTOCOL_TCP, NON_LOOPBACK_REMOTE_ADDRESSES,
};
use codex_sandbox::windows::firewall::verify::{
    canonical_requests, verify_block_rule, verify_configured_rule, verify_exact_rule_scope, verify_rule_absent, CanonicalRuleScope,
    CanonicalScope, ExactReadings, InterfacesReading, RuleLookup, RuleReadings, ScopeReadings, RULE_NOT_FOUND,
};
use codex_sandbox::windows::failure::Failure;
use codex_sandbox::windows::leases::{
    acquire_mcp_console_sandbox_policy_lease, after_abandoned_retirement, lock_embedding_acl_mutations, LeaseAttempt, WAIT_ABANDONED, WAIT_FAILED,
    WAIT_OBJECT_0, WAIT_TIMEOUT,
};
use codex_sandbox::windows::namespace::WindowsSandboxPolicyNamespace;
use codex_sandbox::windows::product::{Guid, ProductSelection, WindowsSandboxProduct};
use codex_sandbox::windows::setup_containment::{
    abandoned_job_opened, abandoned_job_released, await_setup_tree, containment_job_created, enroll_current_process_in_mcp_setup_job,
    process_creation_time, require_parent_alive, retire_abandoned_mcp_setup_job, AbandonedJob, EnrollEvent, EnrollStage,
    EnrollStep, RetirementEvent, RetirementStage, RetirementStep,
};
use codex_sandbox::windows::setup_failure::SetupErrorCode;
use codex_sandbox::windows::wfp::filter_specs::filter_specs;
use codex_sandbox::windows::wfp::install::{
    after_install_step, install_wfp_filters, install_wfp_filters_for_account,
    install_wfp_filters_for_account_in_namespace, step_outcome, InstallEvent, InstallOutcome, InstallProgress,
    InstallStep,
};
use codex_sandbox::windows::wfp::verify::{
    format_error_code, provider_key, sublayer_key, ProviderRecord, SublayerRecord, FWPM_FLAG_PERSISTENT, SUBLAYER_WEIGHT,
};
use std::collections::BTreeSet;

#[test]
fn ordinary_policy_identifiers_remain_unchanged() {
    let namespace = WindowsSandboxPolicyNamespace::Codex;

    assert_eq!(namespace.offline_username(), "CodexSandboxOffline");
    assert_eq!(namespace.online_username(), "CodexSandboxOnline");
    assert_eq!(namespace.users_group(), "CodexSandboxUsers");
    assert_eq!(namespace.read_acl_mutex_name(), r"Local\CodexSandboxReadAcl");
}

#[test]
fn mcp_console_principals_and_mutex_are_disjoint_from_codex() {
    let codex = WindowsSandboxPolicyNamespace::Codex;
    let mcp_console = WindowsSandboxPolicyNamespace::McpConsole;
    let codex_principals = [codex.offline_username(), codex.online_username(), codex.users_group()]
        .into_iter()
        .collect::<BTreeSet<_>>();
    let mcp_console_principals =
        [mcp_console.offline_username(), mcp_console.online_username(), mcp_console.users_group()]
            .into_iter()
            .collect::<BTreeSet<_>>();

    assert!(codex_principals.is_disjoint(&mcp_console_principals));
    assert_ne!(codex.read_acl_mutex_name(), mcp_console.read_acl_mutex_name());
}

#[test]
fn identities_match_their_own_namespace_only() {
    let codex = WindowsSandboxPolicyNamespace::Codex;
    let mcp_console = WindowsSandboxPolicyNamespace::McpConsole;
    assert!(codex.identities_match("CodexSandboxOffline", "CodexSandboxOnline"));
    assert!(!mcp_console.identities_match("CodexSandboxOffline", "CodexSandboxOnline"));
    assert!(!codex.identities_match("CodexSandboxOnline", "CodexSandboxOffline"));
    assert!(codex.is_codex() && !mcp_console.is_codex());
    assert_eq!(WindowsSandboxPolicyNamespace::default(), codex);
}

#[test]
fn product_namespaces_keep_all_installed_wfp_objects_disjoint() {
    let source_keys = [provider_key(), sublayer_key()]
        .into_iter()
        .chain(filter_specs().into_iter().map(|spec| spec.codex_key))
        .collect::<Vec<_>>();
    let keys = [WindowsSandboxProduct::Codex, WindowsSandboxProduct::Console]
        .into_iter()
        .flat_map(|product| source_keys.iter().map(move |key| product.wfp_key(*key)))
        .map(|key| (key.data1, key.data2, key.data3, key.data4))
        .collect::<BTreeSet<_>>();
    assert_eq!(keys.len(), source_keys.len() * 2);
}

#[test]
fn product_selection_cannot_change_after_initialization() {
    let mut selection = ProductSelection::new();
    assert!(WindowsSandboxProduct::Codex.initialize(&mut selection).is_ok(), "default product");
    assert!(WindowsSandboxProduct::Console.initialize(&mut selection).is_err());
    assert_eq!(WindowsSandboxProduct::current(&mut selection), WindowsSandboxProduct::Codex);
}

#[test]
fn the_key_transform_undoes_itself() {
    let key = Guid { data1: 0x2e31d31c, data2: 0x3948, data3: 0x4753, data4: 0x9117_e5d1a6496f41 };
    let console = WindowsSandboxProduct::Console;
    let mapped = console.wfp_key(key);
    assert_ne!(mapped, key);
    assert_eq!(console.wfp_key(mapped), key);
    assert_eq!(WindowsSandboxProduct::Codex.wfp_key(key), key);
}

#[test]
fn policy_namespace_filter_keys_are_disjoint() {
    let specs = filter_specs();
    let keys = [WindowsSandboxPolicyNamespace::Codex, WindowsSandboxPolicyNamespace::McpConsole]
        .into_iter()
        .flat_map(|namespace| specs.iter().map(move |spec| spec.key(namespace)))
        .map(|key| (key.data1, key.data2, key.data3, key.data4))
        .collect::<BTreeSet<_>>();
    assert_eq!(keys.len(), specs.len() * 2);
}

#[test]
fn policy_namespace_filter_names_are_disjoint() {
    let specs = filter_specs();
    let names = [WindowsSandboxPolicyNamespace::Codex, WindowsSandboxPolicyNamespace::McpConsole]
        .into_iter()
        .flat_map(|namespace| specs.iter().map(move |spec| spec.name(namespace)))
        .collect::<BTreeSet<_>>();
    assert_eq!(names.len(), specs.len() * 2);
}

#[test]
fn an_installation_replaces_each_filter_in_one_transaction() {
    let plan = install_wfp_filters_for_account("CodexSandboxOffline");
    let specs = filter_specs();
    assert_eq!(plan.installed_filter_count, specs.len());
    assert_eq!(plan.steps.len(), 9 + 2 * specs.len());
    assert!(matches!(plan.steps[0], InstallStep::OpenEngine));
    assert!(matches!(plan.steps[1], InstallStep::BeginTransaction));
    assert!(matches!(plan.steps[8], InstallStep::DeleteFilter(key) if key == specs[0].codex_key));
    assert!(matches!(plan.steps.last(), Some(InstallStep::Commit)));

    let namespace = WindowsSandboxPolicyNamespace::Codex;
    let delete = InstallStep::DeleteFilter(specs[0].codex_key);
    assert!(step_outcome(delete, namespace, &InstallEvent::Code(0x8032_0003)).is_ok());
    let failure = step_outcome(InstallStep::Commit, namespace, &InstallEvent::Code(5)).unwrap_err();
    assert_eq!(failure.message, "FwpmTransactionCommit0 failed: 0x00000005");
    assert_eq!(format_error_code(0x8032_0009), "0x80320009");
    assert_eq!(
        install_wfp_filters("user", &InstallOutcome::Installed(12)),
        "WFP setup succeeded for user with 12 installed filters"
    );
    assert_eq!(
        install_wfp_filters("user", &InstallOutcome::Panicked(None)),
        "WFP setup panicked for user: unknown panic payload; continuing elevated setup"
    );
}

fn provider() -> ProviderRecord {
    ProviderRecord { key: provider_key(), flags: FWPM_FLAG_PERSISTENT, provider_data_size: 0, has_service: false }
}

fn sublayer() -> SublayerRecord {
    SublayerRecord {
        key: sublayer_key(),
        flags: FWPM_FLAG_PERSISTENT,
        provider: Some(provider_key()),
        provider_data_size: 0,
        weight: SUBLAYER_WEIGHT,
    }
}

/// Runs an installation over stored filters, with a failure at one place, and gives what
/// came of it, whether the transaction was aborted, and what is stored afterwards.
fn install(
    namespace: WindowsSandboxPolicyNamespace,
    before: &BTreeSet<u64>,
    failing: usize,
) -> (Result<usize, String>, bool, BTreeSet<u64>) {
    let plan = install_wfp_filters_for_account_in_namespace("user", namespace);
    let mut pending = before.clone();
    let mut position = 0;
    loop {
        let fails = position == failing;
        let event = match plan.steps[position] {
            InstallStep::VerifyProvider => {
                InstallEvent::Provider(Ok(ProviderRecord { has_service: fails, ..provider() }))
            }
            InstallStep::VerifySublayer => {
                InstallEvent::Sublayer(Ok(SublayerRecord { weight: if fails { 1 } else { SUBLAYER_WEIGHT }, ..sublayer() }))
            }
            InstallStep::ResolveAccount => {
                InstallEvent::Account(if fails { Err(Failure::new("unknown account")) } else { Ok(()) })
            }
            _ => InstallEvent::Code(if fails { 5 } else { 0 }),
        };
        match plan.steps[position] {
            InstallStep::DeleteFilter(key) => {
                pending.remove(&key.data4);
            }
            InstallStep::AddFilter(spec) => {
                pending.insert(spec.key(namespace).data4);
            }
            _ => {}
        }
        match after_install_step(&plan, position, event) {
            InstallProgress::Perform(next) => position = next,
            InstallProgress::Installed(count) => return (Ok(count), false, pending),
            InstallProgress::Failed { failure, abort } => {
                return (Err(failure.message), abort, before.clone());
            }
        }
    }
}

#[test]
fn installations_are_all_or_nothing() {
    let namespace = WindowsSandboxPolicyNamespace::McpConsole;
    let other: BTreeSet<u64> =
        filter_specs().iter().map(|spec| spec.key(WindowsSandboxPolicyNamespace::Codex).data4).collect();
    let (outcome, _, stored) = install(namespace, &other, usize::MAX);
    assert_eq!(outcome, Ok(12));
    assert_eq!(stored.len(), 24);
    assert!(other.is_subset(&stored));
    let failure = |failing| {
        let (outcome, abort, stored) = install(namespace, &other, failing);
        assert_eq!(stored, other);
        (outcome.unwrap_err(), abort)
    };
    assert_eq!(failure(0), ("FwpmEngineOpen0 failed: 0x00000005".to_string(), false));
    assert_eq!(failure(1), ("FwpmTransactionBegin0 failed: 0x00000005".to_string(), false));
    assert_eq!(failure(2), ("FwpmProviderAdd0 failed: 0x00000005".to_string(), true));
    assert_eq!(
        failure(3),
        ("WFP provider is unexpectedly associated with a Windows service".to_string(), true)
    );
    assert!(failure(5).0.contains("incompatible weight"));
    assert_eq!(failure(6), ("unknown account".to_string(), true));
    assert_eq!(failure(7), ("BuildSecurityDescriptorW failed: 0x00000005".to_string(), true));
    assert_eq!(failure(32), ("FwpmTransactionCommit0 failed: 0x00000005".to_string(), true));
}

#[test]
fn policy_namespace_rule_names_are_disjoint() {
    let codex = firewall_rule_names(WindowsSandboxPolicyNamespace::Codex)
        .all()
        .into_iter()
        .collect::<BTreeSet<_>>();
    let mcp_console = firewall_rule_names(WindowsSandboxPolicyNamespace::McpConsole)
        .all()
        .into_iter()
        .collect::<BTreeSet<_>>();

    assert!(codex.is_disjoint(&mcp_console));
}

#[test]
fn empty_proxy_port_set_uses_the_broad_tcp_block() {
    assert_eq!(blocked_loopback_tcp_remote_ports(&vec![]), None);
}

#[test]
fn blocked_ports_complement_the_proxy_ports() {
    assert_eq!(blocked_loopback_tcp_remote_ports(&vec![0]), None);
    assert_eq!(blocked_loopback_tcp_remote_ports(&vec![8080]).as_deref(), Some("1-8079,8081-65535"));
    assert_eq!(blocked_loopback_tcp_remote_ports(&vec![3, 1, 3, 0]).as_deref(), Some("2,4-65535"));
    assert_eq!(blocked_loopback_tcp_remote_ports(&vec![65535]).as_deref(), Some("1-65534"));
    let all: Vec<u16> = (0..=u16::MAX).collect();
    assert_eq!(blocked_loopback_tcp_remote_ports(&all), None);
    assert_eq!(port_range_string(7, 7), "7");
    assert_eq!(port_range_string(7, 9), "7-9");
}

fn effective_policy() -> PolicyReadings {
    PolicyReadings {
        result: S_OK,
        modify_state: NET_FW_MODIFY_STATE_OK,
        profiles: ProfileReadings {
            active_profiles: Ok(NET_FW_PROFILE2_PUBLIC),
            domain_enabled: Err("unread".to_string()),
            private_enabled: Err("unread".to_string()),
            public_enabled: Ok(VARIANT_TRUE),
        },
    }
}

#[test]
fn an_ineffective_policy_changes_no_rule() {
    let namespace = WindowsSandboxPolicyNamespace::McpConsole;
    let overridden = PolicyReadings { modify_state: NET_FW_MODIFY_STATE_GP_OVERRIDE, ..effective_policy() };
    let disabled = PolicyReadings {
        profiles: ProfileReadings { public_enabled: Ok(VARIANT_FALSE), ..effective_policy().profiles },
        ..effective_policy()
    };
    for policy in [overridden, disabled] {
        let ineffective = SetupErrorCode::HelperFirewallPolicyIneffective;
        let changes = ensure_offline_proxy_allowlist(&policy, namespace, "S-1", &vec![], false);
        assert_eq!(changes.unwrap_err().code, ineffective);
        let outbound = ensure_offline_outbound_block(&policy, namespace, "S-1");
        assert_eq!(outbound.unwrap_err().code, ineffective);
        let demands = verify_offline_sandbox_network(&policy, namespace, "S-1", &vec![], false);
        assert_eq!(demands.unwrap_err().code, ineffective);
    }
}

#[test]
fn the_closed_mode_blocks_before_it_removes_the_allow_rule() {
    let changes = ensure_offline_proxy_allowlist(
        &effective_policy(),
        WindowsSandboxPolicyNamespace::McpConsole,
        "S-1-5-18",
        &vec![8080],
        false,
    )
    .unwrap();
    assert_eq!(changes.len(), 4);
    assert!(matches!(&changes[0], FirewallChange::Block(spec) if spec.protocol == 17 && spec.remote_ports.is_none()));
    assert!(matches!(&changes[1], FirewallChange::Block(spec) if spec.protocol == 6 && spec.remote_ports.is_none()));
    assert!(matches!(
        &changes[2],
        FirewallChange::Remove(name) if name == "mcp_console_sandbox_offline_allow_loopback_proxy"
    ));
    assert!(matches!(
        &changes[3],
        FirewallChange::Block(spec) if spec.remote_ports.as_deref() == Some("1-8079,8081-65535")
    ));
    let codex = WindowsSandboxPolicyNamespace::Codex;
    let open = ensure_offline_proxy_allowlist(&effective_policy(), codex, "S-1-5-18", &vec![], true).unwrap();
    assert!(open.iter().all(|change| matches!(change, FirewallChange::Remove(_))));
    let outbound = ensure_offline_outbound_block(&effective_policy(), codex, "S-1-5-18").unwrap();
    assert!(matches!(
        outbound,
        FirewallChange::Block(spec)
            if spec.local_user_spec == "O:LSD:(A;;CC;;;S-1-5-18)" && spec.protocol == NET_FW_IP_PROTOCOL_ANY
    ));
    let demands = verify_offline_sandbox_network(
        &effective_policy(),
        WindowsSandboxPolicyNamespace::Codex,
        "S-1-5-18",
        &vec![8080],
        false,
    )
    .unwrap();
    assert!(matches!(
        demands.as_slice(),
        [FirewallDemand::Present(_), FirewallDemand::Absent(_), FirewallDemand::Present(_), FirewallDemand::Present(_)]
    ));
}

fn exact_spec() -> BlockRuleSpec {
    BlockRuleSpec {
        internal_name: MCP_CONSOLE_OFFLINE_BLOCK_RULE_NAME.to_string(),
        friendly_desc: MCP_CONSOLE_OFFLINE_BLOCK_RULE_FRIENDLY.to_string(),
        protocol: NET_FW_IP_PROTOCOL_ANY,
        local_user_spec: "O:LSD:(A;;CC;;;S-1-5-18)".to_string(),
        offline_sid: "S-1-5-18".to_string(),
        remote_addresses: Some(NON_LOOPBACK_REMOTE_ADDRESSES.to_string()),
        remote_ports: None,
        exact_scope: true,
    }
}

fn text_value(spec: &BlockRuleSpec, property: RuleProperty) -> Result<String, String> {
    match rule_value(spec, property) {
        RuleValue::Text(text) => Ok(text),
        other => panic!("{property:?} is no text: {other:?}"),
    }
}

fn number_value(spec: &BlockRuleSpec, property: RuleProperty) -> Result<i32, String> {
    match rule_value(spec, property) {
        RuleValue::Number(number) => Ok(number),
        RuleValue::Boolean(true) => Ok(VARIANT_TRUE),
        RuleValue::Boolean(false) => Ok(VARIANT_FALSE),
        other => panic!("{property:?} is no number: {other:?}"),
    }
}

fn configured(spec: &BlockRuleSpec) -> (RuleReadings, ExactReadings, ScopeReadings) {
    (
        RuleReadings {
            description: text_value(spec, RuleProperty::Description),
            direction: number_value(spec, RuleProperty::Direction),
            action: number_value(spec, RuleProperty::Action),
            enabled: number_value(spec, RuleProperty::Enabled),
            profiles: number_value(spec, RuleProperty::Profiles),
            protocol: number_value(spec, RuleProperty::Protocol),
            remote_addresses: text_value(spec, RuleProperty::RemoteAddresses),
            remote_ports: text_value(spec, RuleProperty::RemotePorts),
            local_user_authorized_list: text_value(spec, RuleProperty::LocalUserAuthorizedList),
        },
        ExactReadings {
            name: Ok(spec.internal_name.clone()),
            application_name: text_value(spec, RuleProperty::ApplicationName),
            service_name: text_value(spec, RuleProperty::ServiceName),
            local_addresses: text_value(spec, RuleProperty::LocalAddresses),
            local_ports: text_value(spec, RuleProperty::LocalPorts),
            interfaces: Ok(InterfacesReading { empty: true, text: "VT_EMPTY".to_string() }),
            interface_types: text_value(spec, RuleProperty::InterfaceTypes),
            edge_traversal: number_value(spec, RuleProperty::EdgeTraversal),
            edge_traversal_options: number_value(spec, RuleProperty::EdgeTraversalOptions),
            local_app_package_id: text_value(spec, RuleProperty::LocalAppPackageId),
            local_user_owner: text_value(spec, RuleProperty::LocalUserOwner),
            remote_user_authorized_list: text_value(spec, RuleProperty::RemoteUserAuthorizedList),
            remote_machine_authorized_list: text_value(spec, RuleProperty::RemoteMachineAuthorizedList),
            secure_flags: number_value(spec, RuleProperty::SecureFlags),
        },
        ScopeReadings {
            remote_addresses: CanonicalScope::Stored(NON_LOOPBACK_REMOTE_ADDRESSES.to_string()),
            remote_ports: CanonicalScope::Stored("*".to_string()),
            local_addresses: CanonicalScope::Stored("*".to_string()),
            local_ports: CanonicalScope::Stored("*".to_string()),
            interface_types: CanonicalScope::Stored("All".to_string()),
        },
    )
}

#[test]
fn mismatches_are_kept_up_to_the_scope_that_fails() {
    let spec = exact_spec();
    let (_, mut exact, scopes) = configured(&spec);
    exact.name = Ok("other".to_string());
    exact.local_addresses = Ok("10.0.0.0".to_string());
    let unstored = || CanonicalScope::NotStored("refused".to_string());
    let verify = |exact: &ExactReadings, scopes: &ScopeReadings| {
        let mut mismatches = vec!["before".to_string()];
        let failed = verify_exact_rule_scope(&spec, exact, scopes, &mut mismatches).is_err();
        (failed, mismatches.len())
    };
    assert_eq!(verify(&exact, &scopes), (false, 3));
    let (_, _, mut failing) = configured(&spec);
    failing.interface_types = unstored();
    assert_eq!(verify(&exact, &failing), (true, 3));
    failing.local_addresses = unstored();
    assert_eq!(verify(&exact, &failing), (true, 2));
    exact.secure_flags = Err("unread".to_string());
    assert_eq!(verify(&exact, &scopes), (true, 1));
}

#[test]
fn exact_firewall_rule_scope_round_trips_through_com_and_detects_drift() {
    let spec = exact_spec();
    let (mut readings, mut exact, scopes) = configured(&spec);
    assert!(verify_configured_rule(&spec, &readings, &exact, &scopes).is_ok());

    readings.remote_addresses = Ok(ALL_NETWORK_VALUES.to_string());
    let failure = verify_configured_rule(&spec, &readings, &exact, &scopes)
        .expect_err("remote-address widening must be detected");
    assert_eq!(failure.code, SetupErrorCode::HelperFirewallRuleVerifyFailed);
    assert!(failure.message.contains("remote_addresses"));

    readings.remote_addresses = text_value(&spec, RuleProperty::RemoteAddresses);
    exact.interface_types = Ok("Wireless".to_string());
    let failure = verify_configured_rule(&spec, &readings, &exact, &scopes)
        .expect_err("interface narrowing must be detected");
    assert_eq!(failure.code, SetupErrorCode::HelperFirewallRuleVerifyFailed);
    assert!(failure.message.contains("interface_types"));
    assert_eq!(
        failure.message,
        "firewall rule mcp_console_sandbox_offline_block_outbound differs from the requested policy: \
         interface_types expected=\"All\" actual=\"Wireless\""
    );
}

#[test]
fn firewall_verification_names_the_first_problem() {
    let spec = exact_spec();
    let (mut readings, exact, mut scopes) = configured(&spec);
    readings.direction = Ok(1);
    readings.enabled = Ok(0);
    let failure = verify_configured_rule(&spec, &readings, &exact, &scopes).unwrap_err();
    assert!(failure.message.ends_with(
        "direction expected=NET_FW_RULE_DIRECTION(2) actual=NET_FW_RULE_DIRECTION(1), \
         enabled expected=VARIANT_BOOL(-1) actual=VARIANT_BOOL(0)"
    ));
    scopes.remote_addresses = CanonicalScope::NotCreated("no COM".to_string());
    let failure = verify_configured_rule(&spec, &readings, &exact, &scopes).unwrap_err();
    assert_eq!(
        failure.message,
        "create temporary firewall rule to canonicalize mcp_console_sandbox_offline_block_outbound policy: no COM"
    );
    readings.action = Err("gone".to_string());
    let failure = verify_configured_rule(&spec, &readings, &exact, &scopes).unwrap_err();
    assert_eq!(
        failure.message,
        "read firewall rule mcp_console_sandbox_offline_block_outbound property Action: gone"
    );
    assert!(verify_rule_absent(&RuleLookup::Failed(RULE_NOT_FOUND, "missing".to_string()), "rule").is_ok());
    let failure = verify_rule_absent(&RuleLookup::Found, "rule").unwrap_err();
    assert_eq!(failure.message, "unexpected stale firewall rule is present: rule");
    let (readings, exact, scopes) = configured(&spec);
    let lookup = RuleLookup::NotCast("E_NOINTERFACE".to_string());
    let failure = verify_block_rule(&lookup, &spec, &readings, &exact, &scopes).unwrap_err();
    assert!(failure.message.ends_with("to INetFwRule3: E_NOINTERFACE"));
    assert!(verify_block_rule(&RuleLookup::Found, &spec, &readings, &exact, &scopes).is_ok());
}

#[test]
fn firewall_rules_are_configured_before_they_are_added() {
    let spec = exact_spec();
    let steps = ensure_block_rule(&spec, false);
    let configure = configure_rule(&spec);
    assert_eq!(steps.len(), 4 + 2 * configure.len());
    assert_eq!(steps[2 + configure.len()], RuleStep::Perform(RuleOperation::Add));
    assert_eq!(ensure_block_rule(&spec, true)[0], RuleStep::Perform(RuleOperation::CastExisting));
    assert_eq!(configure.last(), Some(&ConfigureStep::ConfirmUserScope));
    assert!(!configure.contains(&ConfigureStep::Write(RuleProperty::RemotePorts)));
    assert!(confirm_user_scope(&spec, &Ok("O:LSD:(A;;CC;;;S-1-5-18)".to_string())).is_ok());
    let failure = confirm_user_scope(&spec, &Ok("O:LSD:".to_string())).unwrap_err();
    assert_eq!(
        failure.message,
        "offline firewall rule user scope mismatch: expected SID S-1-5-18, got O:LSD:"
    );
    assert_eq!(writes_local_ports(&Ok(NET_FW_IP_PROTOCOL_TCP)), Ok(true));
    assert_eq!(writes_local_ports(&Ok(NET_FW_IP_PROTOCOL_ANY)), Ok(false));
    let requests = canonical_requests(&spec);
    assert_eq!(requests.len(), 3);
    assert_eq!(requests[0].0, CanonicalRuleScope::RemoteAddresses);
    assert!(rule_configured_line(&spec).contains(" protocol=256 RemoteAddresses=0.0.0.0-"));
    assert_eq!(remove_rule_if_present("rule", &None), Ok(None));
    assert_eq!(
        remove_rule_if_present("rule", &Some(Ok(()))),
        Ok(Some("firewall rule removed name=rule".to_string()))
    );
}

#[test]
fn local_policy_modify_state_accepts_effective_policy() {
    assert!(validate_local_policy_modify_result(S_OK, NET_FW_MODIFY_STATE_OK).is_ok());
}

#[test]
fn local_policy_modify_state_rejects_ineffective_policy() {
    let failure = validate_local_policy_modify_result(S_OK, NET_FW_MODIFY_STATE_GP_OVERRIDE)
        .expect_err("group-policy override should fail sandbox firewall setup");

    assert_eq!(failure.code, SetupErrorCode::HelperFirewallPolicyIneffective);
}

#[test]
fn local_policy_modify_state_rejects_partial_profile_coverage() {
    let failure = validate_local_policy_modify_result(S_FALSE, NET_FW_MODIFY_STATE_OK)
        .expect_err("partial profile coverage should fail sandbox firewall setup");

    assert_eq!(failure.code, SetupErrorCode::HelperFirewallPolicyIneffective);
}

#[test]
fn disabled_active_firewall_profile_is_rejected() {
    let failure = validate_active_profile_firewall_state(NET_FW_PROFILE2_PUBLIC, "public", VARIANT_FALSE)
        .expect_err("disabled active profile should fail sandbox firewall setup");

    assert_eq!(failure.code, SetupErrorCode::HelperFirewallPolicyIneffective);
    assert!(failure.message.contains("active public profile"));
}

#[test]
fn unknown_and_unreadable_profiles_are_rejected() {
    let readings = |active| ProfileReadings {
        active_profiles: active,
        domain_enabled: Err("unread".to_string()),
        private_enabled: Ok(VARIANT_TRUE),
        public_enabled: Ok(VARIANT_FALSE),
    };
    assert!(verify_active_profile_firewalls_enabled(&readings(Ok(2))).is_ok());
    let failure = verify_active_profile_firewalls_enabled(&readings(Ok(0x12))).unwrap_err();
    assert_eq!(
        failure.message,
        "active Windows Firewall profile mask contains unsupported bits: active=0x12, unknown=0x10"
    );
    let failure = verify_active_profile_firewalls_enabled(&readings(Ok(1))).unwrap_err();
    assert_eq!(failure.code, SetupErrorCode::HelperFirewallPolicyAccessFailed);
    let failure = validate_local_policy_modify_result(-2147467259, 0).unwrap_err();
    assert_eq!(failure.message, "INetFwPolicy2::LocalPolicyModifyState failed: HRESULT(0x80004005)");
    let codex = WindowsSandboxPolicyNamespace::Codex;
    let mcp_console = WindowsSandboxPolicyNamespace::McpConsole;
    assert!(ensure_local_policy_rules_take_effect(codex, S_OK, 0, &readings(Ok(1))).is_ok());
    assert!(ensure_local_policy_rules_take_effect(mcp_console, S_OK, 0, &readings(Ok(1))).is_err());
}

#[test]
fn the_policy_lease_needs_a_clean_mutex() {
    assert!(matches!(acquire_mcp_console_sandbox_policy_lease(WAIT_OBJECT_0, 0), LeaseAttempt::Held));
    assert!(matches!(
        acquire_mcp_console_sandbox_policy_lease(WAIT_ABANDONED, 0),
        LeaseAttempt::RetireAbandonedJob
    ));
    assert!(matches!(
        acquire_mcp_console_sandbox_policy_lease(WAIT_TIMEOUT, 0),
        LeaseAttempt::Refused { owned: false, failure }
            if failure.message == "another Windows sandbox policy generation is active"
    ));
    assert!(matches!(
        acquire_mcp_console_sandbox_policy_lease(WAIT_FAILED, 6),
        LeaseAttempt::Refused { owned: false, failure }
            if failure.message == "wait for global Windows sandbox policy mutex: 6"
    ));
    assert!(matches!(
        acquire_mcp_console_sandbox_policy_lease(0x81, 0),
        LeaseAttempt::Refused { owned: false, failure } if failure.message.ends_with("wait result: 0x81")
    ));
    assert!(lock_embedding_acl_mutations(WAIT_ABANDONED, 0).is_ok());
    assert_eq!(
        lock_embedding_acl_mutations(WAIT_TIMEOUT, 0).unwrap_err().message,
        "WaitForSingleObject returned unexpected result: 258"
    );
}

/// A setup job: its owner's handle, and its processes.
struct SetupJob {
    owned: bool,
    helpers: u32,
}

/// Retires the job of an abandoned lease on a host that terminates what it is asked to.
fn retire_abandoned_job(job: &mut SetupJob) -> Result<(), Failure> {
    let mut stage = RetirementStage::OpenJob;
    loop {
        let event = match stage {
            RetirementStage::OpenJob => {
                RetirementEvent::Opened(if job.owned || job.helpers > 0 { None } else { Some(2) })
            }
            RetirementStage::Terminate => {
                job.helpers = 0;
                RetirementEvent::Terminated(Ok(()))
            }
            RetirementStage::AwaitTree => {
                RetirementEvent::Counted { active: Ok(job.helpers), deadline_passed: false }
            }
            RetirementStage::ProbeOwnership => RetirementEvent::Probed(Ok(if job.owned { 183 } else { 0 })),
        };
        match retire_abandoned_mcp_setup_job(stage, event) {
            RetirementStep::Perform(next) => stage = next,
            RetirementStep::Done(outcome) => return outcome,
        }
    }
}

fn acquire_lease(waited: u32, job: &mut SetupJob) -> Result<(), Failure> {
    let attempt = match acquire_mcp_console_sandbox_policy_lease(waited, 0) {
        LeaseAttempt::RetireAbandonedJob => after_abandoned_retirement(retire_abandoned_job(job)),
        attempt => attempt,
    };
    match attempt {
        LeaseAttempt::Held => Ok(()),
        LeaseAttempt::RetireAbandonedJob => unreachable!(),
        LeaseAttempt::Refused { failure, .. } => Err(failure),
    }
}

#[test]
fn setup_helper_tree_is_retired_on_owner_loss_and_abandoned_lease_recovery() {
    let mut abandoned_job = SetupJob { owned: true, helpers: 1 };
    let error = match acquire_lease(WAIT_ABANDONED, &mut abandoned_job) {
        Ok(()) => panic!("abandoned policy ownership was accepted while its setup Job remained owned"),
        Err(error) => error,
    };
    assert!(
        error.message.contains("setup containment Job is still owned"),
        "unexpected abandoned-policy error: {}",
        error.chain()
    );
    assert_eq!(abandoned_job.helpers, 0);
    abandoned_job.owned = false;

    assert!(acquire_lease(WAIT_OBJECT_0, &mut abandoned_job).is_ok());
    assert!(acquire_lease(WAIT_ABANDONED, &mut abandoned_job).is_ok());
    assert!(containment_job_created(Ok(0)).is_ok());
}

#[test]
fn an_abandoned_job_that_cannot_be_retired_keeps_the_lease_away() {
    let step = |stage, event| match retire_abandoned_mcp_setup_job(stage, event) {
        RetirementStep::Done(Err(failure)) => failure.chain(),
        _ => panic!("the retirement went on"),
    };
    assert_eq!(
        step(RetirementStage::OpenJob, RetirementEvent::Opened(Some(5))),
        "open prior standalone Windows setup containment Job: 5"
    );
    assert_eq!(
        step(RetirementStage::Terminate, RetirementEvent::Terminated(Err("denied".to_string()))),
        "retire prior standalone Windows setup helper generation: \
         terminate standalone Windows setup containment Job: denied"
    );
    assert_eq!(
        step(
            RetirementStage::AwaitTree,
            RetirementEvent::Counted { active: Ok(1), deadline_passed: true }
        ),
        "retire prior standalone Windows setup helper generation: \
         standalone Windows setup helper tree did not retire within 5 seconds"
    );
    assert!(matches!(
        after_abandoned_retirement(Err(Failure::new("still there"))),
        LeaseAttempt::Refused { owned: true, failure } if failure.message == "still there"
    ));
}

#[test]
fn setup_enrollment_checks_the_parent_twice() {
    assert_eq!(process_creation_time(1, 2), 0x1_0000_0002);
    assert!(containment_job_created(Ok(0)).is_ok());
    assert!(containment_job_created(Ok(183)).is_err());
    assert!(require_parent_alive(WAIT_TIMEOUT).is_ok());
    assert_eq!(
        require_parent_alive(WAIT_OBJECT_0).unwrap_err().message,
        "standalone setup parent exited before helper enrollment"
    );
    let step = |stage, event| enroll_current_process_in_mcp_setup_job(stage, 77, event);
    assert!(matches!(
        step(EnrollStage::OpenParent, EnrollEvent::Succeeded),
        EnrollStep::Perform(EnrollStage::ReadCreationTime)
    ));
    assert!(matches!(
        step(EnrollStage::ReadCreationTime, EnrollEvent::CreationTime(77)),
        EnrollStep::Perform(EnrollStage::CheckParent)
    ));
    assert!(matches!(
        step(EnrollStage::ReadCreationTime, EnrollEvent::CreationTime(78)),
        EnrollStep::Refused(failure)
            if failure.message == "standalone setup parent process identity changed before enrollment"
    ));
    assert!(matches!(
        step(EnrollStage::CheckParentAgain, EnrollEvent::Waited(WAIT_TIMEOUT)),
        EnrollStep::Enrolled
    ));
    assert!(matches!(
        step(EnrollStage::CheckParentAgain, EnrollEvent::Waited(WAIT_OBJECT_0)),
        EnrollStep::Refused(_)
    ));
    assert!(await_setup_tree(Ok(1), false).is_none());
    assert!(matches!(await_setup_tree(Ok(0), true), Some(Ok(()))));
    assert!(matches!(await_setup_tree(Ok(1), true), Some(Err(_))));
    assert!(matches!(abandoned_job_opened(Some(2)), AbandonedJob::Gone));
    assert!(matches!(abandoned_job_opened(None), AbandonedJob::Retire));
    assert!(matches!(abandoned_job_opened(Some(5)), AbandonedJob::Unknown(_)));
    assert!(abandoned_job_released(Ok(183)).is_err());
}
