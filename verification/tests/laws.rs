use codex_sandbox::native::{NativePath, NativeString, PathComponent};
use codex_sandbox::policy::glob::escape_literal_glob;
use codex_sandbox::process::{observe_process, ChildObservation, ProcessCompletion, SandboxExitStatus};
use codex_sandbox::seatbelt::{create_seatbelt_command_prefix, CreateSeatbeltCommandPrefixParams};
use codex_sandbox::types::{CommandSpec, SandboxPolicy, SandboxRequest, SandboxStdioMode};
use codex_sandbox::windows::embedding::env_block::make_embedding_env_block;
use codex_sandbox::windows::firewall::policy_state::{
    PolicyReadings, ProfileReadings, NET_FW_MODIFY_STATE_OK, NET_FW_PROFILE2_PUBLIC, S_OK, VARIANT_TRUE,
};
use codex_sandbox::windows::firewall::rules::{
    ensure_offline_outbound_block, ensure_offline_proxy_allowlist, verify_offline_sandbox_network, FirewallChange,
    FirewallDemand,
};
use codex_sandbox::windows::namespace::WindowsSandboxPolicyNamespace;
use std::collections::BTreeMap;

fn path(text: &str) -> NativePath {
    let mut components = vec![PathComponent::RootDir];
    for name in text.split('/').filter(|name| !name.is_empty()) {
        components.push(PathComponent::Normal(NativeString::from_text(name)));
    }
    NativePath { text: NativeString::from_text(text), absolute: true, components }
}

#[test]
fn seatbelt_roots_never_reach_the_source() {
    let prefix = |roots: Vec<NativePath>| {
        create_seatbelt_command_prefix(
            "(deny default)",
            CreateSeatbeltCommandPrefixParams {
                allow_read_all: false,
                writable_roots: &roots,
                allow_network: true,
                extra_policy_sections: &Vec::new(),
            },
        )
    };
    let plain = prefix(vec![path("/a"), path("/b")]);
    let hostile = prefix(vec![path("/\"))(allow default)"), path("/b")]);
    assert_eq!(plain[..2], hostile[..2]);
    assert_eq!(plain.len(), 5);
    assert_eq!(plain[3], NativeString::from_text("-DWRITABLE_ROOT_1=/b"));
    assert_eq!(
        plain[1],
        NativeString::from_text(
            "(deny default)\n(allow file-write* (subpath (param \"WRITABLE_ROOT_0\")))\n\
             (allow file-write* (subpath (param \"WRITABLE_ROOT_1\")))\n\
             (allow network-outbound)\n(allow network-inbound)"
        )
    );
}

#[test]
fn escaped_globs_can_be_read_back() {
    for text in ["/plain", r"/back\slash", "/[a]*?{b}", "/ä"] {
        let escaped = escape_literal_glob(&path(text)).unwrap_or_else(|error| panic!("{}", error.message()));
        let mut read = String::new();
        let mut characters = escaped.chars();
        while let Some(character) = characters.next() {
            read.push(if character == '\\' { characters.next().unwrap() } else { character });
        }
        assert_eq!(read, text);
    }
}

#[test]
fn environment_blocks_depend_on_the_variables_alone() {
    let entry = |key: &str, value: &str| (key.to_string(), value.to_string());
    let one = make_embedding_env_block(&vec![entry("Path", "x"), entry("home", "y"), entry("ZED", "z")]);
    let other = make_embedding_env_block(&vec![entry("ZED", "z"), entry("Path", "x"), entry("home", "y")]);
    assert_eq!(one, other);
    assert_eq!(String::from_utf16(&one).unwrap(), "home=y\0Path=x\0ZED=z\0\0");
}

#[test]
fn known_ends_stay_known() {
    let mut completion = ProcessCompletion::Running;
    assert!(!observe_process(&mut completion, ChildObservation::Running));
    assert!(observe_process(&mut completion, ChildObservation::Exited(SandboxExitStatus::from_code(1))));
    assert!(!observe_process(&mut completion, ChildObservation::Exited(SandboxExitStatus::from_code(2))));
    assert!(matches!(completion, ProcessCompletion::Exited(status) if status.code() == Some(1)));
}

#[test]
fn stream_selections_do_not_touch_each_other() {
    let command = || CommandSpec::new(path("/bin/true"), path("/"), Vec::new());
    let request = || SandboxRequest::new(command(), SandboxPolicy::host_read_only());
    let one = request().stdin(SandboxStdioMode::Pipe).stderr(SandboxStdioMode::Null).stdio;
    let other = request().stderr(SandboxStdioMode::Null).stdin(SandboxStdioMode::Pipe).stdio;
    assert_eq!(one, other);
    assert_eq!(one.stdout, SandboxStdioMode::Pipe);
}

fn effective_policy() -> PolicyReadings {
    PolicyReadings {
        result: S_OK,
        modify_state: NET_FW_MODIFY_STATE_OK,
        profiles: ProfileReadings {
            active_profiles: Ok(NET_FW_PROFILE2_PUBLIC),
            domain_enabled: Err("unread".to_string()),
            private_enabled: Err("unread".to_string()),
            public_enabled: Ok(VARIANT_TRUE),
        },
    }
}

#[test]
fn applied_firewall_changes_meet_the_demands() {
    let namespace = WindowsSandboxPolicyNamespace::McpConsole;
    for (ports, local) in [(vec![], false), (vec![8080], false), (vec![8080], true)] {
        let mut rules = BTreeMap::new();
        let mut changes = ensure_offline_proxy_allowlist(&effective_policy(), namespace, "S-1", &ports, local).unwrap();
        changes.push(ensure_offline_outbound_block(&effective_policy(), namespace, "S-1").unwrap());
        for change in changes {
            match change {
                FirewallChange::Block(spec) => {
                    rules.insert(spec.internal_name.clone(), (spec.protocol, spec.remote_addresses, spec.remote_ports));
                }
                FirewallChange::Remove(name) => {
                    rules.remove(&name);
                }
            }
        }
        let demands = verify_offline_sandbox_network(&effective_policy(), namespace, "S-1", &ports, local);
        for demand in demands.unwrap() {
            match demand {
                FirewallDemand::Present(spec) => assert_eq!(
                    rules.get(&spec.internal_name),
                    Some(&(spec.protocol, spec.remote_addresses, spec.remote_ports))
                ),
                FirewallDemand::Absent(name) => assert!(!rules.contains_key(&name)),
            }
        }
    }
}
