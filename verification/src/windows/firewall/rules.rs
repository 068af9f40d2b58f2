//! The rules and the order in which they change.

use crate::text::concat3;
use crate::windows::firewall::blocked_ports::blocked_loopback_tcp_remote_ports;
use crate::windows::firewall::policy_state::PolicyReadings;
use crate::windows::namespace::WindowsSandboxPolicyNamespace;
use crate::windows::setup_failure::SetupFailure;
use vstd::prelude::*;
use vstd::string::*;

verus! {

// A rule's internal name is the stable identifier by which it is found and updated.
// It does not change between installs.
pub const OFFLINE_BLOCK_RULE_NAME: &'static str = "codex_sandbox_offline_block_outbound";

pub const OFFLINE_BLOCK_LOOPBACK_TCP_RULE_NAME: &'static str = "codex_sandbox_offline_block_loopback_tcp";

pub const OFFLINE_BLOCK_LOOPBACK_UDP_RULE_NAME: &'static str = "codex_sandbox_offline_block_loopback_udp";

pub const OFFLINE_PROXY_ALLOW_RULE_NAME: &'static str = "codex_sandbox_offline_allow_loopback_proxy";

pub const MCP_CONSOLE_OFFLINE_BLOCK_RULE_NAME: &'static str = "mcp_console_sandbox_offline_block_outbound";

pub const MCP_CONSOLE_OFFLINE_BLOCK_LOOPBACK_TCP_RULE_NAME: &'static str =
    "mcp_console_sandbox_offline_block_loopback_tcp";

pub const MCP_CONSOLE_OFFLINE_BLOCK_LOOPBACK_UDP_RULE_NAME: &'static str =
    "mcp_console_sandbox_offline_block_loopback_udp";

pub const MCP_CONSOLE_OFFLINE_PROXY_ALLOW_RULE_NAME: &'static str =
    "mcp_console_sandbox_offline_allow_loopback_proxy";

// Friendly text shown in the firewall's own interface.
pub const OFFLINE_BLOCK_RULE_FRIENDLY: &'static str = "Codex Sandbox Offline - Block Non-Loopback Outbound";

pub const OFFLINE_BLOCK_LOOPBACK_TCP_RULE_FRIENDLY: &'static str =
    "Codex Sandbox Offline - Block Loopback TCP (Except Proxy)";

pub const OFFLINE_BLOCK_LOOPBACK_UDP_RULE_FRIENDLY: &'static str = "Codex Sandbox Offline - Block Loopback UDP";

pub const MCP_CONSOLE_OFFLINE_BLOCK_RULE_FRIENDLY: &'static str =
    "MCP Console Sandbox Offline - Block Non-Loopback Outbound";

pub const MCP_CONSOLE_OFFLINE_BLOCK_LOOPBACK_TCP_RULE_FRIENDLY: &'static str =
    "MCP Console Sandbox Offline - Block Loopback TCP (Except Proxy)";

pub const MCP_CONSOLE_OFFLINE_BLOCK_LOOPBACK_UDP_RULE_FRIENDLY: &'static str =
    "MCP Console Sandbox Offline - Block Loopback UDP";

pub const LOOPBACK_REMOTE_ADDRESSES: &'static str = "127.0.0.0/8,::/127";

pub const NON_LOOPBACK_REMOTE_ADDRESSES: &'static str =
    "0.0.0.0-126.255.255.255,128.0.0.0-255.255.255.255,::,::2-ffff:ffff:ffff:ffff:ffff:ffff:ffff:ffff";

pub const ALL_NETWORK_VALUES: &'static str = "*";

pub const ALL_INTERFACE_TYPES: &'static str = "All";

pub const EMPTY_RULE_VALUE: &'static str = "";

/// Protocol numbers of firewall rules.
pub const NET_FW_IP_PROTOCOL_TCP: i32 = 6;

pub const NET_FW_IP_PROTOCOL_UDP: i32 = 17;

pub const NET_FW_IP_PROTOCOL_ANY: i32 = 256;

/// The names of one namespace's rules.
#[derive(Clone, Copy, Debug)]
pub struct FirewallRuleNames {
    pub outbound_block: &'static str,
    pub loopback_tcp_block: &'static str,
    pub loopback_udp_block: &'static str,
    pub proxy_allow: &'static str,
    pub outbound_block_friendly: &'static str,
    pub loopback_tcp_block_friendly: &'static str,
    pub loopback_udp_block_friendly: &'static str,
    /// Whether every other property of a rule is fixed as well.
    pub exact_scope: bool,
}

impl FirewallRuleNames {
    /// The internal names.
    pub open spec fn internal_names(self) -> Seq<Seq<char>> {
        seq![self.outbound_block@, self.loopback_tcp_block@, self.loopback_udp_block@, self.proxy_allow@]
    }

    /// The internal names.
    pub fn all(self) -> (result: Vec<&'static str>)
        ensures
            result.deep_view() == self.internal_names(),
    {
        let mut names: Vec<&'static str> = Vec::new();
        names.push(self.outbound_block);
        names.push(self.loopback_tcp_block);
        names.push(self.loopback_udp_block);
        names.push(self.proxy_allow);
        assert(names.deep_view() =~= self.internal_names());
        names
    }
}

/// The names of a namespace's rules.
pub open spec fn rule_names_of(namespace: WindowsSandboxPolicyNamespace) -> FirewallRuleNames {
    match namespace {
        WindowsSandboxPolicyNamespace::Codex => FirewallRuleNames {
            outbound_block: OFFLINE_BLOCK_RULE_NAME,
            loopback_tcp_block: OFFLINE_BLOCK_LOOPBACK_TCP_RULE_NAME,
            loopback_udp_block: OFFLINE_BLOCK_LOOPBACK_UDP_RULE_NAME,
            proxy_allow: OFFLINE_PROXY_ALLOW_RULE_NAME,
            outbound_block_friendly: OFFLINE_BLOCK_RULE_FRIENDLY,
            loopback_tcp_block_friendly: OFFLINE_BLOCK_LOOPBACK_TCP_RULE_FRIENDLY,
            loopback_udp_block_friendly: OFFLINE_BLOCK_LOOPBACK_UDP_RULE_FRIENDLY,
            exact_scope: false,
        },
        WindowsSandboxPolicyNamespace::McpConsole => FirewallRuleNames {
            outbound_block: MCP_CONSOLE_OFFLINE_BLOCK_RULE_NAME,
            loopback_tcp_block: MCP_CONSOLE_OFFLINE_BLOCK_LOOPBACK_TCP_RULE_NAME,
            loopback_udp_block: MCP_CONSOLE_OFFLINE_BLOCK_LOOPBACK_UDP_RULE_NAME,
            proxy_allow: MCP_CONSOLE_OFFLINE_PROXY_ALLOW_RULE_NAME,
            outbound_block_friendly: MCP_CONSOLE_OFFLINE_BLOCK_RULE_FRIENDLY,
            loopback_tcp_block_friendly: MCP_CONSOLE_OFFLINE_BLOCK_LOOPBACK_TCP_RULE_FRIENDLY,
            loopback_udp_block_friendly: MCP_CONSOLE_OFFLINE_BLOCK_LOOPBACK_UDP_RULE_FRIENDLY,
            exact_scope: true,
        },
    }
}

/// The names of a namespace's rules.
pub fn firewall_rule_names(namespace: WindowsSandboxPolicyNamespace) -> (result: FirewallRuleNames)
    ensures
        result == rule_names_of(namespace),
{
    match namespace {
        WindowsSandboxPolicyNamespace::Codex => FirewallRuleNames {
            outbound_block: OFFLINE_BLOCK_RULE_NAME,
            loopback_tcp_block: OFFLINE_BLOCK_LOOPBACK_TCP_RULE_NAME,
            loopback_udp_block: OFFLINE_BLOCK_LOOPBACK_UDP_RULE_NAME,
            proxy_allow: OFFLINE_PROXY_ALLOW_RULE_NAME,
            outbound_block_friendly: OFFLINE_BLOCK_RULE_FRIENDLY,
            loopback_tcp_block_friendly: OFFLINE_BLOCK_LOOPBACK_TCP_RULE_FRIENDLY,
            loopback_udp_block_friendly: OFFLINE_BLOCK_LOOPBACK_UDP_RULE_FRIENDLY,
            exact_scope: false,
        },
        WindowsSandboxPolicyNamespace::McpConsole => FirewallRuleNames {
            outbound_block: MCP_CONSOLE_OFFLINE_BLOCK_RULE_NAME,
            loopback_tcp_block: MCP_CONSOLE_OFFLINE_BLOCK_LOOPBACK_TCP_RULE_NAME,
            loopback_udp_block: MCP_CONSOLE_OFFLINE_BLOCK_LOOPBACK_UDP_RULE_NAME,
            proxy_allow: MCP_CONSOLE_OFFLINE_PROXY_ALLOW_RULE_NAME,
            outbound_block_friendly: MCP_CONSOLE_OFFLINE_BLOCK_RULE_FRIENDLY,
            loopback_tcp_block_friendly: MCP_CONSOLE_OFFLINE_BLOCK_LOOPBACK_TCP_RULE_FRIENDLY,
            loopback_udp_block_friendly: MCP_CONSOLE_OFFLINE_BLOCK_LOOPBACK_UDP_RULE_FRIENDLY,
            exact_scope: true,
        },
    }
}

/// A rule that blocks outbound traffic of one account.
#[derive(Debug)]
pub struct BlockRuleSpec {
    pub internal_name: String,
    pub friendly_desc: String,
    pub protocol: i32,
    pub local_user_spec: String,
    pub offline_sid: String,
    /// The addresses the rule blocks; `None` for all.
    pub remote_addresses: Option<String>,
    /// The ports the rule blocks; `None` for all.
    pub remote_ports: Option<String>,
    pub exact_scope: bool,
}

/// What a [`BlockRuleSpec`] holds.
pub struct BlockRuleModel {
    pub internal_name: Seq<char>,
    pub friendly_desc: Seq<char>,
    pub protocol: i32,
    pub local_user_spec: Seq<char>,
    pub offline_sid: Seq<char>,
    pub remote_addresses: Option<Seq<char>>,
    pub remote_ports: Option<Seq<char>>,
    pub exact_scope: bool,
}

impl DeepView for BlockRuleSpec {
    type V = BlockRuleModel;

    open spec fn deep_view(&self) -> BlockRuleModel {
        BlockRuleModel {
            internal_name: self.internal_name@,
            friendly_desc: self.friendly_desc@,
            protocol: self.protocol,
            local_user_spec: self.local_user_spec@,
            offline_sid: self.offline_sid@,
            remote_addresses: self.remote_addresses.deep_view(),
            remote_ports: self.remote_ports.deep_view(),
            exact_scope: self.exact_scope,
        }
    }
}

impl View for BlockRuleSpec {
    type V = BlockRuleModel;

    open spec fn view(&self) -> BlockRuleModel {
        self.deep_view()
    }
}

impl BlockRuleModel {
    /// The addresses the rule blocks.
    pub open spec fn addresses(self) -> Seq<char> {
        match self.remote_addresses {
            Some(addresses) => addresses,
            None => ALL_NETWORK_VALUES@,
        }
    }

    /// The ports the rule blocks.
    pub open spec fn ports(self) -> Seq<char> {
        match self.remote_ports {
            Some(ports) => ports,
            None => ALL_NETWORK_VALUES@,
        }
    }
}

/// Whether rules of a protocol tell ports apart.
pub open spec fn protocol_has_ports(protocol: i32) -> bool {
    protocol == NET_FW_IP_PROTOCOL_TCP || protocol == NET_FW_IP_PROTOCOL_UDP
}

/// Whether rules of a protocol tell ports apart.
pub fn has_ports(protocol: i32) -> (result: bool)
    ensures
        result == protocol_has_ports(protocol),
{
    protocol == NET_FW_IP_PROTOCOL_TCP || protocol == NET_FW_IP_PROTOCOL_UDP
}

/// The text of a field, where an absent one stands for everything.
pub fn network_values(field: &Option<String>) -> (result: &str)
    ensures
        result@ == match field {
            Some(values) => values@,
            None => ALL_NETWORK_VALUES@,
        },
{
    match field {
        Some(values) => values.as_str(),
        None => ALL_NETWORK_VALUES,
    }
}

/// The security descriptor that limits a rule to one account.
pub open spec fn user_scope(offline_sid: Seq<char>) -> Seq<char> {
    "O:LSD:(A;;CC;;;"@ + offline_sid + ")"@
}

/// The security descriptor that limits a rule to one account.
pub fn local_user_spec(offline_sid: &str) -> (result: String)
    ensures
        result@ == user_scope(offline_sid@),
{
    concat3("O:LSD:(A;;CC;;;", offline_sid, ")")
}

/// The rule that blocks everything beyond the loopback addresses.
pub open spec fn outbound_block(names: FirewallRuleNames, local_user_spec: Seq<char>, offline_sid: Seq<char>) -> BlockRuleModel {
    BlockRuleModel {
        internal_name: names.outbound_block@,
        friendly_desc: names.outbound_block_friendly@,
        protocol: NET_FW_IP_PROTOCOL_ANY,
        local_user_spec,
        offline_sid,
        remote_addresses: Some(NON_LOOPBACK_REMOTE_ADDRESSES@),
        remote_ports: None,
        exact_scope: names.exact_scope,
    }
}

/// The rule that blocks UDP to the loopback addresses.
pub open spec fn loopback_udp_block(names: FirewallRuleNames, local_user_spec: Seq<char>, offline_sid: Seq<char>) -> BlockRuleModel {
    BlockRuleModel {
        internal_name: names.loopback_udp_block@,
        friendly_desc: names.loopback_udp_block_friendly@,
        protocol: NET_FW_IP_PROTOCOL_UDP,
        local_user_spec,
        offline_sid,
        remote_addresses: Some(LOOPBACK_REMOTE_ADDRESSES@),
        remote_ports: None,
        exact_scope: names.exact_scope,
    }
}

/// The rule that blocks TCP to the loopback addresses.
pub open spec fn loopback_tcp_block(
    names: FirewallRuleNames,
    local_user_spec: Seq<char>,
    offline_sid: Seq<char>,
    remote_ports: Option<Seq<char>>,
) -> BlockRuleModel {
    BlockRuleModel {
        internal_name: names.loopback_tcp_block@,
        friendly_desc: names.loopback_tcp_block_friendly@,
        protocol: NET_FW_IP_PROTOCOL_TCP,
        local_user_spec,
        offline_sid,
        remote_addresses: Some(LOOPBACK_REMOTE_ADDRESSES@),
        remote_ports,
        exact_scope: names.exact_scope,
    }
}

/// The rule that blocks everything beyond the loopback addresses.
pub fn outbound_block_spec(rule_names: &FirewallRuleNames, local_user_spec: &str, offline_sid: &str) -> (result: BlockRuleSpec)
    ensures
        result@ == outbound_block(*rule_names, local_user_spec@, offline_sid@),
{
    BlockRuleSpec {
        internal_name: rule_names.outbound_block.to_owned(),
        friendly_desc: rule_names.outbound_block_friendly.to_owned(),
        protocol: NET_FW_IP_PROTOCOL_ANY,
        local_user_spec: local_user_spec.to_owned(),
        offline_sid: offline_sid.to_owned(),
        remote_addresses: Some(NON_LOOPBACK_REMOTE_ADDRESSES.to_owned()),
        remote_ports: None,
        exact_scope: rule_names.exact_scope,
    }
}

/// The rule that blocks UDP to the loopback addresses.
pub fn loopback_udp_block_spec(rule_names: &FirewallRuleNames, local_user_spec: &str, offline_sid: &str) -> (result: BlockRuleSpec)
    ensures
        result@ == loopback_udp_block(*rule_names, local_user_spec@, offline_sid@),
{
    BlockRuleSpec {
        internal_name: rule_names.loopback_udp_block.to_owned(),
        friendly_desc: rule_names.loopback_udp_block_friendly.to_owned(),
        protocol: NET_FW_IP_PROTOCOL_UDP,
        local_user_spec: local_user_spec.to_owned(),
        offline_sid: offline_sid.to_owned(),
        remote_addresses: Some(LOOPBACK_REMOTE_ADDRESSES.to_owned()),
        remote_ports: None,
        exact_scope: rule_names.exact_scope,
    }
}

/// The rule that blocks TCP to the loopback addresses, on the given ports or on all.
pub fn loopback_tcp_block_spec(
    rule_names: &FirewallRuleNames,
    local_user_spec: &str,
    offline_sid: &str,
    remote_ports: Option<String>,
) -> (result: BlockRuleSpec)
    ensures
        result@ == loopback_tcp_block(*rule_names, local_user_spec@, offline_sid@, remote_ports.deep_view()),
{
    BlockRuleSpec {
        internal_name: rule_names.loopback_tcp_block.to_owned(),
        friendly_desc: rule_names.loopback_tcp_block_friendly.to_owned(),
        protocol: NET_FW_IP_PROTOCOL_TCP,
        local_user_spec: local_user_spec.to_owned(),
        offline_sid: offline_sid.to_owned(),
        remote_addresses: Some(LOOPBACK_REMOTE_ADDRESSES.to_owned()),
        remote_ports,
        exact_scope: rule_names.exact_scope,
    }
}

/// One change of the rules.
#[derive(Debug)]
pub enum FirewallChange {
    /// Create the rule, or bring the one of that name into line.
    Block(BlockRuleSpec),
    /// Remove the rule of this name if there is one.
    Remove(String),
}

/// What a [`FirewallChange`] holds.
pub enum FirewallChangeModel {
    Block(BlockRuleModel),
    Remove(Seq<char>),
}

impl DeepView for FirewallChange {
    type V = FirewallChangeModel;

    open spec fn deep_view(&self) -> FirewallChangeModel {
        match self {
            FirewallChange::Block(spec) => FirewallChangeModel::Block(spec@),
            FirewallChange::Remove(name) => FirewallChangeModel::Remove(name@),
        }
    }
}

/// The changes that limit the offline account's loopback traffic, in order.
pub open spec fn proxy_allowlist_changes(
    namespace: WindowsSandboxPolicyNamespace,
    offline_sid: Seq<char>,
    proxy_ports: Seq<u16>,
    allow_local_binding: bool,
) -> Seq<FirewallChangeModel> {
    let names = rule_names_of(namespace);
    let scope = user_scope(offline_sid);
    if allow_local_binding {
        seq![
            FirewallChangeModel::Remove(names.proxy_allow@),
            FirewallChangeModel::Remove(names.loopback_udp_block@),
            FirewallChangeModel::Remove(names.loopback_tcp_block@),
        ]
    } else {
        let closed = seq![
            FirewallChangeModel::Block(loopback_udp_block(names, scope, offline_sid)),
            FirewallChangeModel::Block(loopback_tcp_block(names, scope, offline_sid, None)),
            FirewallChangeModel::Remove(names.proxy_allow@),
        ];
        match crate::windows::firewall::blocked_ports::blocked_ports_text(proxy_ports) {
            Some(ports) => closed.push(
                FirewallChangeModel::Block(loopback_tcp_block(names, scope, offline_sid, Some(ports))),
            ),
            None => closed,
        }
    }
}

fn plan_proxy_allowlist(
    namespace: WindowsSandboxPolicyNamespace,
    offline_sid: &str,
    proxy_ports: &Vec<u16>,
    allow_local_binding: bool,
) -> (result: Vec<FirewallChange>)
    ensures
        result.deep_view() == proxy_allowlist_changes(namespace, offline_sid@, proxy_ports@, allow_local_binding),
{
    let rule_names = firewall_rule_names(namespace);
    let scope = local_user_spec(offline_sid);
    let mut changes: Vec<FirewallChange> = Vec::new();
    if allow_local_binding {
        // Remove the legacy overlapping allow rule before returning to the local-binding
        // mode so stale proxy exceptions do not linger.
        changes.push(FirewallChange::Remove(rule_names.proxy_allow.to_owned()));
        changes.push(FirewallChange::Remove(rule_names.loopback_udp_block.to_owned()));
        changes.push(FirewallChange::Remove(rule_names.loopback_tcp_block.to_owned()));
        assert(changes.deep_view() =~= proxy_allowlist_changes(
            namespace,
            offline_sid@,
            proxy_ports@,
            allow_local_binding,
        ));
        return changes;
    }
    changes.push(FirewallChange::Block(loopback_udp_block_spec(&rule_names, scope.as_str(), offline_sid)));
    // The broad TCP block comes before the narrow one. If the narrowing update fails, the
    // sandbox remains closed.
    changes.push(FirewallChange::Block(loopback_tcp_block_spec(&rule_names, scope.as_str(), offline_sid, None)));
    // The legacy overlapping allow rule goes only after the explicit block rules are in
    // place, so that transitions back to proxy-only mode do not open a gap.
    changes.push(FirewallChange::Remove(rule_names.proxy_allow.to_owned()));
    if let Some(blocked_remote_ports) = blocked_loopback_tcp_remote_ports(proxy_ports) {
        changes.push(
            FirewallChange::Block(
                loopback_tcp_block_spec(&rule_names, scope.as_str(), offline_sid, Some(blocked_remote_ports)),
            ),
        );
    }
    assert(changes.deep_view() =~= proxy_allowlist_changes(
        namespace,
        offline_sid@,
        proxy_ports@,
        allow_local_binding,
    ));
    changes
}

/// The changes that limit the offline account's loopback traffic, in order. Where the
/// host's policy keeps rules from taking effect, nothing is changed.
pub fn ensure_offline_proxy_allowlist(
    policy: &PolicyReadings,
    namespace: WindowsSandboxPolicyNamespace,
    offline_sid: &str,
    proxy_ports: &Vec<u16>,
    allow_local_binding: bool,
) -> (result: Result<Vec<FirewallChange>, SetupFailure>)
    ensures
        match policy.failure(namespace) {
            Some(expected) => result matches Err(failure) && failure@ == expected,
            None => result matches Ok(changes) && changes.deep_view() == proxy_allowlist_changes(
                namespace,
                offline_sid@,
                proxy_ports@,
                allow_local_binding,
            ),
        },
{
    match policy.check(namespace) {
        Ok(_) => {},
        Err(failure) => {
            return Err(failure);
        },
    }
    Ok(plan_proxy_allowlist(namespace, offline_sid, proxy_ports, allow_local_binding))
}

/// The change that blocks all outbound protocols of the offline account. Where the host's
/// policy keeps rules from taking effect, nothing is changed.
pub fn ensure_offline_outbound_block(
    policy: &PolicyReadings,
    namespace: WindowsSandboxPolicyNamespace,
    offline_sid: &str,
) -> (result: Result<FirewallChange, SetupFailure>)
    ensures
        match policy.failure(namespace) {
            Some(expected) => result matches Err(failure) && failure@ == expected,
            None => result matches Ok(change) && change.deep_view() == FirewallChangeModel::Block(
                outbound_block(rule_names_of(namespace), user_scope(offline_sid@), offline_sid@),
            ),
        },
{
    match policy.check(namespace) {
        Ok(_) => {},
        Err(failure) => {
            return Err(failure);
        },
    }
    let rule_names = firewall_rule_names(namespace);
    let scope = local_user_spec(offline_sid);
    Ok(FirewallChange::Block(outbound_block_spec(&rule_names, scope.as_str(), offline_sid)))
}

/// What must hold of one rule for the offline account to be confined.
#[derive(Debug)]
pub enum FirewallDemand {
    /// The rule is there exactly as described.
    Present(BlockRuleSpec),
    /// There is no rule of this name.
    Absent(String),
}

/// What a [`FirewallDemand`] holds.
pub enum FirewallDemandModel {
    Present(BlockRuleModel),
    Absent(Seq<char>),
}

impl DeepView for FirewallDemand {
    type V = FirewallDemandModel;

    open spec fn deep_view(&self) -> FirewallDemandModel {
        match self {
            FirewallDemand::Present(spec) => FirewallDemandModel::Present(spec@),
            FirewallDemand::Absent(name) => FirewallDemandModel::Absent(name@),
        }
    }
}

/// What must hold of the rules, in the order in which it is verified.
pub open spec fn offline_network_demands(
    namespace: WindowsSandboxPolicyNamespace,
    offline_sid: Seq<char>,
    proxy_ports: Seq<u16>,
    allow_local_binding: bool,
) -> Seq<FirewallDemandModel> {
    let names = rule_names_of(namespace);
    let scope = user_scope(offline_sid);
    let blocked_ports = crate::windows::firewall::blocked_ports::blocked_ports_text(proxy_ports);
    if allow_local_binding {
        seq![
            FirewallDemandModel::Present(outbound_block(names, scope, offline_sid)),
            FirewallDemandModel::Absent(names.proxy_allow@),
            FirewallDemandModel::Absent(names.loopback_udp_block@),
            FirewallDemandModel::Absent(names.loopback_tcp_block@),
        ]
    } else {
        seq![
            FirewallDemandModel::Present(outbound_block(names, scope, offline_sid)),
            FirewallDemandModel::Absent(names.proxy_allow@),
            FirewallDemandModel::Present(loopback_udp_block(names, scope, offline_sid)),
            FirewallDemandModel::Present(loopback_tcp_block(names, scope, offline_sid, blocked_ports)),
        ]
    }
}

fn plan_demands(
    namespace: WindowsSandboxPolicyNamespace,
    offline_sid: &str,
    proxy_ports: &Vec<u16>,
    allow_local_binding: bool,
) -> (result: Vec<FirewallDemand>)
    ensures
        result.deep_view() == offline_network_demands(namespace, offline_sid@, proxy_ports@, allow_local_binding),
{
    let rule_names = firewall_rule_names(namespace);
    let scope = local_user_spec(offline_sid);
    let mut demands: Vec<FirewallDemand> = Vec::new();
    demands.push(FirewallDemand::Present(outbound_block_spec(&rule_names, scope.as_str(), offline_sid)));
    demands.push(FirewallDemand::Absent(rule_names.proxy_allow.to_owned()));
    if allow_local_binding {
        demands.push(FirewallDemand::Absent(rule_names.loopback_udp_block.to_owned()));
        demands.push(FirewallDemand::Absent(rule_names.loopback_tcp_block.to_owned()));
    } else {
        demands.push(FirewallDemand::Present(loopback_udp_block_spec(&rule_names, scope.as_str(), offline_sid)));
        let blocked_remote_ports = blocked_loopback_tcp_remote_ports(proxy_ports);
        demands.push(
            FirewallDemand::Present(
                loopback_tcp_block_spec(&rule_names, scope.as_str(), offline_sid, blocked_remote_ports),
            ),
        );
    }
    assert(demands.deep_view() =~= offline_network_demands(
        namespace,
        offline_sid@,
        proxy_ports@,
        allow_local_binding,
    ));
    demands
}

/// What must hold of the rules, in the order in which it is verified. Where the host's
/// policy keeps rules from taking effect, none of them is looked at.
pub fn verify_offline_sandbox_network(
    policy: &PolicyReadings,
    namespace: WindowsSandboxPolicyNamespace,
    offline_sid: &str,
    proxy_ports: &Vec<u16>,
    allow_local_binding: bool,
) -> (result: Result<Vec<FirewallDemand>, SetupFailure>)
    ensures
        match policy.failure(namespace) {
            Some(expected) => result matches Err(failure) && failure@ == expected,
            None => result matches Ok(demands) && demands.deep_view() == offline_network_demands(
                namespace,
                offline_sid@,
                proxy_ports@,
                allow_local_binding,
            ),
        },
{
    match policy.check(namespace) {
        Ok(_) => {},
        Err(failure) => {
            return Err(failure);
        },
    }
    Ok(plan_demands(namespace, offline_sid, proxy_ports, allow_local_binding))
}

/// The state of the rules after some changes: what stands under each name.
pub open spec fn rules_after(rules: Map<Seq<char>, BlockRuleModel>, changes: Seq<FirewallChangeModel>) -> Map<
    Seq<char>,
    BlockRuleModel,
>
    decreases changes.len(),
{
    if changes.len() == 0 {
        rules
    } else {
        let before = rules_after(rules, changes.drop_last());
        match changes.last() {
            FirewallChangeModel::Block(spec) => before.insert(spec.internal_name, spec),
            FirewallChangeModel::Remove(name) => before.remove(name),
        }
    }
}

/// Whether the rules meet a demand.
pub open spec fn meets(rules: Map<Seq<char>, BlockRuleModel>, demand: FirewallDemandModel) -> bool {
    match demand {
        FirewallDemandModel::Present(spec) => rules.contains_key(spec.internal_name) && rules[spec.internal_name]
            == spec,
        FirewallDemandModel::Absent(name) => !rules.contains_key(name),
    }
}

proof fn lemma_names_differ(namespace: WindowsSandboxPolicyNamespace)
    ensures
        ({
            let names = rule_names_of(namespace);
            &&& names.outbound_block@ != names.loopback_tcp_block@
            &&& names.outbound_block@ != names.loopback_udp_block@
            &&& names.outbound_block@ != names.proxy_allow@
            &&& names.loopback_tcp_block@ != names.loopback_udp_block@
            &&& names.loopback_tcp_block@ != names.proxy_allow@
            &&& names.loopback_udp_block@ != names.proxy_allow@
        }),
{
    reveal_strlit("codex_sandbox_offline_block_outbound");
    reveal_strlit("codex_sandbox_offline_block_loopback_tcp");
    reveal_strlit("codex_sandbox_offline_block_loopback_udp");
    reveal_strlit("codex_sandbox_offline_allow_loopback_proxy");
    reveal_strlit("mcp_console_sandbox_offline_block_outbound");
    reveal_strlit("mcp_console_sandbox_offline_block_loopback_tcp");
    reveal_strlit("mcp_console_sandbox_offline_block_loopback_udp");
    reveal_strlit("mcp_console_sandbox_offline_allow_loopback_proxy");
    let names = rule_names_of(namespace);
    match namespace {
        WindowsSandboxPolicyNamespace::Codex => {
            assert(names.outbound_block@.len() == 36);
            assert(names.loopback_tcp_block@.len() == 40);
            assert(names.loopback_udp_block@.len() == 40);
            assert(names.proxy_allow@.len() == 42);
            assert(names.loopback_tcp_block@[37] == 't');
            assert(names.loopback_udp_block@[37] == 'u');
        },
        WindowsSandboxPolicyNamespace::McpConsole => {
            assert(names.outbound_block@.len() == 42);
            assert(names.loopback_tcp_block@.len() == 46);
            assert(names.loopback_udp_block@.len() == 46);
            assert(names.proxy_allow@.len() == 48);
            assert(names.loopback_tcp_block@[43] == 't');
            assert(names.loopback_udp_block@[43] == 'u');
        },
    }
}

/// The rules of one namespace never bear a name of the other.
pub proof fn rule_names_are_disjoint(first: int, second: int)
    requires
        0 <= first < 4,
        0 <= second < 4,
    ensures
        rule_names_of(WindowsSandboxPolicyNamespace::Codex).internal_names()[first] != rule_names_of(
            WindowsSandboxPolicyNamespace::McpConsole,
        ).internal_names()[second],
{
    reveal_strlit("codex_sandbox_offline_block_outbound");
    reveal_strlit("codex_sandbox_offline_block_loopback_tcp");
    reveal_strlit("codex_sandbox_offline_block_loopback_udp");
    reveal_strlit("codex_sandbox_offline_allow_loopback_proxy");
    reveal_strlit("mcp_console_sandbox_offline_block_outbound");
    reveal_strlit("mcp_console_sandbox_offline_block_loopback_tcp");
    reveal_strlit("mcp_console_sandbox_offline_block_loopback_udp");
    reveal_strlit("mcp_console_sandbox_offline_allow_loopback_proxy");
    let codex = rule_names_of(WindowsSandboxPolicyNamespace::Codex).internal_names()[first];
    let mcp_console = rule_names_of(WindowsSandboxPolicyNamespace::McpConsole).internal_names()[second];
    assert(codex[0] == 'c');
    assert(mcp_console[0] == 'm');
}

/// Once the loopback changes and the outbound block are in place, whatever the rules
/// were, they meet every demand of the verification.
pub proof fn applied_changes_meet_the_demands(
    rules: Map<Seq<char>, BlockRuleModel>,
    namespace: WindowsSandboxPolicyNamespace,
    offline_sid: Seq<char>,
    proxy_ports: Seq<u16>,
    allow_local_binding: bool,
    index: int,
)
    requires
        0 <= index < offline_network_demands(namespace, offline_sid, proxy_ports, allow_local_binding).len(),
    ensures
        meets(
            rules_after(
                rules,
                proxy_allowlist_changes(namespace, offline_sid, proxy_ports, allow_local_binding).push(
                    FirewallChangeModel::Block(
                        outbound_block(rule_names_of(namespace), user_scope(offline_sid), offline_sid),
                    ),
                ),
            ),
            offline_network_demands(namespace, offline_sid, proxy_ports, allow_local_binding)[index],
        ),
{
    lemma_names_differ(namespace);
    let changes = proxy_allowlist_changes(namespace, offline_sid, proxy_ports, allow_local_binding);
    let last = FirewallChangeModel::Block(
        outbound_block(rule_names_of(namespace), user_scope(offline_sid), offline_sid),
    );
    assert(changes.push(last).drop_last() =~= changes);
    reveal_with_fuel(rules_after, 6);
    if changes.len() == 4 {
        assert(changes.drop_last()[2] == changes[2]);
    }
}

/// While the loopback changes of the closed mode are applied, the allow rule goes only
/// after both loopback protocols are blocked, and TCP stays blocked from then on.
pub proof fn closed_mode_never_opens_a_gap(
    rules: Map<Seq<char>, BlockRuleModel>,
    namespace: WindowsSandboxPolicyNamespace,
    offline_sid: Seq<char>,
    proxy_ports: Seq<u16>,
    applied: int,
)
    requires
        2 <= applied <= proxy_allowlist_changes(namespace, offline_sid, proxy_ports, false).len(),
    ensures
        ({
            let changes = proxy_allowlist_changes(namespace, offline_sid, proxy_ports, false);
            let names = rule_names_of(namespace);
            let scope = user_scope(offline_sid);
            let reached = rules_after(rules, changes.take(applied));
            &&& reached.contains_key(names.loopback_udp_block@)
            &&& reached[names.loopback_udp_block@] == loopback_udp_block(names, scope, offline_sid)
            &&& reached.contains_key(names.loopback_tcp_block@)
            &&& reached[names.loopback_tcp_block@] == loopback_tcp_block(names, scope, offline_sid, None)
                || reached[names.loopback_tcp_block@] == loopback_tcp_block(
                names,
                scope,
                offline_sid,
                crate::windows::firewall::blocked_ports::blocked_ports_text(proxy_ports),
            )
            &&& changes[0] is Block
            &&& changes[1] is Block
        }),
{
    lemma_names_differ(namespace);
    let changes = proxy_allowlist_changes(namespace, offline_sid, proxy_ports, false);
    reveal_with_fuel(rules_after, 5);
    let taken = changes.take(applied);
    if applied == 2 {
        assert(taken.drop_last() =~= changes.take(1));
        assert(changes.take(1).drop_last() =~= changes.take(0));
    } else if applied == 3 {
        assert(taken.drop_last() =~= changes.take(2));
        assert(changes.take(2).drop_last() =~= changes.take(1));
        assert(changes.take(1).drop_last() =~= changes.take(0));
    } else {
        assert(taken.drop_last() =~= changes.take(3));
        assert(changes.take(3).drop_last() =~= changes.take(2));
        assert(changes.take(2).drop_last() =~= changes.take(1));
        assert(changes.take(1).drop_last() =~= changes.take(0));
    }
}

/// Every rule of a namespace is limited to the offline account, and names it.
pub proof fn rules_bind_the_offline_account(
    namespace: WindowsSandboxPolicyNamespace,
    offline_sid: Seq<char>,
    proxy_ports: Seq<u16>,
    allow_local_binding: bool,
    rule: BlockRuleModel,
)
    requires
        ({
            ||| proxy_allowlist_changes(namespace, offline_sid, proxy_ports, allow_local_binding).contains(
                FirewallChangeModel::Block(rule),
            )
            ||| offline_network_demands(namespace, offline_sid, proxy_ports, allow_local_binding).contains(
                FirewallDemandModel::Present(rule),
            )
        }),
    ensures
        rule.local_user_spec == "O:LSD:(A;;CC;;;"@ + offline_sid + ")"@,
        rule.offline_sid == offline_sid,
        rule.exact_scope <==> namespace is McpConsole,
        rule.remote_addresses is Some,
        rule.internal_name != rule_names_of(namespace).proxy_allow@,
{
    lemma_names_differ(namespace);
}

/// Each rule bears its own name and description in its namespace, limits its own protocol,
/// and reaches every port but where it was given a list.
pub proof fn rules_bear_their_own_names(
    names: FirewallRuleNames,
    local_user_spec: Seq<char>,
    offline_sid: Seq<char>,
    remote_ports: Option<Seq<char>>,
)
    ensures
        ({
            let outbound = outbound_block(names, local_user_spec, offline_sid);
            let udp = loopback_udp_block(names, local_user_spec, offline_sid);
            let tcp = loopback_tcp_block(names, local_user_spec, offline_sid, remote_ports);
            &&& outbound.internal_name == names.outbound_block@
            &&& outbound.friendly_desc == names.outbound_block_friendly@
            &&& udp.internal_name == names.loopback_udp_block@
            &&& udp.friendly_desc == names.loopback_udp_block_friendly@
            &&& tcp.internal_name == names.loopback_tcp_block@
            &&& tcp.friendly_desc == names.loopback_tcp_block_friendly@
            &&& outbound.protocol == 256 && udp.protocol == 17 && tcp.protocol == 6
            &&& outbound.remote_ports is None && udp.remote_ports is None && tcp.remote_ports == remote_ports
            &&& udp.remote_addresses == tcp.remote_addresses && outbound.remote_addresses != tcp.remote_addresses
            &&& outbound.local_user_spec == local_user_spec && udp.local_user_spec == local_user_spec
                && tcp.local_user_spec == local_user_spec
            &&& outbound.offline_sid == offline_sid && udp.offline_sid == offline_sid && tcp.offline_sid == offline_sid
        }),
        protocol_has_ports(6) && protocol_has_ports(17) && !protocol_has_ports(256),
{
    reveal_strlit("127.0.0.0/8,::/127");
    reveal_strlit(
        "0.0.0.0-126.255.255.255,128.0.0.0-255.255.255.255,::,::2-ffff:ffff:ffff:ffff:ffff:ffff:ffff:ffff",
    );
    assert(LOOPBACK_REMOTE_ADDRESSES@[0] == '1');
    assert(NON_LOOPBACK_REMOTE_ADDRESSES@[0] == '0');
}

/// The internal names of a namespace are exactly those of its four rules.
pub proof fn namespaces_know_their_rules(names: FirewallRuleNames, name: Seq<char>)
    ensures
        names.internal_names().contains(name) <==> name == names.outbound_block@ || name == names.loopback_tcp_block@
            || name == names.loopback_udp_block@ || name == names.proxy_allow@,
        rule_names_of(WindowsSandboxPolicyNamespace::McpConsole).exact_scope,
        !rule_names_of(WindowsSandboxPolicyNamespace::Codex).exact_scope,
{
    let all = names.internal_names();
    assert(all[0] == names.outbound_block@ && all[1] == names.loopback_tcp_block@);
    assert(all[2] == names.loopback_udp_block@ && all[3] == names.proxy_allow@);
}

} // verus!
