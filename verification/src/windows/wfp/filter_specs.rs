//! The persistent filters that confine the offline account.

use crate::windows::namespace::WindowsSandboxPolicyNamespace;
use crate::windows::product::Guid;
use vstd::prelude::*;
use vstd::string::*;

verus! {

/// Internet protocol numbers.
pub const IPPROTO_ICMP: u8 = 1;

pub const IPPROTO_ICMPV6: u8 = 58;

/// A condition under which a filter blocks.
#[derive(Clone, Copy, Debug, PartialEq, Eq, Structural)]
pub enum ConditionSpec {
    /// The traffic belongs to the confined account.
    User,
    Protocol(u8),
    RemotePort(u16),
}

/// A filtering layer.
#[derive(Clone, Copy, Debug, PartialEq, Eq, Structural)]
pub enum WfpLayer {
    AuthConnectV4,
    AuthConnectV6,
    ResourceAssignmentV4,
    ResourceAssignmentV6,
}

/// One persistent blocking filter.
#[derive(Clone, Copy, Debug)]
pub struct FilterSpec {
    pub codex_key: Guid,
    pub mcp_console_key: Guid,
    pub codex_name: &'static str,
    pub mcp_console_name: &'static str,
    pub description: &'static str,
    pub layer: WfpLayer,
    /// The traffic that is blocked, besides belonging to the confined account.
    pub traffic: ConditionSpec,
}

impl FilterSpec {
    /// The filter's identity in a namespace.
    pub open spec fn key_in(self, namespace: WindowsSandboxPolicyNamespace) -> Guid {
        match namespace {
            WindowsSandboxPolicyNamespace::Codex => self.codex_key,
            WindowsSandboxPolicyNamespace::McpConsole => self.mcp_console_key,
        }
    }

    /// The filter's name in a namespace.
    pub open spec fn name_in(self, namespace: WindowsSandboxPolicyNamespace) -> Seq<char> {
        match namespace {
            WindowsSandboxPolicyNamespace::Codex => self.codex_name@,
            WindowsSandboxPolicyNamespace::McpConsole => self.mcp_console_name@,
        }
    }

    /// The conditions of the filter, in order.
    pub open spec fn all_conditions(self) -> Seq<ConditionSpec> {
        seq![ConditionSpec::User, self.traffic]
    }

    pub fn key(self, namespace: WindowsSandboxPolicyNamespace) -> (result: Guid)
        ensures
            result == self.key_in(namespace),
    {
        match namespace {
            WindowsSandboxPolicyNamespace::Codex => self.codex_key,
            WindowsSandboxPolicyNamespace::McpConsole => self.mcp_console_key,
        }
    }

    pub fn name(self, namespace: WindowsSandboxPolicyNamespace) -> (result: &'static str)
        ensures
            result@ == self.name_in(namespace),
    {
        match namespace {
            WindowsSandboxPolicyNamespace::Codex => self.codex_name,
            WindowsSandboxPolicyNamespace::McpConsole => self.mcp_console_name,
        }
    }

    pub fn conditions(self) -> (result: Vec<ConditionSpec>)
        ensures
            result@ == self.all_conditions(),
    {
        let mut conditions: Vec<ConditionSpec> = Vec::new();
        conditions.push(ConditionSpec::User);
        conditions.push(self.traffic);
        assert(conditions@ =~= self.all_conditions());
        conditions
    }
}

/// All filters. Filters on the name-resolution cache are left out: the layer takes no
/// ordinary static filter.
pub open spec fn filter_table() -> Seq<FilterSpec> {
    seq![
        FilterSpec {
            codex_key: Guid { data1: 0x9f5f3812, data2: 0x79f0, data3: 0x4fe9, data4: 0x9615_4c2c92d2f0ff },
            mcp_console_key: Guid { data1: 0x51b90ce5, data2: 0x2e26, data3: 0x47be, data4: 0xbd22_975898b4e09c },
            codex_name: "codex_wfp_icmp_connect_v4",
            mcp_console_name: "mcp_console_sandbox_wfp_icmp_connect_v4",
            description: "Block sandbox-account ICMP connect v4",
            layer: WfpLayer::AuthConnectV4,
            traffic: ConditionSpec::Protocol(IPPROTO_ICMP),
        },
        FilterSpec {
            codex_key: Guid { data1: 0x87498484, data2: 0x45ab, data3: 0x4510, data4: 0x845e_ece8b791b3bc },
            mcp_console_key: Guid { data1: 0xbd016c89, data2: 0x57f2, data3: 0x480c, data4: 0xb37a_bea0d8224e73 },
            codex_name: "codex_wfp_icmp_connect_v6",
            mcp_console_name: "mcp_console_sandbox_wfp_icmp_connect_v6",
            description: "Block sandbox-account ICMP connect v6",
            layer: WfpLayer::AuthConnectV6,
            traffic: ConditionSpec::Protocol(IPPROTO_ICMPV6),
        },
        FilterSpec {
            codex_key: Guid { data1: 0xaf4751de, data2: 0xf874, data3: 0x4a7b, data4: 0xa34d_f0d0f22d1d9b },
            mcp_console_key: Guid { data1: 0x342a445f, data2: 0xfabf, data3: 0x4f3a, data4: 0xb955_a398df839839 },
            codex_name: "codex_wfp_icmp_assign_v4",
            mcp_console_name: "mcp_console_sandbox_wfp_icmp_assign_v4",
            description: "Block sandbox-account ICMP resource assignment v4",
            layer: WfpLayer::ResourceAssignmentV4,
            traffic: ConditionSpec::Protocol(IPPROTO_ICMP),
        },
        FilterSpec {
            codex_key: Guid { data1: 0xea10db66, data2: 0xa928, data3: 0x4b2e, data4: 0xa82e_a376a54f93ba },
            mcp_console_key: Guid { data1: 0x5747b0df, data2: 0xa08e, data3: 0x4bcb, data4: 0x9f70_54e860632582 },
            codex_name: "codex_wfp_icmp_assign_v6",
            mcp_console_name: "mcp_console_sandbox_wfp_icmp_assign_v6",
            description: "Block sandbox-account ICMP resource assignment v6",
            layer: WfpLayer::ResourceAssignmentV6,
            traffic: ConditionSpec::Protocol(IPPROTO_ICMPV6),
        },
        FilterSpec {
            codex_key: Guid { data1: 0x83172805, data2: 0xf6be, data3: 0x4ae1, data4: 0x9dc6_6847aef04e7f },
            mcp_console_key: Guid { data1: 0x9ff5e9f4, data2: 0x8c84, data3: 0x4ad4, data4: 0x94c8_a146ab13ed6b },
            codex_name: "codex_wfp_dns_53_v4",
            mcp_console_name: "mcp_console_sandbox_wfp_dns_53_v4",
            description: "Block sandbox-account DNS TCP or UDP port 53 v4",
            layer: WfpLayer::AuthConnectV4,
            traffic: ConditionSpec::RemotePort(53),
        },
        FilterSpec {
            codex_key: Guid { data1: 0xd23b2efb, data2: 0x1efb, data3: 0x46b2, data4: 0x96f3_b0ccda5690c8 },
            mcp_console_key: Guid { data1: 0x88984699, data2: 0xd880, data3: 0x4c4d, data4: 0xae5a_095c5cbc7225 },
            codex_name: "codex_wfp_dns_53_v6",
            mcp_console_name: "mcp_console_sandbox_wfp_dns_53_v6",
            description: "Block sandbox-account DNS TCP or UDP port 53 v6",
            layer: WfpLayer::AuthConnectV6,
            traffic: ConditionSpec::RemotePort(53),
        },
        FilterSpec {
            codex_key: Guid { data1: 0x420b026f, data2: 0x9dc9, data3: 0x4aea, data4: 0x88f4_0f2b9feab39a },
            mcp_console_key: Guid { data1: 0x6fe46228, data2: 0x4afa, data3: 0x4d65, data4: 0xafa6_7c1a3b5ae9de },
            codex_name: "codex_wfp_dns_853_v4",
            mcp_console_name: "mcp_console_sandbox_wfp_dns_853_v4",
            description: "Block sandbox-account DNS-over-TLS port 853 v4",
            layer: WfpLayer::AuthConnectV4,
            traffic: ConditionSpec::RemotePort(853),
        },
        FilterSpec {
            codex_key: Guid { data1: 0x8d917c81, data2: 0x99cc, data3: 0x45e7, data4: 0x84d6_824df860cfb8 },
            mcp_console_key: Guid { data1: 0x6f10f4bd, data2: 0x5640, data3: 0x4f50, data4: 0xb9cf_ebfde4b17ab8 },
            codex_name: "codex_wfp_dns_853_v6",
            mcp_console_name: "mcp_console_sandbox_wfp_dns_853_v6",
            description: "Block sandbox-account DNS-over-TLS port 853 v6",
            layer: WfpLayer::AuthConnectV6,
            traffic: ConditionSpec::RemotePort(853),
        },
        FilterSpec {
            codex_key: Guid { data1: 0xe1d6e0af, data2: 0xce5f, data3: 0x471b, data4: 0xb2d3_15ca00e966f3 },
            mcp_console_key: Guid { data1: 0x9a14edac, data2: 0x30e9, data3: 0x404a, data4: 0xb52e_9b48aded2442 },
            codex_name: "codex_wfp_smb_445_v4",
            mcp_console_name: "mcp_console_sandbox_wfp_smb_445_v4",
            description: "Block sandbox-account SMB port 445 v4",
            layer: WfpLayer::AuthConnectV4,
            traffic: ConditionSpec::RemotePort(445),
        },
        FilterSpec {
            codex_key: Guid { data1: 0xc2bceca4, data2: 0x66ef, data3: 0x4a0f, data4: 0xba80_f4f761b8c6f0 },
            mcp_console_key: Guid { data1: 0x9d01857b, data2: 0xb900, data3: 0x4700, data4: 0x91e1_afd5faec1fd2 },
            codex_name: "codex_wfp_smb_445_v6",
            mcp_console_name: "mcp_console_sandbox_wfp_smb_445_v6",
            description: "Block sandbox-account SMB port 445 v6",
            layer: WfpLayer::AuthConnectV6,
            traffic: ConditionSpec::RemotePort(445),
        },
        FilterSpec {
            codex_key: Guid { data1: 0xba10c618, data2: 0x84e7, data3: 0x4b83, data4: 0x8f74_36e22b2fa1ff },
            mcp_console_key: Guid { data1: 0xba59dc5f, data2: 0x049d, data3: 0x4e56, data4: 0x80d7_a73c9af0775e },
            codex_name: "codex_wfp_smb_139_v4",
            mcp_console_name: "mcp_console_sandbox_wfp_smb_139_v4",
            description: "Block sandbox-account SMB port 139 v4",
            layer: WfpLayer::AuthConnectV4,
            traffic: ConditionSpec::RemotePort(139),
        },
        FilterSpec {
            codex_key: Guid { data1: 0xfe7f22b8, data2: 0x5cf5, data3: 0x4adb, data4: 0xb2aa_71fc0a8f5d44 },
            mcp_console_key: Guid { data1: 0x08a3b4e2, data2: 0xd4e5, data3: 0x42c1, data4: 0x997d_2ae19d8ca7c7 },
            codex_name: "codex_wfp_smb_139_v6",
            mcp_console_name: "mcp_console_sandbox_wfp_smb_139_v6",
            description: "Block sandbox-account SMB port 139 v6",
            layer: WfpLayer::AuthConnectV6,
            traffic: ConditionSpec::RemotePort(139),
        },
    ]
}

/// All filters.
pub fn filter_specs() -> (result: Vec<FilterSpec>)
    ensures
        result@ == filter_table(),
{
    let mut specs: Vec<FilterSpec> = Vec::new();
    specs.push(
        FilterSpec {
            codex_key: Guid { data1: 0x9f5f3812, data2: 0x79f0, data3: 0x4fe9, data4: 0x9615_4c2c92d2f0ff },
            mcp_console_key: Guid { data1: 0x51b90ce5, data2: 0x2e26, data3: 0x47be, data4: 0xbd22_975898b4e09c },
            codex_name: "codex_wfp_icmp_connect_v4",
            mcp_console_name: "mcp_console_sandbox_wfp_icmp_connect_v4",
            description: "Block sandbox-account ICMP connect v4",
            layer: WfpLayer::AuthConnectV4,
            traffic: ConditionSpec::Protocol(IPPROTO_ICMP),
        },
    );
    specs.push(
        FilterSpec {
            codex_key: Guid { data1: 0x87498484, data2: 0x45ab, data3: 0x4510, data4: 0x845e_ece8b791b3bc },
            mcp_console_key: Guid { data1: 0xbd016c89, data2: 0x57f2, data3: 0x480c, data4: 0xb37a_bea0d8224e73 },
            codex_name: "codex_wfp_icmp_connect_v6",
            mcp_console_name: "mcp_console_sandbox_wfp_icmp_connect_v6",
            description: "Block sandbox-account ICMP connect v6",
            layer: WfpLayer::AuthConnectV6,
            traffic: ConditionSpec::Protocol(IPPROTO_ICMPV6),
        },
    );
    specs.push(
        FilterSpec {
            codex_key: Guid { data1: 0xaf4751de, data2: 0xf874, data3: 0x4a7b, data4: 0xa34d_f0d0f22d1d9b },
            mcp_console_key: Guid { data1: 0x342a445f, data2: 0xfabf, data3: 0x4f3a, data4: 0xb955_a398df839839 },
            codex_name: "codex_wfp_icmp_assign_v4",
            mcp_console_name: "mcp_console_sandbox_wfp_icmp_assign_v4",
            description: "Block sandbox-account ICMP resource assignment v4",
            layer: WfpLayer::ResourceAssignmentV4,
            traffic: ConditionSpec::Protocol(IPPROTO_ICMP),
        },
    );
    specs.push(
        FilterSpec {
            codex_key: Guid { data1: 0xea10db66, data2: 0xa928, data3: 0x4b2e, data4: 0xa82e_a376a54f93ba },
            mcp_console_key: Guid { data1: 0x5747b0df, data2: 0xa08e, data3: 0x4bcb, data4: 0x9f70_54e860632582 },
            codex_name: "codex_wfp_icmp_assign_v6",
            mcp_console_name: "mcp_console_sandbox_wfp_icmp_assign_v6",
            description: "Block sandbox-account ICMP resource assignment v6",
            layer: WfpLayer::ResourceAssignmentV6,
            traffic: ConditionSpec::Protocol(IPPROTO_ICMPV6),
        },
    );
    specs.push(
        FilterSpec {
            codex_key: Guid { data1: 0x83172805, data2: 0xf6be, data3: 0x4ae1, data4: 0x9dc6_6847aef04e7f },
            mcp_console_key: Guid { data1: 0x9ff5e9f4, data2: 0x8c84, data3: 0x4ad4, data4: 0x94c8_a146ab13ed6b },
            codex_name: "codex_wfp_dns_53_v4",
            mcp_console_name: "mcp_console_sandbox_wfp_dns_53_v4",
            description: "Block sandbox-account DNS TCP or UDP port 53 v4",
            layer: WfpLayer::AuthConnectV4,
            traffic: ConditionSpec::RemotePort(53),
        },
    );
    specs.push(
        FilterSpec {
            codex_key: Guid { data1: 0xd23b2efb, data2: 0x1efb, data3: 0x46b2, data4: 0x96f3_b0ccda5690c8 },
            mcp_console_key: Guid { data1: 0x88984699, data2: 0xd880, data3: 0x4c4d, data4: 0xae5a_095c5cbc7225 },
            codex_name: "codex_wfp_dns_53_v6",
            mcp_console_name: "mcp_console_sandbox_wfp_dns_53_v6",
            description: "Block sandbox-account DNS TCP or UDP port 53 v6",
            layer: WfpLayer::AuthConnectV6,
            traffic: ConditionSpec::RemotePort(53),
        },
    );
    specs.push(
        FilterSpec {
            codex_key: Guid { data1: 0x420b026f, data2: 0x9dc9, data3: 0x4aea, data4: 0x88f4_0f2b9feab39a },
            mcp_console_key: Guid { data1: 0x6fe46228, data2: 0x4afa, data3: 0x4d65, data4: 0xafa6_7c1a3b5ae9de },
            codex_name: "codex_wfp_dns_853_v4",
            mcp_console_name: "mcp_console_sandbox_wfp_dns_853_v4",
            description: "Block sandbox-account DNS-over-TLS port 853 v4",
            layer: WfpLayer::AuthConnectV4,
            traffic: ConditionSpec::RemotePort(853),
        },
    );
    specs.push(
        FilterSpec {
            codex_key: Guid { data1: 0x8d917c81, data2: 0x99cc, data3: 0x45e7, data4: 0x84d6_824df860cfb8 },
            mcp_console_key: Guid { data1: 0x6f10f4bd, data2: 0x5640, data3: 0x4f50, data4: 0xb9cf_ebfde4b17ab8 },
            codex_name: "codex_wfp_dns_853_v6",
            mcp_console_name: "mcp_console_sandbox_wfp_dns_853_v6",
            description: "Block sandbox-account DNS-over-TLS port 853 v6",
            layer: WfpLayer::AuthConnectV6,
            traffic: ConditionSpec::RemotePort(853),
        },
    );
    specs.push(
        FilterSpec {
            codex_key: Guid { data1: 0xe1d6e0af, data2: 0xce5f, data3: 0x471b, data4: 0xb2d3_15ca00e966f3 },
            mcp_console_key: Guid { data1: 0x9a14edac, data2: 0x30e9, data3: 0x404a, data4: 0xb52e_9b48aded2442 },
            codex_name: "codex_wfp_smb_445_v4",
            mcp_console_name: "mcp_console_sandbox_wfp_smb_445_v4",
            description: "Block sandbox-account SMB port 445 v4",
            layer: WfpLayer::AuthConnectV4,
            traffic: ConditionSpec::RemotePort(445),
        },
    );
    specs.push(
        FilterSpec {
            codex_key: Guid { data1: 0xc2bceca4, data2: 0x66ef, data3: 0x4a0f, data4: 0xba80_f4f761b8c6f0 },
            mcp_console_key: Guid { data1: 0x9d01857b, data2: 0xb900, data3: 0x4700, data4: 0x91e1_afd5faec1fd2 },
            codex_name: "codex_wfp_smb_445_v6",
            mcp_console_name: "mcp_console_sandbox_wfp_smb_445_v6",
            description: "Block sandbox-account SMB port 445 v6",
            layer: WfpLayer::AuthConnectV6,
            traffic: ConditionSpec::RemotePort(445),
        },
    );
    specs.push(
        FilterSpec {
            codex_key: Guid { data1: 0xba10c618, data2: 0x84e7, data3: 0x4b83, data4: 0x8f74_36e22b2fa1ff },
            mcp_console_key: Guid { data1: 0xba59dc5f, data2: 0x049d, data3: 0x4e56, data4: 0x80d7_a73c9af0775e },
            codex_name: "codex_wfp_smb_139_v4",
            mcp_console_name: "mcp_console_sandbox_wfp_smb_139_v4",
            description: "Block sandbox-account SMB port 139 v4",
            layer: WfpLayer::AuthConnectV4,
            traffic: ConditionSpec::RemotePort(139),
        },
    );
    specs.push(
        FilterSpec {
            codex_key: Guid { data1: 0xfe7f22b8, data2: 0x5cf5, data3: 0x4adb, data4: 0xb2aa_71fc0a8f5d44 },
            mcp_console_key: Guid { data1: 0x08a3b4e2, data2: 0xd4e5, data3: 0x42c1, data4: 0x997d_2ae19d8ca7c7 },
            codex_name: "codex_wfp_smb_139_v6",
            mcp_console_name: "mcp_console_sandbox_wfp_smb_139_v6",
            description: "Block sandbox-account SMB port 139 v6",
            layer: WfpLayer::AuthConnectV6,
            traffic: ConditionSpec::RemotePort(139),
        },
    );
    assert(specs@ =~= filter_table());
    specs
}

/// No filter has the identity of another one, in its own namespace or in the other one.
pub proof fn filter_keys_are_disjoint(
    first: int,
    first_namespace: WindowsSandboxPolicyNamespace,
    second: int,
    second_namespace: WindowsSandboxPolicyNamespace,
)
    requires
        0 <= first < filter_table().len(),
        0 <= second < filter_table().len(),
        first != second || first_namespace != second_namespace,
    ensures
        filter_table()[first].key_in(first_namespace) != filter_table()[second].key_in(second_namespace),
        filter_table()[first].key_in(first_namespace).data4 != filter_table()[second].key_in(second_namespace).data4,
{
}

/// Whether some filter blocks this traffic at this layer.
pub open spec fn is_filtered(layer: WfpLayer, traffic: ConditionSpec) -> bool {
    exists|index: int|
        0 <= index < filter_table().len() && (#[trigger] filter_table()[index]).layer == layer
            && filter_table()[index].traffic == traffic
}

/// The filters block name resolution and file sharing by their ports where connections
/// are made, and control messages where connections are made and where sockets are bound,
/// over both versions of the internet protocol alike, and nothing else.
pub proof fn filters_block_both_protocol_versions_alike(layer: WfpLayer, traffic: ConditionSpec)
    ensures
        is_filtered(layer, traffic) <==> match traffic {
            ConditionSpec::User => false,
            ConditionSpec::Protocol(protocol) => protocol == match layer {
                WfpLayer::AuthConnectV4 => 1u8,
                WfpLayer::ResourceAssignmentV4 => 1u8,
                WfpLayer::AuthConnectV6 => 58u8,
                WfpLayer::ResourceAssignmentV6 => 58u8,
            },
            ConditionSpec::RemotePort(port) => (layer is AuthConnectV4 || layer is AuthConnectV6) && (port == 53
                || port == 853 || port == 445 || port == 139),
        },
{
    let table = filter_table();
    assert(table[0].layer is AuthConnectV4 && table[0].traffic == ConditionSpec::Protocol(1));
    assert(table[1].layer is AuthConnectV6 && table[1].traffic == ConditionSpec::Protocol(58));
    assert(table[2].layer is ResourceAssignmentV4 && table[2].traffic == ConditionSpec::Protocol(1));
    assert(table[3].layer is ResourceAssignmentV6 && table[3].traffic == ConditionSpec::Protocol(58));
    assert(table[4].layer is AuthConnectV4 && table[4].traffic == ConditionSpec::RemotePort(53));
    assert(table[5].layer is AuthConnectV6 && table[5].traffic == ConditionSpec::RemotePort(53));
    assert(table[6].layer is AuthConnectV4 && table[6].traffic == ConditionSpec::RemotePort(853));
    assert(table[7].layer is AuthConnectV6 && table[7].traffic == ConditionSpec::RemotePort(853));
    assert(table[8].layer is AuthConnectV4 && table[8].traffic == ConditionSpec::RemotePort(445));
    assert(table[9].layer is AuthConnectV6 && table[9].traffic == ConditionSpec::RemotePort(445));
    assert(table[10].layer is AuthConnectV4 && table[10].traffic == ConditionSpec::RemotePort(139));
    assert(table[11].layer is AuthConnectV6 && table[11].traffic == ConditionSpec::RemotePort(139));
}

/// Every filter is limited to the confined account and to its own traffic, and bears a
/// name and an identity of its own in each namespace.
pub proof fn filters_bind_the_account(spec: FilterSpec, condition: ConditionSpec)
    ensures
        spec.all_conditions().contains(condition) <==> condition is User || condition == spec.traffic,
        spec.key_in(WindowsSandboxPolicyNamespace::Codex) == spec.codex_key,
        spec.key_in(WindowsSandboxPolicyNamespace::McpConsole) == spec.mcp_console_key,
        spec.name_in(WindowsSandboxPolicyNamespace::Codex) == spec.codex_name@,
        spec.name_in(WindowsSandboxPolicyNamespace::McpConsole) == spec.mcp_console_name@,
{
    assert(spec.all_conditions()[0] == ConditionSpec::User);
    assert(spec.all_conditions()[1] == spec.traffic);
}

} // verus!
