//! Closed sets of Windows sandbox identities.

use crate::native::same_text;
use vstd::prelude::*;
use vstd::string::*;

verus! {

pub const CODEX_OFFLINE_USERNAME: &'static str = "CodexSandboxOffline";

pub const CODEX_ONLINE_USERNAME: &'static str = "CodexSandboxOnline";

pub const CODEX_USERS_GROUP: &'static str = "CodexSandboxUsers";

pub const CODEX_READ_ACL_MUTEX_NAME: &'static str = "Local\\CodexSandboxReadAcl";

pub const MCP_CONSOLE_OFFLINE_USERNAME: &'static str = "McpConsoleSbxOffline";

pub const MCP_CONSOLE_ONLINE_USERNAME: &'static str = "McpConsoleSbxOnline";

pub const MCP_CONSOLE_USERS_GROUP: &'static str = "McpConsoleSbxUsers";

pub const MCP_CONSOLE_READ_ACL_MUTEX_NAME: &'static str = "Local\\McpConsoleSandboxReadAcl";

/// Selects one closed set of Windows sandbox identities and machine policy objects.
#[derive(Clone, Copy, Debug, PartialEq, Eq, Structural)]
pub enum WindowsSandboxPolicyNamespace {
    Codex,
    McpConsole,
}

impl Default for WindowsSandboxPolicyNamespace {
    fn default() -> (result: Self)
        ensures
            result == WindowsSandboxPolicyNamespace::Codex,
    {
        WindowsSandboxPolicyNamespace::Codex
    }
}

impl WindowsSandboxPolicyNamespace {
    /// The account that is confined by network filters.
    pub open spec fn offline_text(self) -> Seq<char> {
        match self {
            WindowsSandboxPolicyNamespace::Codex => CODEX_OFFLINE_USERNAME@,
            WindowsSandboxPolicyNamespace::McpConsole => MCP_CONSOLE_OFFLINE_USERNAME@,
        }
    }

    /// The account with ordinary networking.
    pub open spec fn online_text(self) -> Seq<char> {
        match self {
            WindowsSandboxPolicyNamespace::Codex => CODEX_ONLINE_USERNAME@,
            WindowsSandboxPolicyNamespace::McpConsole => MCP_CONSOLE_ONLINE_USERNAME@,
        }
    }

    /// The group of both accounts.
    pub open spec fn group_text(self) -> Seq<char> {
        match self {
            WindowsSandboxPolicyNamespace::Codex => CODEX_USERS_GROUP@,
            WindowsSandboxPolicyNamespace::McpConsole => MCP_CONSOLE_USERS_GROUP@,
        }
    }

    /// The mutex that serializes changes of read permissions.
    pub open spec fn mutex_text(self) -> Seq<char> {
        match self {
            WindowsSandboxPolicyNamespace::Codex => CODEX_READ_ACL_MUTEX_NAME@,
            WindowsSandboxPolicyNamespace::McpConsole => MCP_CONSOLE_READ_ACL_MUTEX_NAME@,
        }
    }

    /// The names of all principals.
    pub open spec fn principals(self) -> Set<Seq<char>> {
        set![self.offline_text(), self.online_text(), self.group_text()]
    }

    pub fn offline_username(self) -> (result: &'static str)
        ensures
            result@ == self.offline_text(),
    {
        match self {
            WindowsSandboxPolicyNamespace::Codex => CODEX_OFFLINE_USERNAME,
            WindowsSandboxPolicyNamespace::McpConsole => MCP_CONSOLE_OFFLINE_USERNAME,
        }
    }

    pub fn online_username(self) -> (result: &'static str)
        ensures
            result@ == self.online_text(),
    {
        match self {
            WindowsSandboxPolicyNamespace::Codex => CODEX_ONLINE_USERNAME,
            WindowsSandboxPolicyNamespace::McpConsole => MCP_CONSOLE_ONLINE_USERNAME,
        }
    }

    pub fn users_group(self) -> (result: &'static str)
        ensures
            result@ == self.group_text(),
    {
        match self {
            WindowsSandboxPolicyNamespace::Codex => CODEX_USERS_GROUP,
            WindowsSandboxPolicyNamespace::McpConsole => MCP_CONSOLE_USERS_GROUP,
        }
    }

    pub fn read_acl_mutex_name(self) -> (result: &'static str)
        ensures
            result@ == self.mutex_text(),
    {
        match self {
            WindowsSandboxPolicyNamespace::Codex => CODEX_READ_ACL_MUTEX_NAME,
            WindowsSandboxPolicyNamespace::McpConsole => MCP_CONSOLE_READ_ACL_MUTEX_NAME,
        }
    }

    /// Whether both accounts are those of this namespace.
    pub fn identities_match(self, offline_username: &str, online_username: &str) -> (result: bool)
        ensures
            result == (offline_username@ == self.offline_text() && online_username@ == self.online_text()),
    {
        same_text(offline_username, self.offline_username()) && same_text(
            online_username,
            self.online_username(),
        )
    }

    pub fn is_codex(&self) -> (result: bool)
        ensures
            result == (*self == WindowsSandboxPolicyNamespace::Codex),
    {
        match self {
            WindowsSandboxPolicyNamespace::Codex => true,
            WindowsSandboxPolicyNamespace::McpConsole => false,
        }
    }
}

/// No principal and no mutex of one namespace belongs to the other one.
pub proof fn namespaces_are_disjoint()
    ensures
        WindowsSandboxPolicyNamespace::Codex.principals().disjoint(
            WindowsSandboxPolicyNamespace::McpConsole.principals(),
        ),
        WindowsSandboxPolicyNamespace::Codex.mutex_text() != WindowsSandboxPolicyNamespace::McpConsole.mutex_text(),
{
    reveal_strlit("CodexSandboxOffline");
    reveal_strlit("CodexSandboxOnline");
    reveal_strlit("CodexSandboxUsers");
    reveal_strlit("McpConsoleSbxOffline");
    reveal_strlit("McpConsoleSbxOnline");
    reveal_strlit("McpConsoleSbxUsers");
    reveal_strlit("Local\\CodexSandboxReadAcl");
    reveal_strlit("Local\\McpConsoleSandboxReadAcl");
    let codex = WindowsSandboxPolicyNamespace::Codex;
    let console = WindowsSandboxPolicyNamespace::McpConsole;
    assert forall|name: Seq<char>| codex.principals().contains(name) implies !console.principals().contains(name) by {
        assert(name[0] == 'C');
    }
    assert(codex.mutex_text()[6] == 'C');
    assert(console.mutex_text()[6] == 'M');
}

/// Accounts match at most one namespace.
pub proof fn identities_match_one_namespace(offline: Seq<char>, online: Seq<char>)
    ensures
        !(offline == WindowsSandboxPolicyNamespace::Codex.offline_text() && online
            == WindowsSandboxPolicyNamespace::Codex.online_text() && offline
            == WindowsSandboxPolicyNamespace::McpConsole.offline_text() && online
            == WindowsSandboxPolicyNamespace::McpConsole.online_text()),
{
    reveal_strlit("CodexSandboxOffline");
    reveal_strlit("McpConsoleSbxOffline");
    assert(WindowsSandboxPolicyNamespace::Codex.offline_text()[0] == 'C');
    assert(WindowsSandboxPolicyNamespace::McpConsole.offline_text()[0] == 'M');
}

/// Each namespace has its own pair of accounts, one group of both and one mutex; the
/// offline account is never the online one.
pub proof fn accounts_of_a_namespace_differ(namespace: WindowsSandboxPolicyNamespace)
    ensures
        namespace.offline_text() != namespace.online_text(),
        namespace.offline_text() != namespace.group_text(),
        namespace.online_text() != namespace.group_text(),
        namespace is Codex ==> {
            &&& namespace.offline_text() == "CodexSandboxOffline"@
            &&& namespace.online_text() == "CodexSandboxOnline"@
            &&& namespace.group_text() == "CodexSandboxUsers"@
            &&& namespace.mutex_text() == "Local\\CodexSandboxReadAcl"@
        },
        namespace is McpConsole ==> {
            &&& namespace.offline_text() == "McpConsoleSbxOffline"@
            &&& namespace.online_text() == "McpConsoleSbxOnline"@
            &&& namespace.group_text() == "McpConsoleSbxUsers"@
            &&& namespace.mutex_text() == "Local\\McpConsoleSandboxReadAcl"@
        },
{
    reveal_strlit("CodexSandboxOffline");
    reveal_strlit("CodexSandboxOnline");
    reveal_strlit("CodexSandboxUsers");
    reveal_strlit("McpConsoleSbxOffline");
    reveal_strlit("McpConsoleSbxOnline");
    reveal_strlit("McpConsoleSbxUsers");
    assert(namespace.offline_text()[namespace.offline_text().len() - 2] == 'n');
    assert(namespace.online_text()[namespace.online_text().len() - 2] == 'n');
    assert(namespace.offline_text().len() == namespace.online_text().len() + 1);
    assert(namespace.group_text()[namespace.group_text().len() - 2] == 'r');
}

} // verus!
