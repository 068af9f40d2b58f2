//! What an embedded session is confined by.

use crate::model;
use crate::windows::failure::{Failure, FailureModel};
use vstd::prelude::*;
use vstd::string::*;

verus! {

/// Why a session cannot be embedded, if it cannot.
pub open spec fn session_refusal(network_block: bool, full_read_access: bool) -> Option<FailureModel> {
    if network_block {
        Some(FailureModel::plain("network restriction is unavailable for embedding sessions"@))
    } else if !full_read_access {
        Some(
            FailureModel::plain("restricted read access requires the elevated Windows sandbox backend"@),
        )
    } else {
        None
    }
}

/// Checks that a session can be embedded: a restricted token confines writing only.
pub fn require_enforceable_session(network_block: bool, full_read_access: bool) -> (result: Result<(), Failure>)
    ensures
        match session_refusal(network_block, full_read_access) {
            Some(expected) => result matches Err(failure) && failure@ == expected,
            None => result is Ok,
        },
{
    if network_block {
        return Err(Failure::new("network restriction is unavailable for embedding sessions"));
    }
    if !full_read_access {
        return Err(
            Failure::new("restricted read access requires the elevated Windows sandbox backend"),
        );
    }
    Ok(())
}

/// An operation of the launch of an embedded session.
#[derive(Clone, Copy, Debug, PartialEq, Eq, Structural)]
pub enum SessionStage {
    ResolvePermissions,
    CreateStateDirectory,
    /// Create the session's own state below the state directory.
    CreateSessionState,
    /// Create the capabilities and the restricted token.
    PrepareSecurity,
    ApplyAclRules,
    SpawnProcess,
}

/// What came of an operation of the launch.
#[derive(Debug)]
pub enum SessionEvent {
    /// What the permissions ask for.
    Permissions { network_block: bool, full_read_access: bool },
    Succeeded,
    Failed(Failure),
}

/// What a [`SessionEvent`] holds.
pub enum SessionEventModel {
    Permissions { network_block: bool, full_read_access: bool },
    Succeeded,
    Failed(FailureModel),
}

impl DeepView for SessionEvent {
    type V = SessionEventModel;

    open spec fn deep_view(&self) -> SessionEventModel {
        match self {
            SessionEvent::Permissions { network_block, full_read_access } => SessionEventModel::Permissions {
                network_block: *network_block,
                full_read_access: *full_read_access,
            },
            SessionEvent::Succeeded => SessionEventModel::Succeeded,
            SessionEvent::Failed(failure) => SessionEventModel::Failed(failure@),
        }
    }
}

impl View for SessionEvent {
    type V = SessionEventModel;

    open spec fn view(&self) -> SessionEventModel {
        self.deep_view()
    }
}

/// How the launch goes on.
#[derive(Debug)]
pub enum SessionStep {
    Perform(SessionStage),
    /// The process was created; its streams and its end are served from now on.
    Launched,
    /// The launch is over. The token is closed where there is one already.
    Refused { failure: Failure, close_token: bool },
}

/// What a [`SessionStep`] holds.
pub enum SessionStepModel {
    Perform(SessionStage),
    Launched,
    Refused { failure: FailureModel, close_token: bool },
}

impl DeepView for SessionStep {
    type V = SessionStepModel;

    open spec fn deep_view(&self) -> SessionStepModel {
        match self {
            SessionStep::Perform(stage) => SessionStepModel::Perform(*stage),
            SessionStep::Launched => SessionStepModel::Launched,
            SessionStep::Refused { failure, close_token } => SessionStepModel::Refused {
                failure: failure@,
                close_token: *close_token,
            },
        }
    }
}

impl View for SessionStep {
    type V = SessionStepModel;

    open spec fn view(&self) -> SessionStepModel {
        self.deep_view()
    }
}

impl SessionStage {
    /// Whether an event can follow the operation: permissions are found by resolving
    /// them, and any other operation succeeds or fails.
    pub open spec fn expects(self, event: SessionEventModel) -> bool {
        if self == SessionStage::ResolvePermissions {
            event is Permissions || event is Failed
        } else {
            event is Succeeded || event is Failed
        }
    }

    /// Whether there is a token once the operation was started.
    pub open spec fn has_token(self) -> bool {
        self == SessionStage::ApplyAclRules || self == SessionStage::SpawnProcess
    }
}

/// How the launch goes on after an operation.
pub open spec fn after_launching(stage: SessionStage, event: SessionEventModel) -> SessionStepModel {
    match event {
        SessionEventModel::Failed(failure) => SessionStepModel::Refused { failure, close_token: stage.has_token() },
        SessionEventModel::Permissions { network_block, full_read_access } => match session_refusal(
            network_block,
            full_read_access,
        ) {
            Some(failure) => SessionStepModel::Refused { failure, close_token: false },
            None => SessionStepModel::Perform(SessionStage::CreateStateDirectory),
        },
        SessionEventModel::Succeeded => match stage {
            SessionStage::CreateStateDirectory => SessionStepModel::Perform(SessionStage::CreateSessionState),
            SessionStage::CreateSessionState => SessionStepModel::Perform(SessionStage::PrepareSecurity),
            SessionStage::PrepareSecurity => SessionStepModel::Perform(SessionStage::ApplyAclRules),
            SessionStage::ApplyAclRules => SessionStepModel::Perform(SessionStage::SpawnProcess),
            _ => SessionStepModel::Launched,
        },
    }
}

/// Launches a session that is confined by a restricted token: decides how the launch
/// goes on after an operation. It starts by resolving the permissions.
pub fn spawn_windows_sandbox_session_for_embedding(stage: SessionStage, event: SessionEvent) -> (result: SessionStep)
    requires
        stage.expects(event@),
    ensures
        result@ == after_launching(stage, event@),
{
    match event {
        SessionEvent::Failed(failure) => SessionStep::Refused {
            failure,
            close_token: stage == SessionStage::ApplyAclRules || stage == SessionStage::SpawnProcess,
        },
        SessionEvent::Permissions { network_block, full_read_access } => match require_enforceable_session(
            network_block,
            full_read_access,
        ) {
            Err(failure) => SessionStep::Refused { failure, close_token: false },
            Ok(_) => SessionStep::Perform(SessionStage::CreateStateDirectory),
        },
        SessionEvent::Succeeded => match stage {
            SessionStage::CreateStateDirectory => SessionStep::Perform(SessionStage::CreateSessionState),
            SessionStage::CreateSessionState => SessionStep::Perform(SessionStage::PrepareSecurity),
            SessionStage::PrepareSecurity => SessionStep::Perform(SessionStage::ApplyAclRules),
            SessionStage::ApplyAclRules => SessionStep::Perform(SessionStage::SpawnProcess),
            _ => SessionStep::Launched,
        },
    }
}

/// Nothing is created for permissions that a restricted token cannot enforce, no process
/// is created before the access rules are applied, and no failed launch keeps a token.
pub proof fn sessions_start_confined(stage: SessionStage, event: SessionEventModel)
    requires
        stage.expects(event),
    ensures
        after_launching(stage, event) == SessionStepModel::Perform(SessionStage::CreateStateDirectory) ==> event == (
        SessionEventModel::Permissions { network_block: false, full_read_access: true }),
        after_launching(stage, event) == SessionStepModel::Perform(SessionStage::SpawnProcess) ==> stage
            == SessionStage::ApplyAclRules && event is Succeeded,
        after_launching(stage, event) is Launched ==> stage == SessionStage::SpawnProcess && event is Succeeded,
        after_launching(stage, event) is Refused ==> after_launching(stage, event)->close_token == stage.has_token(),
{
}

/// The capabilities of a session.
#[derive(Debug)]
pub enum SessionCapabilities {
    /// The one read-only capability.
    ReadOnly(String),
    /// One capability for each writable root.
    WriteRoots(Vec<String>),
}

/// What a [`SessionCapabilities`] holds.
pub enum CapabilitiesModel {
    ReadOnly(Seq<char>),
    WriteRoots(Seq<Seq<char>>),
}

impl DeepView for SessionCapabilities {
    type V = CapabilitiesModel;

    open spec fn deep_view(&self) -> CapabilitiesModel {
        match self {
            SessionCapabilities::ReadOnly(sid) => CapabilitiesModel::ReadOnly(sid@),
            SessionCapabilities::WriteRoots(sids) => CapabilitiesModel::WriteRoots(sids.deep_view()),
        }
    }
}

impl View for SessionCapabilities {
    type V = CapabilitiesModel;

    open spec fn view(&self) -> CapabilitiesModel {
        self.deep_view()
    }
}

impl CapabilitiesModel {
    /// The capabilities as a list.
    pub open spec fn sids(self) -> Seq<Seq<char>> {
        match self {
            CapabilitiesModel::ReadOnly(sid) => seq![sid],
            CapabilitiesModel::WriteRoots(sids) => sids,
        }
    }
}

/// The lists of a restricted token.
#[derive(Debug)]
pub struct TokenLists {
    /// The restricting identities: what the token may write must be granted to one.
    pub restricting: Vec<String>,
    /// The identities that may use what the process creates.
    pub default_dacl: Vec<String>,
}

fn push_all(list: &mut Vec<String>, sids: &Vec<String>)
    ensures
        final(list).deep_view() == old(list).deep_view() + sids.deep_view(),
{
    let ghost start = list.deep_view();
    let ghost added = sids.deep_view();
    assert(start + added.take(0) =~= start);
    for index in 0..sids.len()
        invariant
            added == sids.deep_view(),
            list.deep_view() == start + added.take(index as int),
    {
        let ghost before = *list;
        let sid = sids[index].clone();
        list.push(sid);
        proof {
            model::lemma_deep_push(before, *list, sid);
            model::lemma_take_push(added, index as int);
            assert(added[index as int] == sids@[index as int]@);
            assert(list.deep_view() =~= start + added.take(index + 1));
        }
    }
    proof {
        model::lemma_take_all(added);
    }
}

/// Whether these are the lists of a token that is restricted to some capabilities.
pub open spec fn are_lists_of(
    lists: TokenLists,
    capability_sids: Seq<Seq<char>>,
    logon_sid: Seq<char>,
    everyone_sid: Seq<char>,
) -> bool {
    &&& lists.restricting.deep_view() == capability_sids
    &&& lists.default_dacl.deep_view() == seq![logon_sid, everyone_sid] + capability_sids
}

/// The lists of a token that is restricted to some capabilities. The logon session and
/// everyone stay in the default list, so objects that the child creates pass the normal
/// check; they are kept out of the restricting list, so what the host grants to either
/// does not widen the writable roots.
pub fn create_embedding_token_with_caps_from(capability_sids: &Vec<String>, logon_sid: &str, everyone_sid: &str) -> (result: Result<
    TokenLists,
    Failure,
>)
    ensures
        if capability_sids.deep_view().len() == 0 {
            result matches Err(failure) && failure@ == FailureModel::plain("no capability SIDs provided"@)
        } else {
            result matches Ok(lists) && are_lists_of(lists, capability_sids.deep_view(), logon_sid@, everyone_sid@)
        },
{
    if capability_sids.len() == 0 {
        return Err(Failure::new("no capability SIDs provided"));
    }
    let mut restricting: Vec<String> = Vec::new();
    push_all(&mut restricting, capability_sids);
    assert(restricting.deep_view() =~= capability_sids.deep_view());
    let mut default_dacl: Vec<String> = Vec::new();
    default_dacl.push(logon_sid.to_owned());
    default_dacl.push(everyone_sid.to_owned());
    assert(default_dacl.deep_view() =~= seq![logon_sid@, everyone_sid@]);
    push_all(&mut default_dacl, capability_sids);
    Ok(TokenLists { restricting, default_dacl })
}

/// The lists of the token that confines a session: with one capability for each writable
/// root, of which there must be some, or with the read-only one.
pub fn prepare_embedding_session_security(
    capabilities: SessionCapabilities,
    logon_sid: &str,
    everyone_sid: &str,
) -> (result: Result<TokenLists, Failure>)
    ensures
        if capabilities@ == CapabilitiesModel::WriteRoots(Seq::empty()) {
            result matches Err(failure) && failure@ == FailureModel::plain(
                "workspace-write sandbox has no writable root capability SIDs"@,
            )
        } else {
            result matches Ok(lists) && are_lists_of(lists, capabilities@.sids(), logon_sid@, everyone_sid@)
        },
{
    let sids = match capabilities {
        SessionCapabilities::ReadOnly(sid) => {
            let mut sids: Vec<String> = Vec::new();
            sids.push(sid);
            assert(sids.deep_view() =~= seq![sid@]);
            sids
        },
        SessionCapabilities::WriteRoots(root_sids) => {
            if root_sids.len() == 0 {
                assert(root_sids.deep_view() =~= Seq::empty());
                return Err(Failure::new("workspace-write sandbox has no writable root capability SIDs"));
            }
            root_sids
        },
    };
    create_embedding_token_with_caps_from(&sids, logon_sid, everyone_sid)
}

/// A token is restricted to its capabilities alone: neither the logon session nor everyone
/// restricts it, though both may use what the process creates.
pub proof fn tokens_are_restricted_to_their_capabilities(
    lists: TokenLists,
    capabilities: CapabilitiesModel,
    logon_sid: Seq<char>,
    everyone_sid: Seq<char>,
    sid: Seq<char>,
)
    requires
        are_lists_of(lists, capabilities.sids(), logon_sid, everyone_sid),
    ensures
        lists.restricting.deep_view().contains(sid) <==> match capabilities {
            CapabilitiesModel::ReadOnly(only) => sid == only,
            CapabilitiesModel::WriteRoots(sids) => sids.contains(sid),
        },
        lists.default_dacl.deep_view().contains(sid) <==> sid == logon_sid || sid == everyone_sid
            || lists.restricting.deep_view().contains(sid),
{
    let own = capabilities.sids();
    let whole = seq![logon_sid, everyone_sid] + own;
    if capabilities is ReadOnly {
        assert(own[0] == capabilities->ReadOnly_0);
    }
    assert(whole[0] == logon_sid && whole[1] == everyone_sid);
    if own.contains(sid) {
        let index = choose|index: int| 0 <= index < own.len() && own[index] == sid;
        assert(whole[2 + index] == sid);
    }
    if whole.contains(sid) {
        let index = choose|index: int| 0 <= index < whole.len() && whole[index] == sid;
        if index >= 2 {
            assert(own[index - 2] == sid);
        }
    }
}

/// A session is embedded exactly where the host's network stays open and everything may be
/// read; its launch passes its operations in one order and ends with the first failure.
pub proof fn sessions_pass_their_operations_in_order(stage: SessionStage, event: SessionEventModel)
    requires
        stage.expects(event),
    ensures
        ({
            let step = after_launching(stage, event);
            let refused = match event {
                SessionEventModel::Permissions { network_block, full_read_access } => network_block
                    || !full_read_access,
                SessionEventModel::Succeeded => false,
                SessionEventModel::Failed(_) => true,
            };
            &&& step is Refused <==> refused
            &&& step is Refused ==> (step->close_token <==> stage is ApplyAclRules || stage is SpawnProcess)
            &&& event matches SessionEventModel::Failed(failure) ==> step->Refused_failure == failure
            &&& !refused ==> match stage {
                SessionStage::ResolvePermissions => step == SessionStepModel::Perform(
                    SessionStage::CreateStateDirectory,
                ),
                SessionStage::CreateStateDirectory => step == SessionStepModel::Perform(
                    SessionStage::CreateSessionState,
                ),
                SessionStage::CreateSessionState => step == SessionStepModel::Perform(SessionStage::PrepareSecurity),
                SessionStage::PrepareSecurity => step == SessionStepModel::Perform(SessionStage::ApplyAclRules),
                SessionStage::ApplyAclRules => step == SessionStepModel::Perform(SessionStage::SpawnProcess),
                SessionStage::SpawnProcess => step is Launched,
            }
        }),
{
}

} // verus!
