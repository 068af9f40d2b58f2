//! Who may open the helper process.

use crate::text::{concat2, decimal_string};
use crate::windows::failure::{Failure, FailureModel};
use vstd::prelude::*;
use vstd::string::*;

verus! {

pub const ERROR_SUCCESS: u32 = 0;

/// The identities that may open the helper process, in their binary form.
#[derive(Debug)]
pub struct HelperProcessSecurity {
    pub runner_sid: Vec<u8>,
    pub system_sid: Vec<u8>,
}

fn same_sid(left: &Vec<u8>, right: &Vec<u8>) -> (result: bool)
    ensures
        result == (left@ == right@),
{
    if left.len() != right.len() {
        return false;
    }
    for index in 0..left.len()
        invariant
            left.len() == right.len(),
            forall|i: int| 0 <= i < index ==> left@[i] == right@[i],
    {
        if left[index] != right[index] {
            return false;
        }
    }
    assert(left@ =~= right@);
    true
}

impl HelperProcessSecurity {
    /// Whether the identities are prepared, or refused where the helper would run as the
    /// runner itself.
    pub open spec fn is_prepared(
        runner_sid: Seq<u8>,
        sandbox_sid: Seq<u8>,
        system_sid: Seq<u8>,
        prepared: Result<HelperProcessSecurity, Failure>,
    ) -> bool {
        if runner_sid == sandbox_sid {
            prepared matches Err(failure) && failure@ == FailureModel::plain(
                "standalone helper must use an identity distinct from the runner"@,
            )
        } else {
            prepared matches Ok(security) && security.runner_sid@ == runner_sid && security.system_sid@ == system_sid
        }
    }

    /// Prepares the identities. The helper must not run as the runner itself.
    pub fn prepare(runner_sid: Vec<u8>, sandbox_sid: &Vec<u8>, system_sid: Vec<u8>) -> (result: Result<Self, Failure>)
        ensures
            Self::is_prepared(runner_sid@, sandbox_sid@, system_sid@, result),
    {
        if same_sid(&runner_sid, sandbox_sid) {
            return Err(Failure::new("standalone helper must use an identity distinct from the runner"));
        }
        Ok(HelperProcessSecurity { runner_sid, system_sid })
    }

    /// The identities with full access to the helper: the runner, and the system unless
    /// it is the runner. Nobody else has any.
    pub open spec fn trustee_sids(self) -> Seq<Seq<u8>> {
        if self.runner_sid@ == self.system_sid@ {
            seq![self.runner_sid@]
        } else {
            seq![self.runner_sid@, self.system_sid@]
        }
    }

    /// The identities with full access to the helper.
    pub fn trustees(&self) -> (result: Vec<Vec<u8>>)
        ensures
            result.deep_view() == self.trustee_sids(),
    {
        let runner = self.runner_sid.clone();
        let system = self.system_sid.clone();
        assert(runner@ =~= self.runner_sid@);
        assert(system@ =~= self.system_sid@);
        assert(runner.deep_view() =~= self.runner_sid@);
        assert(system.deep_view() =~= self.system_sid@);
        let mut trustees: Vec<Vec<u8>> = Vec::new();
        trustees.push(runner);
        if !same_sid(&self.runner_sid, &self.system_sid) {
            trustees.push(system);
        }
        assert(trustees.deep_view() =~= self.trustee_sids());
        trustees
    }
}

/// Why the list of access rights was not built, if it was not.
pub open spec fn acl_failure(code: u32, built: bool) -> Option<Seq<char>> {
    if code != ERROR_SUCCESS {
        Some("SetEntriesInAclW failed for standalone helper: "@ + crate::text::decimal(code as nat))
    } else if !built {
        Some("SetEntriesInAclW returned no standalone helper DACL"@)
    } else {
        None
    }
}

/// Checks that the list of access rights was built.
pub fn require_acl(code: u32, built: bool) -> (result: Result<(), Failure>)
    ensures
        match acl_failure(code, built) {
            Some(expected) => result matches Err(failure) && failure@ == FailureModel::plain(expected),
            None => result is Ok,
        },
{
    if code != ERROR_SUCCESS {
        let digits = decimal_string(code as u64);
        let message = concat2("SetEntriesInAclW failed for standalone helper: ", digits.as_str());
        return Err(Failure::new(message.as_str()));
    }
    if !built {
        return Err(Failure::new("SetEntriesInAclW returned no standalone helper DACL"));
    }
    Ok(())
}

/// Checks that the list of access rights was applied to the helper.
pub fn require_security_applied(code: u32) -> (result: Result<(), Failure>)
    ensures
        if code == ERROR_SUCCESS {
            result is Ok
        } else {
            result matches Err(failure) && failure@ == FailureModel::plain(
                "SetSecurityInfo failed for standalone helper: "@ + crate::text::decimal(code as nat),
            )
        },
{
    if code != ERROR_SUCCESS {
        let digits = decimal_string(code as u64);
        let message = concat2("SetSecurityInfo failed for standalone helper: ", digits.as_str());
        return Err(Failure::new(message.as_str()));
    }
    Ok(())
}

/// A step of reading the identity behind a token.
#[derive(Clone, Copy, Debug, PartialEq, Eq, Structural)]
pub enum TokenUserStep {
    QuerySize,
    QueryUser,
    MeasureSid,
    CopySid,
}

/// The failure of a step of reading the identity behind a token.
pub open spec fn token_user_message(step: TokenUserStep, error: u32) -> Seq<char> {
    (match step {
        TokenUserStep::QuerySize => "GetTokenInformation(TokenUser) size query failed: "@,
        TokenUserStep::QueryUser => "GetTokenInformation(TokenUser) failed: "@,
        TokenUserStep::MeasureSid => "GetLengthSid(TokenUser) failed: "@,
        TokenUserStep::CopySid => "CopySid(TokenUser) failed: "@,
    }) + crate::text::decimal(error as nat)
}

/// The failure of a step of reading the identity behind a token, with the host's error.
pub fn token_user_failure(step: TokenUserStep, error: u32) -> (result: Failure)
    ensures
        result@ == FailureModel::plain(token_user_message(step, error)),
{
    let digits = decimal_string(error as u64);
    let lead = match step {
        TokenUserStep::QuerySize => "GetTokenInformation(TokenUser) size query failed: ",
        TokenUserStep::QueryUser => "GetTokenInformation(TokenUser) failed: ",
        TokenUserStep::MeasureSid => "GetLengthSid(TokenUser) failed: ",
        TokenUserStep::CopySid => "CopySid(TokenUser) failed: ",
    };
    let message = concat2(lead, digits.as_str());
    Failure::new(message.as_str())
}

/// Only the runner and the system ever have access to the helper.
pub proof fn only_runner_and_system_open_the_helper(security: HelperProcessSecurity, index: int)
    requires
        0 <= index < security.trustee_sids().len(),
    ensures
        security.trustee_sids()[index] == security.runner_sid@ || security.trustee_sids()[index]
            == security.system_sid@,
        security.trustee_sids().contains(security.runner_sid@),
{
    assert(security.trustee_sids()[0] == security.runner_sid@);
}

/// A helper is secured exactly where it runs as another account than the runner, and then
/// the runner and the system, and nobody else, may open it.
pub proof fn helpers_are_opened_by_runner_and_system(
    runner_sid: Seq<u8>,
    sandbox_sid: Seq<u8>,
    system_sid: Seq<u8>,
    prepared: Result<HelperProcessSecurity, Failure>,
    sid: Seq<u8>,
)
    requires
        HelperProcessSecurity::is_prepared(runner_sid, sandbox_sid, system_sid, prepared),
    ensures
        prepared is Ok <==> runner_sid != sandbox_sid,
        prepared matches Ok(security) ==> (security.trustee_sids().contains(sid) <==> sid == runner_sid || sid
            == system_sid),
{
    if prepared is Ok {
        let trustees = prepared->Ok_0.trustee_sids();
        assert(trustees[0] == runner_sid);
        if runner_sid != system_sid {
            assert(trustees[1] == system_sid);
        }
    }
}

/// A list of access rights counts as built only where the host succeeded and gave one.
pub proof fn lists_are_built_by_the_host(code: u32, built: bool)
    ensures
        acl_failure(code, built) is None <==> code == 0 && built,
{
}

} // verus!
