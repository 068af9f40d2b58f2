//! Machine-wide mutexes that serialize policy changes.

use crate::text::{concat2, decimal_string, prefixed_hex_string};
use crate::windows::failure::{Failure, FailureModel};
use vstd::prelude::*;
use vstd::string::*;

verus! {

pub const MCP_CONSOLE_SANDBOX_POLICY_MUTEX_NAME: &'static str = "Global\\McpConsoleSandboxPolicyGenerationV1";

pub const EMBEDDING_ACL_MUTEX_NAME: &'static str = "Local\\CodexSandboxEmbeddingAclV1";

/// The host's answers to a wait.
pub const WAIT_OBJECT_0: u32 = 0;

pub const WAIT_ABANDONED: u32 = 0x80;

pub const WAIT_TIMEOUT: u32 = 0x102;

pub const WAIT_FAILED: u32 = 0xffff_ffff;

/// What to do with the mutex of the policy lease.
#[derive(Debug)]
pub enum LeaseAttempt {
    /// The lease is held: keep the mutex until the lease is released.
    Held,
    /// The mutex is owned, but its last owner died with it: retire the setup job that it
    /// may have left before anything else.
    RetireAbandonedJob,
    /// Give the mutex back, where it is owned, and close it.
    Refused { failure: Failure, owned: bool },
}

/// What a [`LeaseAttempt`] holds.
pub enum LeaseAttemptModel {
    Held,
    RetireAbandonedJob,
    Refused { failure: FailureModel, owned: bool },
}

impl DeepView for LeaseAttempt {
    type V = LeaseAttemptModel;

    open spec fn deep_view(&self) -> LeaseAttemptModel {
        match self {
            LeaseAttempt::Held => LeaseAttemptModel::Held,
            LeaseAttempt::RetireAbandonedJob => LeaseAttemptModel::RetireAbandonedJob,
            LeaseAttempt::Refused { failure, owned } => LeaseAttemptModel::Refused {
                failure: failure@,
                owned: *owned,
            },
        }
    }
}

impl View for LeaseAttempt {
    type V = LeaseAttemptModel;

    open spec fn view(&self) -> LeaseAttemptModel {
        self.deep_view()
    }
}

/// What a wait of no time for the policy mutex means for the lease.
pub open spec fn lease_attempt(waited: u32, last_error: u32) -> LeaseAttemptModel {
    if waited == WAIT_OBJECT_0 {
        LeaseAttemptModel::Held
    } else if waited == WAIT_ABANDONED {
        LeaseAttemptModel::RetireAbandonedJob
    } else {
        LeaseAttemptModel::Refused {
            failure: FailureModel::plain(
                if waited == WAIT_TIMEOUT {
                    "another Windows sandbox policy generation is active"@
                } else if waited == WAIT_FAILED {
                    "wait for global Windows sandbox policy mutex: "@ + crate::text::decimal(last_error as nat)
                } else {
                    "unexpected global Windows sandbox policy mutex wait result: "@ + crate::text::prefixed_hex(
                        waited as nat,
                    )
                },
            ),
            owned: false,
        }
    }
}

/// Decides by a wait of no time whether the policy lease is held. An abandoned mutex is
/// owned, but not yet the lease: the setup helpers of its last owner may still be at work.
pub fn acquire_mcp_console_sandbox_policy_lease(waited: u32, last_error: u32) -> (result: LeaseAttempt)
    ensures
        result@ == lease_attempt(waited, last_error),
{
    if waited == WAIT_OBJECT_0 {
        LeaseAttempt::Held
    } else if waited == WAIT_ABANDONED {
        LeaseAttempt::RetireAbandonedJob
    } else if waited == WAIT_TIMEOUT {
        LeaseAttempt::Refused {
            failure: Failure::new("another Windows sandbox policy generation is active"),
            owned: false,
        }
    } else if waited == WAIT_FAILED {
        let code = decimal_string(last_error as u64);
        let message = concat2("wait for global Windows sandbox policy mutex: ", code.as_str());
        LeaseAttempt::Refused { failure: Failure::new(message.as_str()), owned: false }
    } else {
        let code = prefixed_hex_string(waited as u64);
        let message = concat2("unexpected global Windows sandbox policy mutex wait result: ", code.as_str());
        LeaseAttempt::Refused { failure: Failure::new(message.as_str()), owned: false }
    }
}

/// What an abandoned mutex becomes once the retirement of the setup job is over.
pub open spec fn attempt_after_retirement(outcome: Result<(), Failure>) -> LeaseAttemptModel {
    match outcome {
        Ok(_) => LeaseAttemptModel::Held,
        Err(cause) => LeaseAttemptModel::Refused { failure: cause@, owned: true },
    }
}

/// Decides whether an abandoned mutex becomes the lease once the retirement of the setup
/// job is over. Where it failed the mutex is given back, and the failure is the answer.
pub fn after_abandoned_retirement(outcome: Result<(), Failure>) -> (result: LeaseAttempt)
    ensures
        result@ == attempt_after_retirement(outcome),
{
    match outcome {
        Ok(_) => LeaseAttempt::Held,
        Err(failure) => LeaseAttempt::Refused { failure, owned: true },
    }
}

/// The failure of a policy mutex that could not be created.
pub fn policy_mutex_failure(last_error: u32) -> (result: Failure)
    ensures
        result@ == FailureModel::plain(
            "create global Windows sandbox policy mutex: "@ + crate::text::decimal(last_error as nat),
        ),
{
    let code = decimal_string(last_error as u64);
    let message = concat2("create global Windows sandbox policy mutex: ", code.as_str());
    Failure::new(message.as_str())
}

/// Why the mutex of the embedding ACLs is not held, if it is not. An abandoned one is
/// held as well: its ACL changes undo themselves.
pub open spec fn mutation_lock_failure(waited: u32, last_error: u32) -> Option<Seq<char>> {
    if waited == WAIT_OBJECT_0 || waited == WAIT_ABANDONED {
        None
    } else if waited == WAIT_FAILED {
        Some("WaitForSingleObject failed: "@ + crate::text::decimal(last_error as nat))
    } else {
        Some("WaitForSingleObject returned unexpected result: "@ + crate::text::decimal(waited as nat))
    }
}

/// Decides by a wait whether the mutex of the embedding ACLs is held.
pub fn lock_embedding_acl_mutations(waited: u32, last_error: u32) -> (result: Result<(), Failure>)
    ensures
        match mutation_lock_failure(waited, last_error) {
            None => result is Ok,
            Some(expected) => result matches Err(failure) && failure@ == FailureModel::plain(expected),
        },
{
    if waited == WAIT_OBJECT_0 || waited == WAIT_ABANDONED {
        return Ok(());
    }
    if waited == WAIT_FAILED {
        let code = decimal_string(last_error as u64);
        let message = concat2("WaitForSingleObject failed: ", code.as_str());
        return Err(Failure::new(message.as_str()));
    }
    let code = decimal_string(waited as u64);
    let message = concat2("WaitForSingleObject returned unexpected result: ", code.as_str());
    Err(Failure::new(message.as_str()))
}

/// The policy lease is held at once after a clean wait only; after any other but that of
/// an abandoned mutex it is refused, and nothing is owned.
pub proof fn policy_lease_needs_a_clean_wait(waited: u32, last_error: u32)
    ensures
        lease_attempt(waited, last_error) is Held <==> waited == WAIT_OBJECT_0,
        lease_attempt(waited, last_error) is RetireAbandonedJob <==> waited == WAIT_ABANDONED,
        lease_attempt(waited, last_error) matches LeaseAttemptModel::Refused { failure, owned } ==> !owned,
{
}

/// An abandoned mutex becomes the lease exactly where the retirement of the job that its
/// last owner left succeeded, and is given back where it did not.
pub proof fn abandoned_leases_wait_for_the_old_helpers(outcome: Result<(), Failure>)
    ensures
        attempt_after_retirement(outcome) is Held <==> outcome is Ok,
        !(attempt_after_retirement(outcome) is RetireAbandonedJob),
        outcome matches Err(cause) ==> (attempt_after_retirement(outcome) matches LeaseAttemptModel::Refused {
            failure,
            owned,
        } && owned && failure == cause@),
{
}

/// By the host's answer to a wait, the mutex of the embedding ACLs is held where it was
/// free or abandoned, and the policy lease at once only where it was free.
pub proof fn mutexes_are_held_after_their_waits(waited: u32, last_error: u32)
    ensures
        mutation_lock_failure(waited, last_error) is None <==> waited == 0 || waited == 0x80,
        lease_attempt(waited, last_error) is Held <==> waited == 0,
        lease_attempt(waited, last_error) is RetireAbandonedJob <==> waited == 0x80,
        lease_attempt(waited, last_error) is Refused <==> waited != 0 && waited != 0x80,
        waited == 0x102 ==> lease_attempt(waited, last_error)->Refused_failure.message
            == "another Windows sandbox policy generation is active"@,
{
}

} // verus!
