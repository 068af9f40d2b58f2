//! What became of a standalone launch.

use vstd::prelude::*;
use vstd::string::*;

verus! {

/// Root-process result, observed independently from descendant retirement.
#[derive(Debug, PartialEq, Eq)]
pub enum WindowsSandboxStandaloneRootOutcome {
    Exited { code: u32 },
    Unknown { error: String },
}

/// What a [`WindowsSandboxStandaloneRootOutcome`] holds.
pub enum RootOutcomeModel {
    Exited { code: u32 },
    Unknown { error: Seq<char> },
}

impl DeepView for WindowsSandboxStandaloneRootOutcome {
    type V = RootOutcomeModel;

    open spec fn deep_view(&self) -> RootOutcomeModel {
        match self {
            WindowsSandboxStandaloneRootOutcome::Exited { code } => RootOutcomeModel::Exited { code: *code },
            WindowsSandboxStandaloneRootOutcome::Unknown { error } => RootOutcomeModel::Unknown { error: error@ },
        }
    }
}

impl View for WindowsSandboxStandaloneRootOutcome {
    type V = RootOutcomeModel;

    open spec fn view(&self) -> RootOutcomeModel {
        self.deep_view()
    }
}

impl Clone for WindowsSandboxStandaloneRootOutcome {
    fn clone(&self) -> (result: Self)
        ensures
            result@ == self@,
    {
        match self {
            WindowsSandboxStandaloneRootOutcome::Exited { code } => WindowsSandboxStandaloneRootOutcome::Exited {
                code: *code,
            },
            WindowsSandboxStandaloneRootOutcome::Unknown { error } => WindowsSandboxStandaloneRootOutcome::Unknown {
                error: error.clone(),
            },
        }
    }
}

fn clone_text(text: &Option<String>) -> (result: Option<String>)
    ensures
        result.deep_view() == text.deep_view(),
{
    match text {
        Some(text) => Some(text.clone()),
        None => None,
    }
}

/// Full non-breakaway Job Object retirement result.
#[derive(Debug, PartialEq, Eq)]
pub struct WindowsSandboxStandaloneRetirementOutcome {
    pub complete: bool,
    pub forced: bool,
    pub error: Option<String>,
}

/// What a [`WindowsSandboxStandaloneRetirementOutcome`] holds.
pub struct RetirementModel {
    pub complete: bool,
    pub forced: bool,
    pub error: Option<Seq<char>>,
}

impl DeepView for WindowsSandboxStandaloneRetirementOutcome {
    type V = RetirementModel;

    open spec fn deep_view(&self) -> RetirementModel {
        RetirementModel { complete: self.complete, forced: self.forced, error: self.error.deep_view() }
    }
}

impl View for WindowsSandboxStandaloneRetirementOutcome {
    type V = RetirementModel;

    open spec fn view(&self) -> RetirementModel {
        self.deep_view()
    }
}

impl Clone for WindowsSandboxStandaloneRetirementOutcome {
    fn clone(&self) -> (result: Self)
        ensures
            result@ == self@,
    {
        WindowsSandboxStandaloneRetirementOutcome {
            complete: self.complete,
            forced: self.forced,
            error: clone_text(&self.error),
        }
    }
}

/// Final standalone launch result. Infrastructure failure after launch is kept
/// separate from the target and retirement results.
#[derive(Debug, PartialEq, Eq)]
pub struct WindowsSandboxStandaloneOutcome {
    pub target: WindowsSandboxStandaloneRootOutcome,
    pub retirement: WindowsSandboxStandaloneRetirementOutcome,
    pub infrastructure_error: Option<String>,
}

/// What a [`WindowsSandboxStandaloneOutcome`] holds.
pub struct OutcomeModel {
    pub target: RootOutcomeModel,
    pub retirement: RetirementModel,
    pub infrastructure_error: Option<Seq<char>>,
}

impl DeepView for WindowsSandboxStandaloneOutcome {
    type V = OutcomeModel;

    open spec fn deep_view(&self) -> OutcomeModel {
        OutcomeModel {
            target: self.target@,
            retirement: self.retirement@,
            infrastructure_error: self.infrastructure_error.deep_view(),
        }
    }
}

impl View for WindowsSandboxStandaloneOutcome {
    type V = OutcomeModel;

    open spec fn view(&self) -> OutcomeModel {
        self.deep_view()
    }
}

impl Clone for WindowsSandboxStandaloneOutcome {
    fn clone(&self) -> (result: Self)
        ensures
            result@ == self@,
    {
        WindowsSandboxStandaloneOutcome {
            target: self.target.clone(),
            retirement: self.retirement.clone(),
            infrastructure_error: clone_text(&self.infrastructure_error),
        }
    }
}

/// The outcome where the helper could not be followed to the end.
pub open spec fn unobserved(target: RootOutcomeModel, message: Seq<char>) -> OutcomeModel {
    OutcomeModel {
        target,
        retirement: RetirementModel {
            complete: false,
            forced: false,
            error: Some("standalone helper retirement could not be observed"@),
        },
        infrastructure_error: Some(message),
    }
}

/// The outcome where the helper could not be followed to the end, with what is known
/// of the target.
pub fn unobserved_outcome(target: WindowsSandboxStandaloneRootOutcome, message: String) -> (result: WindowsSandboxStandaloneOutcome)
    ensures
        result@ == unobserved(target@, message@),
{
    WindowsSandboxStandaloneOutcome {
        target,
        retirement: WindowsSandboxStandaloneRetirementOutcome {
            complete: false,
            forced: false,
            error: Some("standalone helper retirement could not be observed".to_owned()),
        },
        infrastructure_error: Some(message),
    }
}

/// The outcome of a failed control channel.
pub fn control_failure_outcome(message: &str) -> (result: WindowsSandboxStandaloneOutcome)
    ensures
        result@ == unobserved(RootOutcomeModel::Unknown { error: message@ }, message@),
{
    unobserved_outcome(
        WindowsSandboxStandaloneRootOutcome::Unknown { error: message.to_owned() },
        message.to_owned(),
    )
}

/// An outcome that could not be followed to the end never counts as a complete
/// retirement, keeps what is known of the target, and says what went wrong.
pub proof fn unobserved_outcomes_are_never_complete(target: RootOutcomeModel, message: Seq<char>)
    ensures
        !unobserved(target, message).retirement.complete,
        !unobserved(target, message).retirement.forced,
        unobserved(target, message).retirement.error is Some,
        unobserved(target, message).target == target,
        unobserved(target, message).infrastructure_error == Some(message),
{
}

} // verus!
