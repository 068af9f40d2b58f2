//! The order of the operations that bring a standalone setup up to date.

use crate::native::{NativeString, NativeText};
use crate::text::concat2;
use crate::windows::failure::{Failure, FailureModel};
use crate::windows::standalone::setup::{
    validate_setup_request, PathProbes, SetupRequestModel, SetupStateModel, WindowsSandboxStandaloneSetupOperation,
    WindowsSandboxStandaloneSetupRequest, WindowsSandboxStandaloneSetupState,
};
use vstd::prelude::*;
use vstd::string::*;

verus! {

/// What came of an operation that the host was asked to perform.
#[derive(Debug)]
pub enum HostEvent {
    Succeeded,
    Failed(Failure),
    /// The setup state that an inspection found.
    Inspected(WindowsSandboxStandaloneSetupState),
}

/// What a [`HostEvent`] holds.
pub enum EventModel {
    Succeeded,
    Failed(FailureModel),
    Inspected(SetupStateModel),
}

impl DeepView for HostEvent {
    type V = EventModel;

    open spec fn deep_view(&self) -> EventModel {
        match self {
            HostEvent::Succeeded => EventModel::Succeeded,
            HostEvent::Failed(failure) => EventModel::Failed(failure@),
            HostEvent::Inspected(state) => EventModel::Inspected(state@),
        }
    }
}

impl View for HostEvent {
    type V = EventModel;

    open spec fn view(&self) -> EventModel {
        self.deep_view()
    }
}

/// An operation of a setup.
#[derive(Clone, Copy, Debug, PartialEq, Eq, Structural)]
pub enum SetupStage {
    ValidateRequest,
    CreateStateDirectory,
    /// Acquire the exclusive lease of the machine-global policy.
    AcquireLease,
    InspectState,
    VerifyNetwork,
    BuildPayload,
    InspectElevation,
    /// Run the setup helper with the payload.
    RunSetup,
    InspectAgain,
    VerifyAgain,
}

/// How a setup goes on.
#[derive(Debug)]
pub enum SetupStep {
    Perform(SetupStage),
    Finished(WindowsSandboxStandaloneSetupOperation),
    Refused(Failure),
}

/// What a [`SetupStep`] holds.
pub enum SetupStepModel {
    Perform(SetupStage),
    Finished(WindowsSandboxStandaloneSetupOperation),
    Refused(FailureModel),
}

impl DeepView for SetupStep {
    type V = SetupStepModel;

    open spec fn deep_view(&self) -> SetupStepModel {
        match self {
            SetupStep::Perform(stage) => SetupStepModel::Perform(*stage),
            SetupStep::Finished(operation) => SetupStepModel::Finished(*operation),
            SetupStep::Refused(failure) => SetupStepModel::Refused(failure@),
        }
    }
}

impl View for SetupStep {
    type V = SetupStepModel;

    open spec fn view(&self) -> SetupStepModel {
        self.deep_view()
    }
}

impl SetupStage {
    /// Whether an event can follow the operation: an inspection finds a state, and any
    /// other operation succeeds or fails.
    pub open spec fn expects(self, event: EventModel) -> bool {
        if self == SetupStage::InspectState || self == SetupStage::InspectAgain {
            event is Inspected
        } else {
            event is Succeeded || event is Failed
        }
    }
}

/// How a preparation goes on after an operation.
pub open spec fn after_preparing(stage: SetupStage, state_dir: NativeText, event: EventModel) -> SetupStepModel {
    match (stage, event) {
        (SetupStage::ValidateRequest, EventModel::Failed(failure)) => SetupStepModel::Refused(failure),
        (SetupStage::ValidateRequest, _) => SetupStepModel::Perform(SetupStage::CreateStateDirectory),
        (SetupStage::CreateStateDirectory, EventModel::Failed(failure)) => SetupStepModel::Refused(
            failure.within("create state directory "@ + state_dir.display()),
        ),
        (SetupStage::CreateStateDirectory, _) => SetupStepModel::Perform(SetupStage::AcquireLease),
        (SetupStage::AcquireLease, EventModel::Failed(failure)) => SetupStepModel::Refused(
            failure.within("acquire Windows sandbox policy generation lease"@),
        ),
        (SetupStage::AcquireLease, _) => SetupStepModel::Perform(SetupStage::InspectState),
        (SetupStage::InspectState, EventModel::Inspected(SetupStateModel::Ready)) => SetupStepModel::Perform(
            SetupStage::VerifyNetwork,
        ),
        (
            SetupStage::InspectState,
            EventModel::Inspected(SetupStateModel::Unavailable { reason }),
        ) => SetupStepModel::Refused(
            FailureModel::plain("standalone Windows setup is unavailable: "@ + reason),
        ),
        (SetupStage::InspectState, _) => SetupStepModel::Perform(SetupStage::BuildPayload),
        // A network policy that does not verify is what the preparation mends.
        (SetupStage::VerifyNetwork, EventModel::Failed(_)) => SetupStepModel::Perform(SetupStage::BuildPayload),
        (SetupStage::VerifyNetwork, _) => SetupStepModel::Finished(
            WindowsSandboxStandaloneSetupOperation::AlreadyReady,
        ),
        (SetupStage::BuildPayload, EventModel::Failed(failure)) => SetupStepModel::Refused(failure),
        (SetupStage::BuildPayload, _) => SetupStepModel::Perform(SetupStage::InspectElevation),
        (SetupStage::InspectElevation, EventModel::Failed(failure)) => SetupStepModel::Refused(
            failure.within("inspect Windows elevation state"@),
        ),
        (SetupStage::InspectElevation, _) => SetupStepModel::Perform(SetupStage::RunSetup),
        (SetupStage::RunSetup, EventModel::Failed(failure)) => SetupStepModel::Refused(failure),
        (SetupStage::RunSetup, _) => SetupStepModel::Perform(SetupStage::InspectAgain),
        (SetupStage::InspectAgain, EventModel::Inspected(state)) => if state == SetupStateModel::Ready {
            SetupStepModel::Perform(SetupStage::VerifyAgain)
        } else {
            SetupStepModel::Refused(
                FailureModel::plain("standalone Windows setup remained unavailable: "@ + state.text()),
            )
        },
        (SetupStage::VerifyAgain, EventModel::Failed(failure)) => SetupStepModel::Refused(failure),
        _ => SetupStepModel::Finished(WindowsSandboxStandaloneSetupOperation::Prepared),
    }
}

/// Explicitly prepares identities, ACL state, and firewall state: decides how the
/// preparation goes on after an operation. It starts with the validation of the
/// request, and is the only standalone operation that may request elevation.
pub fn prepare_windows_sandbox_standalone(stage: SetupStage, state_dir: &NativeString, event: HostEvent) -> (result: SetupStep)
    requires
        stage.expects(event@),
    ensures
        result@ == after_preparing(stage, state_dir@, event@),
{
    match stage {
        SetupStage::InspectState => {
            match event {
                HostEvent::Inspected(WindowsSandboxStandaloneSetupState::Ready) => SetupStep::Perform(
                    SetupStage::VerifyNetwork,
                ),
                HostEvent::Inspected(WindowsSandboxStandaloneSetupState::Unavailable { reason }) => {
                    let message = concat2("standalone Windows setup is unavailable: ", reason.as_str());
                    SetupStep::Refused(Failure::new(message.as_str()))
                },
                _ => SetupStep::Perform(SetupStage::BuildPayload),
            }
        },
        SetupStage::InspectAgain => {
            match event {
                HostEvent::Inspected(WindowsSandboxStandaloneSetupState::Ready) => SetupStep::Perform(
                    SetupStage::VerifyAgain,
                ),
                HostEvent::Inspected(state) => {
                    let shown = state.text();
                    let message = concat2("standalone Windows setup remained unavailable: ", shown.as_str());
                    SetupStep::Refused(Failure::new(message.as_str()))
                },
                _ => SetupStep::Finished(WindowsSandboxStandaloneSetupOperation::Prepared),
            }
        },
        _ => {
            match event {
                HostEvent::Failed(failure) => {
                    match stage {
                        SetupStage::CreateStateDirectory => {
                            let shown = state_dir.display();
                            let context = concat2("create state directory ", shown.as_str());
                            SetupStep::Refused(failure.within(context.as_str()))
                        },
                        SetupStage::AcquireLease => SetupStep::Refused(
                            failure.within("acquire Windows sandbox policy generation lease"),
                        ),
                        SetupStage::VerifyNetwork => SetupStep::Perform(SetupStage::BuildPayload),
                        SetupStage::InspectElevation => SetupStep::Refused(
                            failure.within("inspect Windows elevation state"),
                        ),
                        _ => SetupStep::Refused(failure),
                    }
                },
                _ => {
                    match stage {
                        SetupStage::ValidateRequest => SetupStep::Perform(SetupStage::CreateStateDirectory),
                        SetupStage::CreateStateDirectory => SetupStep::Perform(SetupStage::AcquireLease),
                        SetupStage::AcquireLease => SetupStep::Perform(SetupStage::InspectState),
                        SetupStage::VerifyNetwork => SetupStep::Finished(
                            WindowsSandboxStandaloneSetupOperation::AlreadyReady,
                        ),
                        SetupStage::BuildPayload => SetupStep::Perform(SetupStage::InspectElevation),
                        SetupStage::InspectElevation => SetupStep::Perform(SetupStage::RunSetup),
                        SetupStage::RunSetup => SetupStep::Perform(SetupStage::InspectAgain),
                        _ => SetupStep::Finished(WindowsSandboxStandaloneSetupOperation::Prepared),
                    }
                },
            }
        },
    }
}

/// Whether the setup helper must be started with elevation.
pub open spec fn is_elevation_needed(refresh_only: bool, elevated: bool) -> bool {
    !refresh_only && !elevated
}

/// Whether the setup helper must be started with elevation. A refresh never is.
pub fn needs_elevation(refresh_only: bool, elevated: bool) -> (result: bool)
    ensures
        result == is_elevation_needed(refresh_only, elevated),
{
    !refresh_only && !elevated
}

/// How a refresh goes on after an operation. Where the lease is held already, the
/// network policy was verified under it.
pub open spec fn after_refreshing(stage: SetupStage, lease_held: bool, event: EventModel) -> SetupStepModel {
    match (stage, event) {
        (SetupStage::ValidateRequest, EventModel::Failed(failure)) => SetupStepModel::Refused(failure),
        (SetupStage::ValidateRequest, _) => SetupStepModel::Perform(SetupStage::InspectState),
        (SetupStage::InspectState, EventModel::Inspected(state)) => if state != SetupStateModel::Ready {
            SetupStepModel::Refused(
                FailureModel::plain("standalone Windows setup is not ready for refresh: "@ + state.text()),
            )
        } else if lease_held {
            SetupStepModel::Perform(SetupStage::BuildPayload)
        } else {
            SetupStepModel::Perform(SetupStage::AcquireLease)
        },
        (SetupStage::AcquireLease, EventModel::Failed(failure)) => SetupStepModel::Refused(
            failure.within("acquire Windows sandbox policy generation lease"@),
        ),
        (SetupStage::AcquireLease, _) => SetupStepModel::Perform(SetupStage::VerifyNetwork),
        (SetupStage::VerifyNetwork, EventModel::Failed(failure)) => SetupStepModel::Refused(
            failure.within("Windows sandbox firewall policy requires administrative preparation"@),
        ),
        (SetupStage::VerifyNetwork, _) => SetupStepModel::Perform(SetupStage::BuildPayload),
        (SetupStage::BuildPayload, EventModel::Failed(failure)) => SetupStepModel::Refused(failure),
        (SetupStage::BuildPayload, _) => SetupStepModel::Perform(SetupStage::RunSetup),
        (SetupStage::RunSetup, EventModel::Failed(failure)) => SetupStepModel::Refused(failure),
        _ => SetupStepModel::Finished(WindowsSandboxStandaloneSetupOperation::Refreshed),
    }
}

/// Whether an operation belongs to a refresh.
pub open spec fn is_refresh_stage(stage: SetupStage) -> bool {
    match stage {
        SetupStage::ValidateRequest => true,
        SetupStage::InspectState => true,
        SetupStage::AcquireLease => true,
        SetupStage::VerifyNetwork => true,
        SetupStage::BuildPayload => true,
        SetupStage::RunSetup => true,
        _ => false,
    }
}

fn refresh_step(stage: SetupStage, lease_held: bool, event: HostEvent) -> (result: SetupStep)
    requires
        is_refresh_stage(stage),
        stage.expects(event@),
    ensures
        result@ == after_refreshing(stage, lease_held, event@),
{
    match event {
        HostEvent::Inspected(WindowsSandboxStandaloneSetupState::Ready) => {
            if lease_held {
                SetupStep::Perform(SetupStage::BuildPayload)
            } else {
                SetupStep::Perform(SetupStage::AcquireLease)
            }
        },
        HostEvent::Inspected(state) => {
            let shown = state.text();
            let message = concat2("standalone Windows setup is not ready for refresh: ", shown.as_str());
            SetupStep::Refused(Failure::new(message.as_str()))
        },
        HostEvent::Failed(failure) => {
            match stage {
                SetupStage::AcquireLease => SetupStep::Refused(
                    failure.within("acquire Windows sandbox policy generation lease"),
                ),
                SetupStage::VerifyNetwork => SetupStep::Refused(
                    failure.within("Windows sandbox firewall policy requires administrative preparation"),
                ),
                _ => SetupStep::Refused(failure),
            }
        },
        HostEvent::Succeeded => {
            match stage {
                SetupStage::ValidateRequest => SetupStep::Perform(SetupStage::InspectState),
                SetupStage::AcquireLease => SetupStep::Perform(SetupStage::VerifyNetwork),
                SetupStage::VerifyNetwork => SetupStep::Perform(SetupStage::BuildPayload),
                SetupStage::BuildPayload => SetupStep::Perform(SetupStage::RunSetup),
                _ => SetupStep::Finished(WindowsSandboxStandaloneSetupOperation::Refreshed),
            }
        },
    }
}

/// Refreshes path ACLs using existing prepared identities: decides how the refresh goes
/// on after an operation. It starts with the validation of the request, never requests
/// elevation, and fails when administrative preparation is required.
pub fn refresh_windows_sandbox_standalone(stage: SetupStage, event: HostEvent) -> (result: SetupStep)
    requires
        is_refresh_stage(stage),
        stage.expects(event@),
    ensures
        result@ == after_refreshing(stage, false, event@),
{
    refresh_step(stage, false, event)
}

/// Refreshes path ACLs under a lease that is held already: decides how the refresh goes
/// on after an operation.
pub fn refresh_windows_sandbox_standalone_with_policy_lease(stage: SetupStage, event: HostEvent) -> (result: SetupStep)
    requires
        is_refresh_stage(stage),
        stage.expects(event@),
    ensures
        result@ == after_refreshing(stage, true, event@),
{
    refresh_step(stage, true, event)
}

/// What came of checking a request.
pub open spec fn checked_request(
    request: SetupRequestModel,
    resources: Result<(), Failure>,
    probes: PathProbes,
) -> EventModel {
    match resources {
        Err(failure) => EventModel::Failed(failure@),
        Ok(_) => match crate::windows::standalone::setup::request_failure(request, probes) {
            Some(failure) => EventModel::Failed(failure),
            None => EventModel::Succeeded,
        },
    }
}

fn check_request(
    request: &WindowsSandboxStandaloneSetupRequest,
    resources: Result<(), Failure>,
    probes: &PathProbes,
) -> (result: HostEvent)
    requires
        probes.answer(request@),
    ensures
        result@ == checked_request(request@, resources, *probes),
{
    match validate_setup_request(request, resources, probes) {
        Ok(_) => HostEvent::Succeeded,
        Err(failure) => HostEvent::Failed(failure),
    }
}

/// Begins a preparation: checks the request before anything is done for it. `resources`
/// is the outcome of verifying the helpers.
pub fn begin_preparation(
    request: &WindowsSandboxStandaloneSetupRequest,
    resources: Result<(), Failure>,
    probes: &PathProbes,
) -> (result: SetupStep)
    requires
        probes.answer(request@),
    ensures
        result@ == after_preparing(
            SetupStage::ValidateRequest,
            request@.state_dir.text,
            checked_request(request@, resources, *probes),
        ),
{
    let event = check_request(request, resources, probes);
    prepare_windows_sandbox_standalone(SetupStage::ValidateRequest, &request.state_dir.text, event)
}

/// Begins a refresh: checks the request before anything is done for it. `resources` is
/// the outcome of verifying the helpers.
pub fn begin_refresh(
    request: &WindowsSandboxStandaloneSetupRequest,
    resources: Result<(), Failure>,
    probes: &PathProbes,
    lease_held: bool,
) -> (result: SetupStep)
    requires
        probes.answer(request@),
    ensures
        result@ == after_refreshing(
            SetupStage::ValidateRequest,
            lease_held,
            checked_request(request@, resources, *probes),
        ),
{
    let event = check_request(request, resources, probes);
    refresh_step(SetupStage::ValidateRequest, lease_held, event)
}

/// Neither a preparation nor a refresh goes on from a request that is not valid, and both
/// are refused with the first reason.
pub proof fn invalid_requests_begin_nothing(
    request: SetupRequestModel,
    probes: PathProbes,
    state_dir: NativeText,
    lease_held: bool,
)
    requires
        probes.answer(request),
        crate::windows::standalone::setup::request_failure(request, probes) is Some,
    ensures
        ({
            let failure = crate::windows::standalone::setup::request_failure(request, probes)->Some_0;
            let event = checked_request(request, Ok(()), probes);
            &&& after_preparing(SetupStage::ValidateRequest, state_dir, event) == SetupStepModel::Refused(failure)
            &&& after_refreshing(SetupStage::ValidateRequest, lease_held, event) == SetupStepModel::Refused(failure)
        }),
{
}

/// The verified setup state: the local one unless it is ready, and then what the
/// machine-global policy makes of it.
pub open spec fn verified_state(
    local: SetupStateModel,
    lease: Result<(), FailureModel>,
    network: Result<(), FailureModel>,
) -> SetupStateModel {
    if local != SetupStateModel::Ready {
        local
    } else {
        match lease {
            Err(failure) => SetupStateModel::Unavailable {
                reason: "could not inspect the active Windows sandbox policy: "@ + failure.chain(),
            },
            Ok(_) => match network {
                Err(failure) => SetupStateModel::AdministrativeActionRequired {
                    reason: "installed Windows sandbox firewall policy requires refresh: "@ + failure.chain(),
                },
                Ok(_) => SetupStateModel::Ready,
            },
        }
    }
}

/// An outcome by what it holds.
pub open spec fn outcome_of(outcome: Result<(), Failure>) -> Result<(), FailureModel> {
    match outcome {
        Ok(_) => Ok(()),
        Err(failure) => Err(failure@),
    }
}

/// Inspects local setup state and the installed machine-global firewall rules without
/// mutating either or requesting elevation. The lease is only acquired where the local
/// state is ready, and the network policy only verified under it.
pub fn windows_sandbox_standalone_verified_setup_status(
    local: WindowsSandboxStandaloneSetupState,
    lease: &Result<(), Failure>,
    network: &Result<(), Failure>,
) -> (result: WindowsSandboxStandaloneSetupState)
    ensures
        result@ == verified_state(local@, outcome_of(*lease), outcome_of(*network)),
{
    match local {
        WindowsSandboxStandaloneSetupState::Ready => {},
        _ => {
            return local;
        },
    }
    match lease {
        Ok(_) => {},
        Err(failure) => {
            let chain = failure.chain();
            return WindowsSandboxStandaloneSetupState::Unavailable {
                reason: concat2("could not inspect the active Windows sandbox policy: ", chain.as_str()),
            };
        },
    }
    match network {
        Ok(_) => WindowsSandboxStandaloneSetupState::Ready,
        Err(failure) => {
            let chain = failure.chain();
            WindowsSandboxStandaloneSetupState::AdministrativeActionRequired {
                reason: concat2(
                    "installed Windows sandbox firewall policy requires refresh: ",
                    chain.as_str(),
                ),
            }
        },
    }
}

/// The place of an operation in a preparation.
pub open spec fn preparation_rank(stage: SetupStage) -> nat {
    match stage {
        SetupStage::ValidateRequest => 0,
        SetupStage::CreateStateDirectory => 1,
        SetupStage::AcquireLease => 2,
        SetupStage::InspectState => 3,
        SetupStage::VerifyNetwork => 4,
        SetupStage::BuildPayload => 5,
        SetupStage::InspectElevation => 6,
        SetupStage::RunSetup => 7,
        SetupStage::InspectAgain => 8,
        SetupStage::VerifyAgain => 9,
    }
}

/// A preparation only moves forward, and passes the lease before anything that reads or
/// changes the machine-global policy.
pub proof fn preparation_moves_forward_under_the_lease(stage: SetupStage, state_dir: NativeText, event: EventModel)
    requires
        stage.expects(event),
    ensures
        after_preparing(stage, state_dir, event) matches SetupStepModel::Perform(next) ==> {
            &&& preparation_rank(stage) < preparation_rank(next)
            &&& preparation_rank(stage) < preparation_rank(SetupStage::AcquireLease) ==> preparation_rank(next)
                <= preparation_rank(SetupStage::AcquireLease)
            &&& stage == SetupStage::AcquireLease ==> event is Succeeded
        },
{
}

/// A preparation ends well only on a verified network policy.
pub proof fn preparation_ends_on_a_verified_network(stage: SetupStage, state_dir: NativeText, event: EventModel)
    requires
        stage.expects(event),
        after_preparing(stage, state_dir, event) is Finished,
    ensures
        event is Succeeded,
        stage == SetupStage::VerifyNetwork || stage == SetupStage::VerifyAgain,
        after_preparing(stage, state_dir, event) == SetupStepModel::Finished(
            WindowsSandboxStandaloneSetupOperation::AlreadyReady,
        ) <==> stage == SetupStage::VerifyNetwork,
{
}

/// A refresh runs the setup helper only on a ready state and, unless it holds the lease
/// already, under a lease with a verified network policy.
pub proof fn refresh_needs_a_ready_state(stage: SetupStage, lease_held: bool, event: EventModel)
    requires
        is_refresh_stage(stage),
        stage.expects(event),
        after_refreshing(stage, lease_held, event) is Perform,
    ensures
        stage == SetupStage::InspectState ==> event == EventModel::Inspected(SetupStateModel::Ready),
        stage != SetupStage::InspectState ==> event is Succeeded,
        !lease_held && after_refreshing(stage, lease_held, event) == SetupStepModel::Perform(
            SetupStage::BuildPayload,
        ) ==> stage == SetupStage::VerifyNetwork,
        after_refreshing(stage, lease_held, event) == SetupStepModel::Perform(SetupStage::VerifyNetwork) ==> stage
            == SetupStage::AcquireLease,
        after_refreshing(stage, lease_held, event) == SetupStepModel::Perform(SetupStage::RunSetup) ==> stage
            == SetupStage::BuildPayload,
{
}

/// A preparation passes its operations in one order and is refused by the first failure,
/// but for a network policy that does not verify, which it mends. It ends at once where
/// nothing is to be done.
pub proof fn preparations_do_what_is_missing(stage: SetupStage, state_dir: NativeText, event: EventModel)
    requires
        stage.expects(event),
    ensures
        ({
            let step = after_preparing(stage, state_dir, event);
            &&& event is Failed && !(stage is VerifyNetwork) ==> step is Refused
            &&& event is Succeeded ==> match stage {
                SetupStage::ValidateRequest => step == SetupStepModel::Perform(SetupStage::CreateStateDirectory),
                SetupStage::CreateStateDirectory => step == SetupStepModel::Perform(SetupStage::AcquireLease),
                SetupStage::AcquireLease => step == SetupStepModel::Perform(SetupStage::InspectState),
                SetupStage::VerifyNetwork => step == SetupStepModel::Finished(
                    WindowsSandboxStandaloneSetupOperation::AlreadyReady,
                ),
                SetupStage::BuildPayload => step == SetupStepModel::Perform(SetupStage::InspectElevation),
                SetupStage::InspectElevation => step == SetupStepModel::Perform(SetupStage::RunSetup),
                SetupStage::RunSetup => step == SetupStepModel::Perform(SetupStage::InspectAgain),
                SetupStage::VerifyAgain => step == SetupStepModel::Finished(
                    WindowsSandboxStandaloneSetupOperation::Prepared,
                ),
                _ => true,
            }
            &&& event is Failed && stage is VerifyNetwork ==> step == SetupStepModel::Perform(SetupStage::BuildPayload)
            &&& event matches EventModel::Inspected(state) ==> {
                &&& stage is InspectState ==> match state {
                    SetupStateModel::Ready => step == SetupStepModel::Perform(SetupStage::VerifyNetwork),
                    SetupStateModel::Unavailable { .. } => step is Refused,
                    SetupStateModel::AdministrativeActionRequired { .. } => step == SetupStepModel::Perform(
                        SetupStage::BuildPayload,
                    ),
                }
                &&& stage is InspectAgain ==> {
                    &&& state is Ready ==> step == SetupStepModel::Perform(SetupStage::VerifyAgain)
                    &&& !(state is Ready) ==> step is Refused
                }
            }
        }),
{
}

/// A refresh passes its operations in one order, goes on only from a ready state and after
/// successes, and never inspects or asks for elevation.
pub proof fn refreshes_change_paths_only(stage: SetupStage, lease_held: bool, event: EventModel)
    requires
        is_refresh_stage(stage),
        stage.expects(event),
    ensures
        ({
            let step = after_refreshing(stage, lease_held, event);
            &&& event is Failed ==> step is Refused
            &&& event matches EventModel::Inspected(state) ==> {
                &&& !(state is Ready) ==> step is Refused
                &&& state is Ready && lease_held ==> step == SetupStepModel::Perform(SetupStage::BuildPayload)
                &&& state is Ready && !lease_held ==> step == SetupStepModel::Perform(SetupStage::AcquireLease)
            }
            &&& event is Succeeded ==> match stage {
                SetupStage::ValidateRequest => step == SetupStepModel::Perform(SetupStage::InspectState),
                SetupStage::AcquireLease => step == SetupStepModel::Perform(SetupStage::VerifyNetwork),
                SetupStage::VerifyNetwork => step == SetupStepModel::Perform(SetupStage::BuildPayload),
                SetupStage::BuildPayload => step == SetupStepModel::Perform(SetupStage::RunSetup),
                SetupStage::RunSetup => step == SetupStepModel::Finished(
                    WindowsSandboxStandaloneSetupOperation::Refreshed,
                ),
                _ => true,
            }
            &&& step matches SetupStepModel::Perform(next) ==> !(next is InspectElevation)
        }),
{
}

/// A verified setup is ready exactly where its local state is, the policy could be held,
/// and its network rules verified. A local state that is not ready stands as it is.
pub proof fn verified_setups_are_ready_throughout(
    local: SetupStateModel,
    lease: Result<(), FailureModel>,
    network: Result<(), FailureModel>,
)
    ensures
        verified_state(local, lease, network) is Ready <==> local is Ready && lease is Ok && network is Ok,
        !(local is Ready) ==> verified_state(local, lease, network) == local,
        local is Ready && lease is Err ==> verified_state(local, lease, network) is Unavailable,
        local is Ready && lease is Ok && network is Err ==> verified_state(local, lease, network)
            is AdministrativeActionRequired,
{
}

/// Elevation is asked for only by a preparation, and only by one that does not have it.
pub proof fn refreshes_never_ask_for_elevation(refresh_only: bool, elevated: bool)
    ensures
        refresh_only ==> !is_elevation_needed(refresh_only, elevated),
        elevated ==> !is_elevation_needed(refresh_only, elevated),
        !refresh_only && !elevated ==> is_elevation_needed(refresh_only, elevated),
{
}

} // verus!
