//! How the helper process is started and reached.

use crate::text::concat2;
use crate::windows::failure::{Failure, FailureModel};
use vstd::prelude::*;
use vstd::string::*;

verus! {

/// An operation that starts the helper.
#[derive(Clone, Copy, Debug, PartialEq, Eq, Structural)]
pub enum SpawnHelperStage {
    /// Create the pipe that the helper reads.
    CreateInputPipe,
    /// Create the pipe that the helper writes.
    CreateOutputPipe,
    /// Create the helper's process as the sandbox account.
    CreateProcess,
    ConnectInputPipe,
    ConnectOutputPipe,
}

/// How the start goes on.
#[derive(Debug)]
pub enum SpawnHelperStep {
    Perform(SpawnHelperStage),
    /// The helper runs and both pipes are connected to it.
    Spawned,
    /// There is no helper.
    Failed {
        failure: Failure,
        /// Close both pipes.
        close_pipes: bool,
        /// Terminate the process that was created.
        terminate_process: bool,
    },
}

/// What a [`SpawnHelperStep`] holds.
pub enum SpawnHelperModel {
    Perform(SpawnHelperStage),
    Spawned,
    Failed { failure: FailureModel, close_pipes: bool, terminate_process: bool },
}

impl DeepView for SpawnHelperStep {
    type V = SpawnHelperModel;

    open spec fn deep_view(&self) -> SpawnHelperModel {
        match self {
            SpawnHelperStep::Perform(stage) => SpawnHelperModel::Perform(*stage),
            SpawnHelperStep::Spawned => SpawnHelperModel::Spawned,
            SpawnHelperStep::Failed { failure, close_pipes, terminate_process } => SpawnHelperModel::Failed {
                failure: failure@,
                close_pipes: *close_pipes,
                terminate_process: *terminate_process,
            },
        }
    }
}

impl View for SpawnHelperStep {
    type V = SpawnHelperModel;

    open spec fn view(&self) -> SpawnHelperModel {
        self.deep_view()
    }
}

impl SpawnHelperStage {
    /// Whether both pipes are there while the operation is performed.
    pub open spec fn has_pipes(self) -> bool {
        self != SpawnHelperStage::CreateInputPipe && self != SpawnHelperStage::CreateOutputPipe
    }

    /// Whether the process is there while the operation is performed.
    pub open spec fn has_process(self) -> bool {
        self == SpawnHelperStage::ConnectInputPipe || self == SpawnHelperStage::ConnectOutputPipe
    }

    /// The operation after this one, if there is one.
    pub open spec fn following(self) -> Option<SpawnHelperStage> {
        match self {
            SpawnHelperStage::CreateInputPipe => Some(SpawnHelperStage::CreateOutputPipe),
            SpawnHelperStage::CreateOutputPipe => Some(SpawnHelperStage::CreateProcess),
            SpawnHelperStage::CreateProcess => Some(SpawnHelperStage::ConnectInputPipe),
            SpawnHelperStage::ConnectInputPipe => Some(SpawnHelperStage::ConnectOutputPipe),
            SpawnHelperStage::ConnectOutputPipe => None,
        }
    }
}

/// How the start goes on after an operation. The failure to create the process is the
/// host's error.
pub open spec fn after_spawning(stage: SpawnHelperStage, failure: Option<FailureModel>) -> SpawnHelperModel {
    match failure {
        None => match stage.following() {
            Some(next) => SpawnHelperModel::Perform(next),
            None => SpawnHelperModel::Spawned,
        },
        Some(failure) => SpawnHelperModel::Failed {
            failure: if stage == SpawnHelperStage::CreateProcess {
                FailureModel::plain("CreateProcessWithLogonW failed for standalone helper: "@ + failure.message)
            } else {
                failure
            },
            close_pipes: stage.has_pipes(),
            terminate_process: stage.has_process(),
        },
    }
}

/// Starts the helper: decides how the start goes on after an operation. It begins with
/// the pipe that the helper reads.
pub fn spawn_helper(stage: SpawnHelperStage, outcome: Result<(), Failure>) -> (result: SpawnHelperStep)
    ensures
        result@ == after_spawning(
            stage,
            match outcome {
                Ok(_) => None,
                Err(failure) => Some(failure@),
            },
        ),
{
    match outcome {
        Ok(_) => match stage {
            SpawnHelperStage::CreateInputPipe => SpawnHelperStep::Perform(SpawnHelperStage::CreateOutputPipe),
            SpawnHelperStage::CreateOutputPipe => SpawnHelperStep::Perform(SpawnHelperStage::CreateProcess),
            SpawnHelperStage::CreateProcess => SpawnHelperStep::Perform(SpawnHelperStage::ConnectInputPipe),
            SpawnHelperStage::ConnectInputPipe => SpawnHelperStep::Perform(SpawnHelperStage::ConnectOutputPipe),
            SpawnHelperStage::ConnectOutputPipe => SpawnHelperStep::Spawned,
        },
        Err(failure) => match stage {
            SpawnHelperStage::CreateInputPipe | SpawnHelperStage::CreateOutputPipe => SpawnHelperStep::Failed {
                failure,
                close_pipes: false,
                terminate_process: false,
            },
            SpawnHelperStage::CreateProcess => {
                let message = concat2(
                    "CreateProcessWithLogonW failed for standalone helper: ",
                    failure.message.as_str(),
                );
                SpawnHelperStep::Failed {
                    failure: Failure::new(message.as_str()),
                    close_pipes: true,
                    terminate_process: false,
                }
            },
            SpawnHelperStage::ConnectInputPipe | SpawnHelperStage::ConnectOutputPipe => SpawnHelperStep::Failed {
                failure,
                close_pipes: true,
                terminate_process: true,
            },
        },
    }
}

/// A helper that was created but cannot be reached on both pipes does not survive, and
/// one is only reported once both are connected.
pub proof fn unreachable_helpers_are_terminated(stage: SpawnHelperStage, failure: Option<FailureModel>)
    ensures
        after_spawning(stage, failure) is Spawned ==> stage == SpawnHelperStage::ConnectOutputPipe && failure is None,
        failure is Some && stage.has_process() ==> (after_spawning(stage, failure) matches SpawnHelperModel::Failed {
            failure: _,
            close_pipes,
            terminate_process,
        } && close_pipes && terminate_process),
{
}

/// The start passes its operations in one order: both pipes, the process, both
/// connections. Where one fails, the pipes are closed if both were there, and the process
/// terminated if it was.
pub proof fn helpers_start_in_order(stage: SpawnHelperStage, failure: Option<FailureModel>)
    ensures
        failure is None ==> after_spawning(stage, failure) == match stage {
            SpawnHelperStage::CreateInputPipe => SpawnHelperModel::Perform(SpawnHelperStage::CreateOutputPipe),
            SpawnHelperStage::CreateOutputPipe => SpawnHelperModel::Perform(SpawnHelperStage::CreateProcess),
            SpawnHelperStage::CreateProcess => SpawnHelperModel::Perform(SpawnHelperStage::ConnectInputPipe),
            SpawnHelperStage::ConnectInputPipe => SpawnHelperModel::Perform(SpawnHelperStage::ConnectOutputPipe),
            SpawnHelperStage::ConnectOutputPipe => SpawnHelperModel::Spawned,
        },
        failure is Some ==> (after_spawning(stage, failure) matches SpawnHelperModel::Failed {
            failure: reported,
            close_pipes,
            terminate_process,
        } && {
            &&& close_pipes <==> !(stage is CreateInputPipe) && !(stage is CreateOutputPipe)
            &&& terminate_process <==> stage is ConnectInputPipe || stage is ConnectOutputPipe
            &&& !(stage is CreateProcess) ==> reported == failure->Some_0
            &&& failure->Some_0.message.is_suffix_of(reported.message)
        }),
{
    if failure is Some {
        let message = failure->Some_0.message;
        let reported = "CreateProcessWithLogonW failed for standalone helper: "@ + message;
        assert(reported.subrange(reported.len() - message.len(), reported.len() as int) =~= message);
        assert(message.subrange(0, message.len() as int) =~= message);
    }
}

} // verus!
