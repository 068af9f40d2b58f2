//! Containing one setup helper generation in a job of its parent.

use crate::text::{concat2, decimal_string, prefixed_hex_string};
use crate::windows::failure::{Failure, FailureModel};
use crate::windows::leases::{WAIT_OBJECT_0, WAIT_TIMEOUT};
use vstd::prelude::*;
use vstd::string::*;

verus! {

pub const MCP_SETUP_JOB_NAME: &'static str = "Global\\McpConsoleSandboxSetupGenerationV1";

/// How long, in seconds, the helper tree may take to retire.
pub const SETUP_RETIREMENT_SECONDS: u64 = 5;

pub const ERROR_FILE_NOT_FOUND: u32 = 2;

pub const ERROR_ALREADY_EXISTS: u32 = 183;

/// Parent process identity captured before a standalone setup helper starts.
#[derive(Clone, Copy, Debug, PartialEq, Eq, Structural)]
pub struct SetupContainmentParent {
    pub process_id: u32,
    pub creation_time: u64,
}

/// The time that the host gives in two halves.
pub fn process_creation_time(high: u32, low: u32) -> (result: u64)
    ensures
        result == high * 0x1_0000_0000 + low,
{
    (high as u64) * 0x1_0000_0000 + low as u64
}

/// Two halves give one time only.
pub proof fn creation_times_differ(first: (u32, u32), second: (u32, u32))
    requires
        first.0 * 0x1_0000_0000 + first.1 == second.0 * 0x1_0000_0000 + second.1,
    ensures
        first == second,
{
}

/// Why the containment job is not a new one, if it is not.
pub open spec fn creation_failure(created: Result<u32, String>) -> Option<FailureModel> {
    match created {
        Err(error) => Some(
            FailureModel::plain(error@).within("create standalone Windows setup containment Job"@),
        ),
        Ok(last_error) => if last_error == ERROR_ALREADY_EXISTS {
            Some(FailureModel::plain("a previous standalone Windows setup containment Job is still present"@))
        } else {
            None
        },
    }
}

/// Judges the creation of the containment job: the host's error, or the last error of a
/// creation that succeeded, which tells a new job from one that was there.
pub fn containment_job_created(created: Result<u32, String>) -> (result: Result<(), Failure>)
    ensures
        match creation_failure(created) {
            Some(expected) => result matches Err(failure) && failure@ == expected,
            None => result is Ok,
        },
{
    match created {
        Err(error) => Err(
            Failure::new(error.as_str()).within("create standalone Windows setup containment Job"),
        ),
        Ok(last_error) => {
            if last_error == ERROR_ALREADY_EXISTS {
                return Err(
                    Failure::new("a previous standalone Windows setup containment Job is still present"),
                );
            }
            Ok(())
        },
    }
}

/// Why the parent is not known to be alive, if it is not.
pub open spec fn parent_failure(waited: u32) -> Option<FailureModel> {
    if waited == WAIT_TIMEOUT {
        None
    } else if waited == WAIT_OBJECT_0 {
        Some(FailureModel::plain("standalone setup parent exited before helper enrollment"@))
    } else {
        Some(
            FailureModel::plain(
                "wait for standalone setup parent process returned unexpected result "@
                    + crate::text::prefixed_hex(waited as nat),
            ),
        )
    }
}

/// Checks by a wait of no time that the parent is alive.
pub fn require_parent_alive(waited: u32) -> (result: Result<(), Failure>)
    ensures
        match parent_failure(waited) {
            Some(expected) => result matches Err(failure) && failure@ == expected,
            None => result is Ok,
        },
{
    if waited == WAIT_TIMEOUT {
        return Ok(());
    }
    if waited == WAIT_OBJECT_0 {
        return Err(Failure::new("standalone setup parent exited before helper enrollment"));
    }
    let code = prefixed_hex_string(waited as u64);
    let message = concat2(
        "wait for standalone setup parent process returned unexpected result ",
        code.as_str(),
    );
    Err(Failure::new(message.as_str()))
}

/// An operation of the enrollment.
#[derive(Clone, Copy, Debug, PartialEq, Eq, Structural)]
pub enum EnrollStage {
    OpenParent,
    ReadCreationTime,
    CheckParent,
    OpenJob,
    AssignProcess,
    CheckParentAgain,
}

/// What came of an operation of the enrollment.
#[derive(Debug)]
pub enum EnrollEvent {
    Succeeded,
    Failed(String),
    CreationTime(u64),
    Waited(u32),
}

/// How the enrollment goes on.
#[derive(Debug)]
pub enum EnrollStep {
    Perform(EnrollStage),
    Enrolled,
    Refused(Failure),
}

/// What an [`EnrollStep`] holds.
pub enum EnrollStepModel {
    Perform(EnrollStage),
    Enrolled,
    Refused(FailureModel),
}

impl DeepView for EnrollStep {
    type V = EnrollStepModel;

    open spec fn deep_view(&self) -> EnrollStepModel {
        match self {
            EnrollStep::Perform(stage) => EnrollStepModel::Perform(*stage),
            EnrollStep::Enrolled => EnrollStepModel::Enrolled,
            EnrollStep::Refused(failure) => EnrollStepModel::Refused(failure@),
        }
    }
}

impl View for EnrollStep {
    type V = EnrollStepModel;

    open spec fn view(&self) -> EnrollStepModel {
        self.deep_view()
    }
}

impl EnrollStage {
    /// Whether an event can follow the operation.
    pub open spec fn expects(self, event: EnrollEvent) -> bool {
        match self {
            EnrollStage::ReadCreationTime => event is CreationTime || event is Failed,
            EnrollStage::CheckParent => event is Waited,
            EnrollStage::CheckParentAgain => event is Waited,
            _ => event is Succeeded || event is Failed,
        }
    }
}

/// How the enrollment goes on after an operation.
pub open spec fn after_enrolling(stage: EnrollStage, parent_creation_time: u64, event: EnrollEvent) -> EnrollStepModel {
    match event {
        EnrollEvent::Failed(error) => EnrollStepModel::Refused(
            FailureModel::plain(error@).within(
                match stage {
                    EnrollStage::OpenParent => "open standalone setup parent process"@,
                    EnrollStage::ReadCreationTime => "read process creation time"@,
                    EnrollStage::OpenJob => "open standalone Windows setup containment Job"@,
                    _ => "enroll standalone setup helper in containment Job"@,
                },
            ),
        ),
        EnrollEvent::CreationTime(time) => if time == parent_creation_time {
            EnrollStepModel::Perform(EnrollStage::CheckParent)
        } else {
            EnrollStepModel::Refused(
                FailureModel::plain("standalone setup parent process identity changed before enrollment"@),
            )
        },
        EnrollEvent::Waited(waited) => match parent_failure(waited) {
            Some(failure) => EnrollStepModel::Refused(failure),
            None => if stage == EnrollStage::CheckParent {
                EnrollStepModel::Perform(EnrollStage::OpenJob)
            } else {
                EnrollStepModel::Enrolled
            },
        },
        EnrollEvent::Succeeded => match stage {
            EnrollStage::OpenParent => EnrollStepModel::Perform(EnrollStage::ReadCreationTime),
            EnrollStage::OpenJob => EnrollStepModel::Perform(EnrollStage::AssignProcess),
            _ => EnrollStepModel::Perform(EnrollStage::CheckParentAgain),
        },
    }
}

/// Enrolls the current standalone setup helper in its parent's job before any
/// machine-global policy mutation begins: decides how the enrollment goes on after an
/// operation. It starts by opening the parent.
///
/// The parent process identity is checked on both sides of assignment. If the
/// parent exits before enrollment, the named job disappears and setup fails. If
/// it exits after enrollment, closing the job retires the helper tree.
pub fn enroll_current_process_in_mcp_setup_job(stage: EnrollStage, parent_creation_time: u64, event: EnrollEvent) -> (result: EnrollStep)
    requires
        stage.expects(event),
    ensures
        result@ == after_enrolling(stage, parent_creation_time, event),
{
    match event {
        EnrollEvent::Failed(error) => {
            let context = match stage {
                EnrollStage::OpenParent => "open standalone setup parent process",
                EnrollStage::ReadCreationTime => "read process creation time",
                EnrollStage::OpenJob => "open standalone Windows setup containment Job",
                _ => "enroll standalone setup helper in containment Job",
            };
            EnrollStep::Refused(Failure::new(error.as_str()).within(context))
        },
        EnrollEvent::CreationTime(time) => {
            if time == parent_creation_time {
                EnrollStep::Perform(EnrollStage::CheckParent)
            } else {
                EnrollStep::Refused(
                    Failure::new("standalone setup parent process identity changed before enrollment"),
                )
            }
        },
        EnrollEvent::Waited(waited) => match require_parent_alive(waited) {
            Err(failure) => EnrollStep::Refused(failure),
            Ok(_) => match stage {
                EnrollStage::CheckParent => EnrollStep::Perform(EnrollStage::OpenJob),
                _ => EnrollStep::Enrolled,
            },
        },
        EnrollEvent::Succeeded => match stage {
            EnrollStage::OpenParent => EnrollStep::Perform(EnrollStage::ReadCreationTime),
            EnrollStage::OpenJob => EnrollStep::Perform(EnrollStage::AssignProcess),
            _ => EnrollStep::Perform(EnrollStage::CheckParentAgain),
        },
    }
}

/// A helper is enrolled only while its parent, of the captured identity, is alive after
/// the assignment; and it is assigned only after the identity was checked.
pub proof fn enrollment_checks_the_parent_on_both_sides(
    stage: EnrollStage,
    parent_creation_time: u64,
    event: EnrollEvent,
)
    requires
        stage.expects(event),
    ensures
        after_enrolling(stage, parent_creation_time, event) is Enrolled ==> stage == EnrollStage::CheckParentAgain
            && event == EnrollEvent::Waited(WAIT_TIMEOUT),
        after_enrolling(stage, parent_creation_time, event) == EnrollStepModel::Perform(EnrollStage::CheckParent)
            ==> event == EnrollEvent::CreationTime(parent_creation_time),
        after_enrolling(stage, parent_creation_time, event) == EnrollStepModel::Perform(EnrollStage::OpenJob)
            ==> stage == EnrollStage::CheckParent && event == EnrollEvent::Waited(WAIT_TIMEOUT),
        after_enrolling(stage, parent_creation_time, event) == EnrollStepModel::Perform(EnrollStage::AssignProcess)
            ==> stage == EnrollStage::OpenJob,
        after_enrolling(stage, parent_creation_time, event) == EnrollStepModel::Perform(
            EnrollStage::CheckParentAgain,
        ) ==> stage == EnrollStage::AssignProcess,
{
}

/// How a wait for the job's tree goes on: `None` to look again.
pub open spec fn tree_retired(active: Result<u32, String>, deadline_passed: bool) -> Option<Result<(), FailureModel>> {
    match active {
        Err(error) => Some(
            Err(FailureModel::plain(error@).within("query standalone Windows setup containment Job"@)),
        ),
        Ok(count) => if count == 0 {
            Some(Ok(()))
        } else if deadline_passed {
            Some(
                Err(
                    FailureModel::plain(
                        "standalone Windows setup helper tree did not retire within 5 seconds"@,
                    ),
                ),
            )
        } else {
            None
        },
    }
}

/// Decides how the wait for a terminated job's tree goes on: `None` to look again.
pub fn await_setup_tree(active: Result<u32, String>, deadline_passed: bool) -> (result: Option<Result<(), Failure>>)
    ensures
        match tree_retired(active, deadline_passed) {
            None => result is None,
            Some(Ok(_)) => result == Some::<Result<(), Failure>>(Ok(())),
            Some(Err(expected)) => result matches Some(Err(failure)) && failure@ == expected,
        },
{
    match active {
        Err(error) => Some(
            Err(Failure::new(error.as_str()).within("query standalone Windows setup containment Job")),
        ),
        Ok(count) => {
            if count == 0 {
                Some(Ok(()))
            } else if deadline_passed {
                Some(
                    Err(Failure::new("standalone Windows setup helper tree did not retire within 5 seconds")),
                )
            } else {
                None
            }
        },
    }
}

/// The failure of a termination of the job.
pub fn setup_termination_failure(error: &str) -> (result: Failure)
    ensures
        result@ == FailureModel::plain(error@).within("terminate standalone Windows setup containment Job"@),
{
    Failure::new(error).within("terminate standalone Windows setup containment Job")
}

/// What to do about a job that an abandoned lease may have left.
#[derive(Debug)]
pub enum AbandonedJob {
    /// There is none: a helper that is not enrolled yet can no longer open it.
    Gone,
    /// Terminate it and wait for its tree.
    Retire,
    Unknown(Failure),
}

/// Whether this is what to do about a job that an abandoned lease may have left.
pub open spec fn is_abandoned_job(open_error: Option<u32>, job: AbandonedJob) -> bool {
    match open_error {
        None => job is Retire,
        Some(error) => if error == ERROR_FILE_NOT_FOUND {
            job is Gone
        } else {
            job matches AbandonedJob::Unknown(failure) && failure@ == open_failure(error)
        },
    }
}

/// Decides what to do about a job that an abandoned lease may have left, by the error of
/// opening it.
pub fn abandoned_job_opened(open_error: Option<u32>) -> (result: AbandonedJob)
    ensures
        is_abandoned_job(open_error, result),
{
    match open_error {
        None => AbandonedJob::Retire,
        Some(error) => {
            if error == ERROR_FILE_NOT_FOUND {
                return AbandonedJob::Gone;
            }
            let code = decimal_string(error as u64);
            let message = concat2("open prior standalone Windows setup containment Job: ", code.as_str());
            AbandonedJob::Unknown(Failure::new(message.as_str()))
        },
    }
}

/// The failure of an abandoned job that is there and cannot be opened.
pub open spec fn open_failure(error: u32) -> FailureModel {
    FailureModel::plain(
        "open prior standalone Windows setup containment Job: "@ + crate::text::decimal(error as nat),
    )
}

/// The failure of an abandoned job's tree that did not retire.
pub fn abandoned_tree_failure(failure: Failure) -> (result: Failure)
    ensures
        result@ == failure@.within("retire prior standalone Windows setup helper generation"@),
{
    failure.within("retire prior standalone Windows setup helper generation")
}

/// Why the creation of a probe under the job's name does not show that nobody owns the
/// old job, if it does not.
pub open spec fn still_owned(created: Result<u32, String>) -> Option<FailureModel> {
    match created {
        Err(error) => Some(
            FailureModel::plain(error@).within(
                "verify prior standalone Windows setup containment ownership ended"@,
            ),
        ),
        Ok(last_error) => if last_error == ERROR_ALREADY_EXISTS {
            Some(
                FailureModel::plain(
                    "the prior standalone Windows setup containment Job is still owned after its helper tree retired"@,
                ),
            )
        } else {
            None
        },
    }
}

/// Judges the creation of a probe under the job's name once its tree retired: only a
/// new job shows that nobody owns the old one.
pub fn abandoned_job_released(created: Result<u32, String>) -> (result: Result<(), Failure>)
    ensures
        match still_owned(created) {
            Some(expected) => result matches Err(failure) && failure@ == expected,
            None => result is Ok,
        },
{
    match created {
        Err(error) => Err(
            Failure::new(error.as_str()).within(
                "verify prior standalone Windows setup containment ownership ended",
            ),
        ),
        Ok(last_error) => {
            if last_error == ERROR_ALREADY_EXISTS {
                return Err(
                    Failure::new(
                        "the prior standalone Windows setup containment Job is still owned after its helper tree retired",
                    ),
                );
            }
            Ok(())
        },
    }
}

/// An operation of the retirement of a job that an abandoned lease may have left.
#[derive(Clone, Copy, Debug, PartialEq, Eq, Structural)]
pub enum RetirementStage {
    /// Open the job by its name.
    OpenJob,
    /// Terminate all its processes.
    Terminate,
    /// Count its processes.
    AwaitTree,
    /// Close the job, and create one under its name as a probe.
    ProbeOwnership,
}

/// What came of an operation of the retirement.
#[derive(Debug)]
pub enum RetirementEvent {
    /// The host's error, where the job could not be opened.
    Opened(Option<u32>),
    Terminated(Result<(), String>),
    Counted { active: Result<u32, String>, deadline_passed: bool },
    /// The error, or the last error of a creation that succeeded.
    Probed(Result<u32, String>),
}

/// How the retirement goes on.
#[derive(Debug)]
pub enum RetirementStep {
    Perform(RetirementStage),
    Done(Result<(), Failure>),
}

/// What a [`RetirementStep`] holds.
pub enum RetirementStepModel {
    Perform(RetirementStage),
    Done(Result<(), FailureModel>),
}

impl DeepView for RetirementStep {
    type V = RetirementStepModel;

    open spec fn deep_view(&self) -> RetirementStepModel {
        match self {
            RetirementStep::Perform(stage) => RetirementStepModel::Perform(*stage),
            RetirementStep::Done(Ok(_)) => RetirementStepModel::Done(Ok(())),
            RetirementStep::Done(Err(failure)) => RetirementStepModel::Done(Err(failure@)),
        }
    }
}

impl View for RetirementStep {
    type V = RetirementStepModel;

    open spec fn view(&self) -> RetirementStepModel {
        self.deep_view()
    }
}

impl RetirementStage {
    /// Whether an event can follow the operation.
    pub open spec fn expects(self, event: RetirementEvent) -> bool {
        match self {
            RetirementStage::OpenJob => event is Opened,
            RetirementStage::Terminate => event is Terminated,
            RetirementStage::AwaitTree => event is Counted,
            RetirementStage::ProbeOwnership => event is Probed,
        }
    }
}

/// How the retirement goes on after an operation.
pub open spec fn after_retiring(event: RetirementEvent) -> RetirementStepModel {
    match event {
        RetirementEvent::Opened(None) => RetirementStepModel::Perform(RetirementStage::Terminate),
        RetirementEvent::Opened(Some(error)) => RetirementStepModel::Done(
            if error == ERROR_FILE_NOT_FOUND {
                Ok(())
            } else {
                Err(open_failure(error))
            },
        ),
        RetirementEvent::Terminated(Ok(_)) => RetirementStepModel::Perform(RetirementStage::AwaitTree),
        RetirementEvent::Terminated(Err(error)) => RetirementStepModel::Done(
            Err(
                FailureModel::plain(error@).within("terminate standalone Windows setup containment Job"@).within(
                    "retire prior standalone Windows setup helper generation"@,
                ),
            ),
        ),
        RetirementEvent::Counted { active, deadline_passed } => match tree_retired(active, deadline_passed) {
            None => RetirementStepModel::Perform(RetirementStage::AwaitTree),
            Some(Ok(_)) => RetirementStepModel::Perform(RetirementStage::ProbeOwnership),
            Some(Err(failure)) => RetirementStepModel::Done(
                Err(failure.within("retire prior standalone Windows setup helper generation"@)),
            ),
        },
        RetirementEvent::Probed(created) => RetirementStepModel::Done(
            match still_owned(created) {
                Some(failure) => Err(failure),
                None => Ok(()),
            },
        ),
    }
}

/// Retires a setup job left behind by an abandoned policy lease: decides how the
/// retirement goes on after an operation. It starts by opening the job. A missing job
/// means that a helper that is not enrolled yet can no longer open it and must fail
/// before mutating policy.
pub fn retire_abandoned_mcp_setup_job(stage: RetirementStage, event: RetirementEvent) -> (result: RetirementStep)
    requires
        stage.expects(event),
    ensures
        result@ == after_retiring(event),
{
    match event {
        RetirementEvent::Opened(open_error) => match abandoned_job_opened(open_error) {
            AbandonedJob::Gone => RetirementStep::Done(Ok(())),
            AbandonedJob::Retire => RetirementStep::Perform(RetirementStage::Terminate),
            AbandonedJob::Unknown(failure) => RetirementStep::Done(Err(failure)),
        },
        RetirementEvent::Terminated(Ok(_)) => RetirementStep::Perform(RetirementStage::AwaitTree),
        RetirementEvent::Terminated(Err(error)) => {
            RetirementStep::Done(Err(abandoned_tree_failure(setup_termination_failure(error.as_str()))))
        },
        RetirementEvent::Counted { active, deadline_passed } => match await_setup_tree(active, deadline_passed) {
            None => RetirementStep::Perform(RetirementStage::AwaitTree),
            Some(Ok(_)) => RetirementStep::Perform(RetirementStage::ProbeOwnership),
            Some(Err(failure)) => RetirementStep::Done(Err(abandoned_tree_failure(failure))),
        },
        RetirementEvent::Probed(created) => RetirementStep::Done(abandoned_job_released(created)),
    }
}

/// The retirement succeeds only where no job is there, or where a probe shows that its
/// owner is gone too; the probe follows only a tree in which no process is active, and
/// the count only a termination of all of them. While the job is still owned it fails.
pub proof fn retirement_outlasts_the_helpers(stage: RetirementStage, event: RetirementEvent)
    requires
        stage.expects(event),
    ensures
        after_retiring(event) == RetirementStepModel::Done(Ok(())) ==> match event {
            RetirementEvent::Opened(error) => error == Some(ERROR_FILE_NOT_FOUND),
            RetirementEvent::Probed(created) => created matches Ok(last_error) && last_error
                != ERROR_ALREADY_EXISTS,
            _ => false,
        },
        after_retiring(event) == RetirementStepModel::Perform(RetirementStage::ProbeOwnership) ==> (event matches
            RetirementEvent::Counted { active, deadline_passed } && active == Ok::<u32, String>(0)),
        after_retiring(event) == RetirementStepModel::Perform(RetirementStage::AwaitTree) ==> stage
            == RetirementStage::AwaitTree || (event matches RetirementEvent::Terminated(outcome) && outcome is Ok),
        after_retiring(event) == RetirementStepModel::Perform(RetirementStage::Terminate) ==> stage
            == RetirementStage::OpenJob,
        event == RetirementEvent::Probed(Ok(ERROR_ALREADY_EXISTS)) ==> after_retiring(event)
            == RetirementStepModel::Done(
            Err(
                FailureModel::plain(
                    "the prior standalone Windows setup containment Job is still owned after its helper tree retired"@,
                ),
            ),
        ),
{
}

/// A generation of helpers starts only under a job that is new: not under one that could
/// not be created, nor under one that an earlier generation still holds.
pub proof fn generations_start_in_a_job_of_their_own(created: Result<u32, String>)
    ensures
        creation_failure(created) is None <==> (created matches Ok(last_error) && last_error != 183),
        still_owned(created) is None <==> creation_failure(created) is None,
{
}

/// The enrollment is refused exactly where an operation failed, the parent is another
/// process, or it is not running any more; else it goes on to the next operation, in one
/// order.
pub proof fn enrollment_passes_its_operations_in_order(
    stage: EnrollStage,
    parent_creation_time: u64,
    event: EnrollEvent,
)
    requires
        stage.expects(event),
    ensures
        ({
            let step = after_enrolling(stage, parent_creation_time, event);
            let refused = match event {
                EnrollEvent::Succeeded => false,
                EnrollEvent::Failed(_) => true,
                EnrollEvent::CreationTime(time) => time != parent_creation_time,
                EnrollEvent::Waited(waited) => waited != 0x102,
            };
            &&& step is Refused <==> refused
            &&& !refused ==> match stage {
                EnrollStage::OpenParent => step == EnrollStepModel::Perform(EnrollStage::ReadCreationTime),
                EnrollStage::ReadCreationTime => step == EnrollStepModel::Perform(EnrollStage::CheckParent),
                EnrollStage::CheckParent => step == EnrollStepModel::Perform(EnrollStage::OpenJob),
                EnrollStage::OpenJob => step == EnrollStepModel::Perform(EnrollStage::AssignProcess),
                EnrollStage::AssignProcess => step == EnrollStepModel::Perform(EnrollStage::CheckParentAgain),
                EnrollStage::CheckParentAgain => step is Enrolled,
            }
        }),
{
}

/// The retirement of an old job ends well exactly where there is none, or where a job of
/// its name is new once its tree is gone. It looks again only while processes are left
/// and there is time.
pub proof fn retirement_ends_when_nothing_is_left(stage: RetirementStage, event: RetirementEvent)
    requires
        stage.expects(event),
    ensures
        ({
            let step = after_retiring(event);
            match event {
                RetirementEvent::Opened(None) => step == RetirementStepModel::Perform(RetirementStage::Terminate),
                RetirementEvent::Opened(Some(error)) => step is Done && (step->Done_0 is Ok <==> error == 2),
                RetirementEvent::Terminated(Ok(_)) => step == RetirementStepModel::Perform(
                    RetirementStage::AwaitTree,
                ),
                RetirementEvent::Terminated(Err(_)) => step is Done && step->Done_0 is Err,
                RetirementEvent::Counted { active, deadline_passed } => {
                    &&& active is Err ==> step is Done && step->Done_0 is Err
                    &&& active matches Ok(count) ==> {
                        &&& count == 0 ==> step == RetirementStepModel::Perform(RetirementStage::ProbeOwnership)
                        &&& count > 0 && deadline_passed ==> step is Done && step->Done_0 is Err
                        &&& count > 0 && !deadline_passed ==> step == RetirementStepModel::Perform(
                            RetirementStage::AwaitTree,
                        )
                    }
                },
                RetirementEvent::Probed(created) => step is Done && (step->Done_0 is Ok <==> (created matches Ok(
                    last_error,
                ) && last_error != 183)),
            }
        }),
{
}

/// An old job that can be opened is retired; it counts as gone only where the host knows
/// none of its name, and any other failure leaves it unknown.
pub proof fn old_jobs_are_gone_only_when_unknown_to_the_host(open_error: Option<u32>, job: AbandonedJob)
    requires
        is_abandoned_job(open_error, job),
    ensures
        job is Retire <==> open_error is None,
        job is Gone <==> open_error == Some(2u32),
        job is Unknown <==> (open_error matches Some(error) && error != 2),
{
}

} // verus!
