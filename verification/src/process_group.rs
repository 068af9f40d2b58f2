//! Observing a child without reaping it, and retiring a whole process group.

use crate::error::{IoErrorKind, IoFailure, IoFailureModel};
use crate::model;
use crate::text::{concat2, concat3, concat4, concat5, decimal_string, signed_decimal_string};
use vstd::prelude::*;
use vstd::string::*;

verus! {

/// Child status codes of `waitid`.
pub const CLD_EXITED: i32 = 1;

pub const CLD_KILLED: i32 = 2;

pub const CLD_DUMPED: i32 = 3;

pub const CLD_STOPPED: i32 = 5;

pub const CLD_CONTINUED: i32 = 6;

/// The error number for a process that does not exist.
pub const ESRCH: i32 = 3;

/// The process state of a zombie.
pub const SZOMB: u32 = 5;

/// How long a group may stay live after it was killed, in milliseconds.
pub const PROCESS_GROUP_STOP_TIMEOUT_MS: u64 = 1000;

/// Pause between two scans of a group, in milliseconds.
pub const PROCESS_GROUP_STOP_POLL_INTERVAL_MS: u64 = 1;

/// Exit status observed without consuming the direct child's wait status.
#[derive(Clone, Copy, Debug, PartialEq, Eq, Structural)]
pub enum ProcessExitStatus {
    /// The process exited normally with the enclosed exit code.
    Exited(i32),
    /// The process was terminated by the enclosed signal.
    Signaled(i32),
}

/// A native identifier for a process or a process group.
pub open spec fn native_process_id(process_id: u32) -> Option<i32> {
    if 0 < process_id <= i32::MAX {
        Some(process_id as i32)
    } else {
        None
    }
}

/// Checks that a number can identify a process of the given kind.
pub fn valid_process_id(process_id: u32, kind: &str) -> (result: Result<i32, IoFailure>)
    ensures
        match native_process_id(process_id) {
            Some(expected) => result matches Ok(native) && native == expected,
            None => result matches Err(error) && error@ == (IoFailureModel {
                kind: IoErrorKind::InvalidInput,
                message: "invalid "@ + kind@ + " ID"@,
            }),
        },
{
    if 0 < process_id && process_id <= i32::MAX as u32 {
        Ok(process_id as i32)
    } else {
        let message = concat3("invalid ", kind, " ID");
        Err(IoFailure { kind: IoErrorKind::InvalidInput, message })
    }
}

/// What `waitid` reported.
#[derive(Clone, Copy, Debug, PartialEq, Eq, Structural)]
pub struct WaitInformation {
    pub process_id: i32,
    pub code: i32,
    pub status: i32,
}

/// What follows from one answer of `waitid`.
pub enum WaitOutcome {
    /// Nothing happened to the child.
    Pending,
    Exited(ProcessExitStatus),
    /// A stop or continuation is to be consumed before the next wait.
    ConsumeNotification,
    Failed(IoFailure),
}

/// Error for an answer that contradicts the request.
pub open spec fn invalid_data(message: Seq<char>) -> IoFailureModel {
    IoFailureModel { kind: IoErrorKind::InvalidData, message }
}

/// Whether an outcome is what the answer calls for.
pub open spec fn is_wait_outcome(process_id: i32, information: WaitInformation, outcome: WaitOutcome) -> bool {
    if information.process_id == 0 {
        outcome is Pending
    } else if information.process_id != process_id {
        outcome matches WaitOutcome::Failed(error) && error@ == invalid_data(
            "waitid returned process "@ + crate::text::signed_decimal(information.process_id as int)
                + " while waiting for "@ + crate::text::signed_decimal(process_id as int),
        )
    } else if information.code == CLD_EXITED {
        outcome == WaitOutcome::Exited(ProcessExitStatus::Exited(information.status))
    } else if information.code == CLD_KILLED || information.code == CLD_DUMPED {
        outcome == WaitOutcome::Exited(ProcessExitStatus::Signaled(information.status))
    } else if information.code == CLD_STOPPED || information.code == CLD_CONTINUED {
        outcome is ConsumeNotification
    } else {
        outcome matches WaitOutcome::Failed(error) && error@ == invalid_data(
            "waitid returned unexpected child status code "@ + crate::text::signed_decimal(
                information.code as int,
            ),
        )
    }
}

/// Decides what an answer of `waitid` means for the awaited process.
pub fn classify_wait(process_id: i32, information: WaitInformation) -> (result: WaitOutcome)
    ensures
        is_wait_outcome(process_id, information, result),
{
    if information.process_id == 0 {
        return WaitOutcome::Pending;
    }
    if information.process_id != process_id {
        let observed = signed_decimal_string(information.process_id);
        let awaited = signed_decimal_string(process_id);
        let message = concat4(
            "waitid returned process ",
            observed.as_str(),
            " while waiting for ",
            awaited.as_str(),
        );
        return WaitOutcome::Failed(IoFailure { kind: IoErrorKind::InvalidData, message });
    }
    if information.code == CLD_EXITED {
        WaitOutcome::Exited(ProcessExitStatus::Exited(information.status))
    } else if information.code == CLD_KILLED || information.code == CLD_DUMPED {
        WaitOutcome::Exited(ProcessExitStatus::Signaled(information.status))
    } else if information.code == CLD_STOPPED || information.code == CLD_CONTINUED {
        WaitOutcome::ConsumeNotification
    } else {
        let code = signed_decimal_string(information.code);
        let message = concat2("waitid returned unexpected child status code ", code.as_str());
        WaitOutcome::Failed(IoFailure { kind: IoErrorKind::InvalidData, message })
    }
}

/// The error for an answer that is no stop or continuation of the process.
pub open spec fn notification_error(process_id: i32, information: WaitInformation) -> Option<IoFailureModel> {
    if information.process_id == 0 {
        None
    } else if information.process_id != process_id {
        Some(
            invalid_data(
                "waitid returned process "@ + crate::text::signed_decimal(information.process_id as int)
                    + " while consuming a notification for "@ + crate::text::signed_decimal(process_id as int),
            ),
        )
    } else if information.code != CLD_STOPPED && information.code != CLD_CONTINUED {
        Some(
            invalid_data(
                "waitid consumed unexpected child status code "@ + crate::text::signed_decimal(
                    information.code as int,
                ),
            ),
        )
    } else {
        None
    }
}

/// Checks the answer with which a stop or continuation was consumed.
pub fn consume_non_exit_notification(process_id: i32, information: WaitInformation) -> (result: Result<(), IoFailure>)
    ensures
        match notification_error(process_id, information) {
            Some(expected) => result matches Err(error) && error@ == expected,
            None => result is Ok,
        },
{
    if information.process_id == 0 {
        return Ok(());
    }
    if information.process_id != process_id {
        let observed = signed_decimal_string(information.process_id);
        let awaited = signed_decimal_string(process_id);
        let message = concat4(
            "waitid returned process ",
            observed.as_str(),
            " while consuming a notification for ",
            awaited.as_str(),
        );
        return Err(IoFailure { kind: IoErrorKind::InvalidData, message });
    }
    if information.code != CLD_STOPPED && information.code != CLD_CONTINUED {
        let code = signed_decimal_string(information.code);
        let message = concat2("waitid consumed unexpected child status code ", code.as_str());
        return Err(IoFailure { kind: IoErrorKind::InvalidData, message });
    }
    Ok(())
}

/// One answer of the host to a wait.
pub enum WaitAnswer {
    Information(WaitInformation),
    Failed(IoFailure),
}

/// What the observer of an exit does next.
pub enum ExitObservation {
    /// Wait again: a signal interrupted the wait.
    Retry,
    /// Consume a stop or continuation, then wait again.
    ConsumeNotification,
    /// The observation is over. `None` means that the child still runs.
    Done(Result<Option<ProcessExitStatus>, IoFailure>),
}

/// Whether an exit observation does what one answer of the host calls for.
pub open spec fn is_exit_observation(process_id: i32, answer: WaitAnswer, observation: ExitObservation) -> bool {
    match answer {
        WaitAnswer::Failed(failure) => if failure.kind == IoErrorKind::Interrupted {
            observation is Retry
        } else {
            observation == ExitObservation::Done(Err(failure))
        },
        WaitAnswer::Information(information) => exists|outcome: WaitOutcome|
            is_wait_outcome(process_id, information, outcome) && match outcome {
                WaitOutcome::Pending => observation == ExitObservation::Done(Ok(None)),
                WaitOutcome::Exited(status) => observation == ExitObservation::Done(Ok(Some(status))),
                WaitOutcome::ConsumeNotification => observation is ConsumeNotification,
                WaitOutcome::Failed(error) => observation == ExitObservation::Done(Err(error)),
            },
    }
}

/// Decides what an exit observation does after one answer of the host.
pub fn observe_process_exit_without_reaping(process_id: i32, answer: WaitAnswer) -> (result: ExitObservation)
    ensures
        is_exit_observation(process_id, answer, result),
{
    match answer {
        WaitAnswer::Failed(failure) => {
            if failure.kind == IoErrorKind::Interrupted {
                ExitObservation::Retry
            } else {
                ExitObservation::Done(Err(failure))
            }
        },
        WaitAnswer::Information(information) => {
            let outcome = classify_wait(process_id, information);
            assert(is_wait_outcome(process_id, information, outcome));
            match outcome {
                WaitOutcome::Pending => ExitObservation::Done(Ok(None)),
                WaitOutcome::Exited(status) => ExitObservation::Done(Ok(Some(status))),
                WaitOutcome::ConsumeNotification => ExitObservation::ConsumeNotification,
                WaitOutcome::Failed(error) => ExitObservation::Done(Err(error)),
            }
        },
    }
}

/// Whether a status is the one that was observed, where there was one.
pub open spec fn is_awaited_status(
    observed: Result<Option<ProcessExitStatus>, IoFailure>,
    awaited: Result<ProcessExitStatus, IoFailure>,
) -> bool {
    match observed {
        Ok(Some(status)) => awaited == Ok::<ProcessExitStatus, IoFailure>(status),
        Ok(None) => awaited matches Err(error) && error@ == (IoFailureModel {
            kind: IoErrorKind::WouldBlock,
            message: "blocking process exit observation returned no status"@,
        }),
        Err(failure) => awaited == Err::<ProcessExitStatus, IoFailure>(failure),
    }
}

/// The status of a blocking observation, which must have one.
///
/// Keeping the child waitable prevents its PID from being reused until the
/// caller finishes process-group cleanup and reaps it.
pub fn wait_for_process_exit_without_reaping(
    observed: Result<Option<ProcessExitStatus>, IoFailure>,
) -> (result: Result<ProcessExitStatus, IoFailure>)
    ensures
        is_awaited_status(observed, result),
{
    match observed {
        Ok(Some(status)) => Ok(status),
        Ok(None) => Err(
            IoFailure::new(IoErrorKind::WouldBlock, "blocking process exit observation returned no status"),
        ),
        Err(failure) => Err(failure),
    }
}

/// Starts a non-blocking observation: the native identifier to poll.
pub fn try_process_exit_without_reaping(process_id: u32) -> (result: Result<i32, IoFailure>)
    ensures
        match native_process_id(process_id) {
            Some(expected) => result matches Ok(native) && native == expected,
            None => result matches Err(error) && error@ == (IoFailureModel {
                kind: IoErrorKind::InvalidInput,
                message: "invalid "@ + "process"@ + " ID"@,
            }),
        },
{
    valid_process_id(process_id, "process")
}

/// One answer of the host to the enumeration of a process group.
pub struct GroupListing {
    /// The number of identifiers that the host wrote, or a negative number.
    pub count: i32,
    /// The error number after the call; zero when there was none.
    pub errno: i32,
    /// The identifiers, as many as were asked for.
    pub process_ids: Vec<i32>,
}

/// What follows from one enumeration.
pub enum ListingOutcome {
    Members(Vec<i32>),
    /// The buffer was filled: ask again with this many places.
    Grow(usize),
    /// The host failed with this error number.
    HostError(i32),
    Failed(IoFailure),
}

/// Whether an outcome is what the listing calls for.
pub open spec fn is_listing_outcome(listing: GroupListing, outcome: ListingOutcome) -> bool {
    let capacity = listing.process_ids@.len();
    if listing.count == 0 && listing.errno != 0 {
        if listing.errno == ESRCH {
            outcome matches ListingOutcome::Members(members) && members@ == Seq::<i32>::empty()
        } else {
            outcome == ListingOutcome::HostError(listing.errno)
        }
    } else if listing.count < 0 {
        if listing.errno != 0 {
            outcome == ListingOutcome::HostError(listing.errno)
        } else {
            outcome matches ListingOutcome::Failed(error) && error@ == invalid_data(
                "process-group enumeration returned a negative count"@,
            )
        }
    } else if listing.count < capacity {
        outcome matches ListingOutcome::Members(members) && members@ == listing.process_ids@.take(
            listing.count as int,
        )
    } else if capacity * 2 <= usize::MAX {
        outcome == ListingOutcome::Grow((capacity * 2) as usize)
    } else {
        outcome matches ListingOutcome::Failed(error) && error@ == invalid_data("process group is too large"@)
    }
}

/// Decides what one enumeration of a process group means.
pub fn process_group_members(listing: GroupListing) -> (result: ListingOutcome)
    ensures
        is_listing_outcome(listing, result),
{
    let GroupListing { count, errno, mut process_ids } = listing;
    if count == 0 && errno != 0 {
        if errno == ESRCH {
            return ListingOutcome::Members(Vec::new());
        }
        return ListingOutcome::HostError(errno);
    }
    if count < 0 {
        if errno != 0 {
            return ListingOutcome::HostError(errno);
        }
        return ListingOutcome::Failed(
            IoFailure::new(IoErrorKind::InvalidData, "process-group enumeration returned a negative count"),
        );
    }
    let count: u32 = count as u32;
    let capacity: usize = process_ids.len();
    if (count as u64) < (capacity as u64) {
        process_ids.truncate(count as usize);
        assert(process_ids@ =~= listing.process_ids@.take(listing.count as int));
        return ListingOutcome::Members(process_ids);
    }
    match capacity.checked_mul(2) {
        Some(capacity) => ListingOutcome::Grow(capacity),
        None => ListingOutcome::Failed(IoFailure::new(IoErrorKind::InvalidData, "process group is too large")),
    }
}

/// One answer of the host about a process's state.
#[derive(Clone, Copy, Debug, PartialEq, Eq, Structural)]
pub struct ProcessState {
    /// The number of bytes that the host wrote.
    pub written: i32,
    /// The number of bytes that were asked for.
    pub expected: i32,
    /// The error number after the call; zero when there was none.
    pub errno: i32,
    pub process_group_id: u32,
    pub status: u32,
}

/// What the host's answer says about liveness.
pub enum Liveness {
    /// The process is a live member of the group, or it is not.
    Known(bool),
    /// The host failed with this error number.
    HostError(i32),
    Failed(IoFailure),
}

/// Whether a liveness is what the answer calls for.
pub open spec fn is_liveness(process_group_id: i32, state: ProcessState, liveness: Liveness) -> bool {
    if state.written == 0 {
        if state.errno == ESRCH {
            liveness == Liveness::Known(false)
        } else if state.errno != 0 {
            liveness == Liveness::HostError(state.errno)
        } else {
            liveness matches Liveness::Failed(error) && error@ == invalid_data(
                "process status returned no data without an error"@,
            )
        }
    } else if state.written != state.expected {
        liveness matches Liveness::Failed(error) && error@ == invalid_data(
            "process status had an unexpected size"@,
        )
    } else {
        liveness == Liveness::Known(state.process_group_id == process_group_id && state.status != SZOMB)
    }
}

/// Decides whether a process is a live member of exactly this group.
pub fn process_is_live_group_member(process_group_id: i32, state: ProcessState) -> (result: Liveness)
    requires
        process_group_id > 0,
    ensures
        is_liveness(process_group_id, state, result),
{
    if state.written == 0 {
        if state.errno == ESRCH {
            return Liveness::Known(false);
        }
        if state.errno != 0 {
            return Liveness::HostError(state.errno);
        }
        return Liveness::Failed(
            IoFailure::new(IoErrorKind::InvalidData, "process status returned no data without an error"),
        );
    }
    if state.written != state.expected {
        return Liveness::Failed(
            IoFailure::new(IoErrorKind::InvalidData, "process status had an unexpected size"),
        );
    }
    Liveness::Known(state.process_group_id == process_group_id as u32 && state.status != SZOMB)
}

/// The group of a process: none when the process is gone, or the host's error number.
pub open spec fn reported_group(process_group_id: i32, errno: i32) -> Result<Option<i32>, i32> {
    if process_group_id >= 0 {
        Ok(Some(process_group_id))
    } else if errno == ESRCH {
        Ok(None)
    } else {
        Err(errno)
    }
}

/// The group of a process: none when the process is gone, or the host's error number.
pub fn process_group_of(process_group_id: i32, errno: i32) -> (result: Result<Option<i32>, i32>)
    ensures
        result == reported_group(process_group_id, errno),
{
    if process_group_id < 0 {
        if errno == ESRCH {
            return Ok(None);
        }
        return Err(errno);
    }
    Ok(Some(process_group_id))
}

/// Whether sending a signal succeeded. A process that is already gone needs no signal.
pub open spec fn signal_verdict(result: i32, errno: i32) -> Result<(), i32> {
    if result == -1 && errno != ESRCH {
        Err(errno)
    } else {
        Ok(())
    }
}

/// Whether sending a signal succeeded. A process that is already gone needs no signal.
pub fn signal_outcome(result: i32, errno: i32) -> (outcome: Result<(), i32>)
    ensures
        outcome == signal_verdict(result, errno),
{
    if result == -1 && errno != ESRCH {
        Err(errno)
    } else {
        Ok(())
    }
}

/// Which members of a group are to be killed.
#[derive(Clone, Copy, Debug, PartialEq, Eq, Structural)]
pub enum ProcessGroupSelection {
    All,
    Except(i32),
}

impl ProcessGroupSelection {
    /// Whether a process may be killed.
    pub open spec fn selects(self, process_id: i32) -> bool {
        process_id > 0 && self != ProcessGroupSelection::Except(process_id)
    }

    fn is_selected(self, process_id: i32) -> (result: bool)
        ensures
            result == self.selects(process_id),
    {
        if process_id <= 0 {
            return false;
        }
        match self {
            ProcessGroupSelection::All => true,
            ProcessGroupSelection::Except(excluded) => process_id != excluded,
        }
    }
}

/// The members to look at: the enumerated ones, and the leader where all are to go.
pub open spec fn scanned_members(group: i32, selection: ProcessGroupSelection, members: Seq<i32>) -> Seq<i32> {
    if selection == ProcessGroupSelection::All && !members.contains(group) {
        members.push(group)
    } else {
        members
    }
}

/// Tells the selected leader, or the other selected members.
pub open spec fn member_filter(group: i32, selection: ProcessGroupSelection, leader: bool) -> spec_fn(i32) -> bool {
    |process_id: i32| (process_id == group) == leader && selection.selects(process_id)
}

/// The leader first, then the others in their order, and of all only those selected.
pub open spec fn scan_order(group: i32, selection: ProcessGroupSelection, members: Seq<i32>) -> Seq<i32> {
    let scanned = scanned_members(group, selection, members);
    scanned.filter(member_filter(group, selection, true)) + scanned.filter(member_filter(group, selection, false))
}

fn select_members(group: i32, selection: ProcessGroupSelection, members: &Vec<i32>, leader: bool) -> (result: Vec<i32>)
    ensures
        result@ == members@.filter(member_filter(group, selection, leader)),
{
    let ghost wanted = member_filter(group, selection, leader);
    let mut kept: Vec<i32> = Vec::new();
    proof {
        model::lemma_take_all(members@);
        reveal(Seq::filter);
    }
    for index in 0..members.len()
        invariant
            wanted == member_filter(group, selection, leader),
            kept@ == members@.take(index as int).filter(wanted),
    {
        let process_id: i32 = members[index];
        proof {
            model::lemma_take_push(members@, index as int);
            reveal(Seq::filter);
            assert(members@.take(index + 1).filter(wanted) == if wanted(process_id) {
                members@.take(index as int).filter(wanted).push(process_id)
            } else {
                members@.take(index as int).filter(wanted)
            });
        }
        if (process_id == group) == leader && selection.is_selected(process_id) {
            kept.push(process_id);
        }
    }
    proof {
        model::lemma_take_all(members@);
    }
    kept
}

fn contains_process(members: &Vec<i32>, wanted: i32) -> (result: bool)
    ensures
        result == members@.contains(wanted),
{
    for index in 0..members.len()
        invariant
            forall|i: int| 0 <= i < index ==> members@[i] != wanted,
    {
        if members[index] == wanted {
            assert(members@[index as int] == wanted);
            return true;
        }
    }
    false
}

/// What a scan asks of the host about one member.
#[derive(Clone, Copy, Debug, PartialEq, Eq, Structural)]
pub enum ScanAction {
    /// Tell whether the process is a live member of the group.
    InspectLiveness(i32),
    /// Tell which group the process is in now.
    InspectGroup(i32),
    /// Kill the process.
    Kill(i32),
    /// The scan is complete.
    Finish,
}

/// What the host answered.
pub enum ScanAnswer {
    Liveness(Result<bool, IoFailure>),
    Group(Result<Option<i32>, IoFailure>),
    Killed(Result<(), IoFailure>),
}

/// Which question about the current member is open.
#[derive(Clone, Copy, Debug, PartialEq, Eq, Structural)]
pub enum ScanPhase {
    Liveness,
    Group,
    Kill,
}

/// One pass over the members of a group.
pub struct GroupScan {
    pub group: i32,
    pub selection: ProcessGroupSelection,
    /// The members in the order in which they are looked at.
    pub order: Vec<i32>,
    /// The member that is looked at now.
    pub position: usize,
    pub phase: ScanPhase,
    pub observed_live_member: bool,
    pub first_error: Option<IoFailure>,
}

impl GroupScan {
    /// Whether the scan only looks at selected members.
    pub open spec fn well_formed(self) -> bool {
        &&& self.position <= self.order@.len()
        &&& self.position == self.order@.len() ==> self.phase == ScanPhase::Liveness
        &&& forall|index: int| 0 <= index < self.order@.len() ==> self.selection.selects(#[trigger] self.order@[index])
    }

    /// The question that is open.
    pub open spec fn next_action(self) -> ScanAction {
        if self.position >= self.order@.len() {
            ScanAction::Finish
        } else {
            let process_id = self.order@[self.position as int];
            match self.phase {
                ScanPhase::Liveness => ScanAction::InspectLiveness(process_id),
                ScanPhase::Group => ScanAction::InspectGroup(process_id),
                ScanPhase::Kill => ScanAction::Kill(process_id),
            }
        }
    }

    /// Whether this is a pass over the enumerated members that has not looked at any yet.
    pub open spec fn begins(self, group: i32, selection: ProcessGroupSelection, members: Seq<i32>) -> bool {
        &&& self.well_formed()
        &&& self.group == group
        &&& self.selection == selection
        &&& self.order@ == scan_order(group, selection, members)
        &&& self.position == 0
        &&& self.phase == ScanPhase::Liveness
        &&& !self.observed_live_member
        &&& self.first_error is None
    }

    /// Starts a pass over the enumerated members.
    pub fn start(group: i32, selection: ProcessGroupSelection, members: Vec<i32>) -> (result: Self)
        ensures
            result.begins(group, selection, members@),
    {
        let ghost enumerated = members@;
        let mut members = members;
        let all = match selection {
            ProcessGroupSelection::All => true,
            ProcessGroupSelection::Except(_) => false,
        };
        if all && !contains_process(&members, group) {
            members.push(group);
        }
        assert(members@ == scanned_members(group, selection, enumerated));
        let mut order = select_members(group, selection, &members, true);
        let mut others = select_members(group, selection, &members, false);
        proof {
            broadcast use vstd::seq_lib::group_filter_ensures;
            assert forall|index: int| 0 <= index < order@.len() implies selection.selects(#[trigger] order@[index]) by {
                assert(member_filter(group, selection, true)(order@[index]));
            }
            assert forall|index: int| 0 <= index < others@.len() implies selection.selects(#[trigger] others@[index]) by {
                assert(member_filter(group, selection, false)(others@[index]));
            }
        }
        order.append(&mut others);
        GroupScan {
            group,
            selection,
            order,
            position: 0,
            phase: ScanPhase::Liveness,
            observed_live_member: false,
            first_error: None,
        }
    }

    /// The question that is open.
    pub fn action(&self) -> (result: ScanAction)
        requires
            self.well_formed(),
        ensures
            result == self.next_action(),
    {
        if self.position >= self.order.len() {
            return ScanAction::Finish;
        }
        let process_id: i32 = self.order[self.position];
        match self.phase {
            ScanPhase::Liveness => ScanAction::InspectLiveness(process_id),
            ScanPhase::Group => ScanAction::InspectGroup(process_id),
            ScanPhase::Kill => ScanAction::Kill(process_id),
        }
    }

    /// The scan with the next member, and an error kept if it is the first one.
    pub open spec fn advanced(self, error: Option<IoFailure>) -> GroupScan {
        GroupScan {
            position: (self.position + 1) as usize,
            phase: ScanPhase::Liveness,
            first_error: if self.first_error is Some {
                self.first_error
            } else {
                error
            },
            ..self
        }
    }

    /// The scan after an answer to the open question.
    pub open spec fn answered(self, answer: ScanAnswer) -> GroupScan {
        match answer {
            ScanAnswer::Liveness(Ok(true)) => GroupScan {
                observed_live_member: true,
                phase: ScanPhase::Group,
                ..self
            },
            ScanAnswer::Liveness(Ok(false)) => self.advanced(None),
            ScanAnswer::Liveness(Err(error)) => self.advanced(Some(error)),
            ScanAnswer::Group(Ok(Some(current))) => if current == self.group {
                GroupScan { phase: ScanPhase::Kill, ..self }
            } else {
                self.advanced(None)
            },
            ScanAnswer::Group(Ok(None)) => self.advanced(None),
            ScanAnswer::Group(Err(error)) => self.advanced(Some(error)),
            ScanAnswer::Killed(Ok(())) => self.advanced(None),
            ScanAnswer::Killed(Err(error)) => self.advanced(Some(error)),
        }
    }

    /// Whether an answer belongs to the open question.
    pub open spec fn expects(self, answer: ScanAnswer) -> bool {
        self.position < self.order@.len() && match self.phase {
            ScanPhase::Liveness => answer is Liveness,
            ScanPhase::Group => answer is Group,
            ScanPhase::Kill => answer is Killed,
        }
    }

    fn advance(&mut self, error: Option<IoFailure>)
        requires
            old(self).well_formed(),
            old(self).position < old(self).order@.len(),
        ensures
            *final(self) == old(self).advanced(error),
    {
        assert(self.position < self.order.len());
        self.position += 1;
        self.phase = ScanPhase::Liveness;
        if self.first_error.is_none() {
            self.first_error = error;
        }
    }

    /// Takes the answer to the open question.
    pub fn answer(&mut self, answer: ScanAnswer)
        requires
            old(self).well_formed(),
            old(self).expects(answer),
        ensures
            final(self).well_formed(),
            *final(self) == old(self).answered(answer),
    {
        match answer {
            ScanAnswer::Liveness(Ok(live)) => {
                if live {
                    self.observed_live_member = true;
                    self.phase = ScanPhase::Group;
                } else {
                    self.advance(None);
                }
            },
            ScanAnswer::Liveness(Err(error)) => self.advance(Some(error)),
            ScanAnswer::Group(Ok(current)) => {
                let in_group = match current {
                    Some(current) => current == self.group,
                    None => false,
                };
                if in_group {
                    self.phase = ScanPhase::Kill;
                } else {
                    self.advance(None);
                }
            },
            ScanAnswer::Group(Err(error)) => self.advance(Some(error)),
            ScanAnswer::Killed(Ok(())) => self.advance(None),
            ScanAnswer::Killed(Err(error)) => self.advance(Some(error)),
        }
    }

    /// Whether a conclusion is what a complete scan calls for.
    pub open spec fn is_conclusion(self, deadline_passed: bool, timeout_ms: u64, conclusion: ScanConclusion) -> bool {
        match self.first_error {
            Some(error) => conclusion == ScanConclusion::Done(Err(error)),
            None => if !self.observed_live_member {
                conclusion == ScanConclusion::Done(Ok(()))
            } else if deadline_passed {
                conclusion matches ScanConclusion::Done(Err(error)) && error@ == (IoFailureModel {
                    kind: IoErrorKind::TimedOut,
                    message: "process group "@ + crate::text::signed_decimal(self.group as int)
                        + " remained live after "@ + crate::text::decimal(timeout_ms as nat) + " ms"@,
                })
            } else {
                conclusion is Rescan
            },
        }
    }

    /// Decides what follows a complete scan.
    pub fn conclude(self, deadline_passed: bool, timeout_ms: u64) -> (result: ScanConclusion)
        requires
            self.well_formed(),
            self.position == self.order@.len(),
        ensures
            self.is_conclusion(deadline_passed, timeout_ms, result),
    {
        if let Some(error) = self.first_error {
            return ScanConclusion::Done(Err(error));
        }
        if !self.observed_live_member {
            return ScanConclusion::Done(Ok(()));
        }
        if deadline_passed {
            let group = signed_decimal_string(self.group);
            let elapsed = decimal_string(timeout_ms);
            let message = concat5(
                "process group ",
                group.as_str(),
                " remained live after ",
                elapsed.as_str(),
                " ms",
            );
            return ScanConclusion::Done(Err(IoFailure { kind: IoErrorKind::TimedOut, message }));
        }
        ScanConclusion::Rescan
    }
}

/// What follows a complete scan.
pub enum ScanConclusion {
    Done(Result<(), IoFailure>),
    /// A live member was seen: enumerate the group again.
    Rescan,
}

/// Whether a selection is that of a whole group, or the error that there can be none.
pub open spec fn is_whole_group(process_group_id: u32, selected: Result<(i32, ProcessGroupSelection), IoFailure>) -> bool {
    match native_process_id(process_group_id) {
        Some(group) => selected == Ok::<(i32, ProcessGroupSelection), IoFailure>((group, ProcessGroupSelection::All)),
        None => selected matches Err(error) && error@ == (IoFailureModel {
            kind: IoErrorKind::InvalidInput,
            message: "invalid "@ + "process group"@ + " ID"@,
        }),
    }
}

/// Starts the retirement of a whole group.
///
/// The caller must keep the group leader waitable for the duration of the
/// retirement so the process-group identity cannot be reused during cleanup.
pub fn kill_process_group_until_quiescent(process_group_id: u32) -> (result: Result<
    (i32, ProcessGroupSelection),
    IoFailure,
>)
    ensures
        is_whole_group(process_group_id, result),
{
    let group = valid_process_id(process_group_id, "process group")?;
    Ok((group, ProcessGroupSelection::All))
}

/// Whether the scans follow the signal to the whole group, or the error that ends the
/// retirement.
pub open spec fn group_signal_verdict(signalled: Result<bool, IoFailure>) -> Result<(), IoFailure> {
    match signalled {
        Ok(_) => Ok(()),
        Err(error) => if error.kind == IoErrorKind::PermissionDenied {
            Ok(())
        } else {
            Err(error)
        },
    }
}

/// Decides whether the scans follow the signal to the whole group. A host that does
/// not permit the group signal still permits the members' own ones.
pub fn after_group_signal(signalled: Result<bool, IoFailure>) -> (result: Result<(), IoFailure>)
    ensures
        result == group_signal_verdict(signalled),
{
    match signalled {
        Ok(_) => Ok(()),
        Err(error) => {
            if error.kind == IoErrorKind::PermissionDenied {
                Ok(())
            } else {
                Err(error)
            }
        },
    }
}

/// Whether a selection is that of a group without one of its members, or the error that
/// there can be none.
pub open spec fn is_group_without(
    process_group_id: u32,
    excluded_process_id: u32,
    group_of_excluded: Result<Option<i32>, IoFailure>,
    selected: Result<(i32, ProcessGroupSelection), IoFailure>,
) -> bool {
    match (native_process_id(process_group_id), native_process_id(excluded_process_id)) {
        (None, _) => selected matches Err(error) && error@ == (IoFailureModel {
            kind: IoErrorKind::InvalidInput,
            message: "invalid "@ + "process group"@ + " ID"@,
        }),
        (Some(_), None) => selected matches Err(error) && error@ == (IoFailureModel {
            kind: IoErrorKind::InvalidInput,
            message: "invalid "@ + "excluded process"@ + " ID"@,
        }),
        (Some(group), Some(excluded)) => match group_of_excluded {
            Err(error) => selected == Err::<(i32, ProcessGroupSelection), IoFailure>(error),
            Ok(current) => if current == Some(group) {
                selected == Ok::<(i32, ProcessGroupSelection), IoFailure>(
                    (group, ProcessGroupSelection::Except(excluded)),
                )
            } else {
                selected matches Err(error) && error@ == (IoFailureModel {
                    kind: IoErrorKind::InvalidInput,
                    message: "excluded process is not a member of the process group"@,
                })
            },
        },
    }
}

/// Starts the retirement of all members of a group except one.
///
/// The excluded process must currently belong to the group; `group_of_excluded` is
/// what the host reports about it.
pub fn kill_process_group_members_except(
    process_group_id: u32,
    excluded_process_id: u32,
    group_of_excluded: Result<Option<i32>, IoFailure>,
) -> (result: Result<(i32, ProcessGroupSelection), IoFailure>)
    ensures
        is_group_without(process_group_id, excluded_process_id, group_of_excluded, result),
{
    let group = valid_process_id(process_group_id, "process group")?;
    let excluded = valid_process_id(excluded_process_id, "excluded process")?;
    let is_member = match group_of_excluded? {
        Some(current) => current == group,
        None => false,
    };
    if !is_member {
        return Err(
            IoFailure::new(
                IoErrorKind::InvalidInput,
                "excluded process is not a member of the process group",
            ),
        );
    }
    Ok((group, ProcessGroupSelection::Except(excluded)))
}

/// A scan never kills the excluded process, nor anything that is not a single process.
pub proof fn excluded_process_is_never_killed(scan: GroupScan, process_id: i32)
    requires
        scan.well_formed(),
        scan.next_action() == ScanAction::Kill(process_id),
    ensures
        process_id > 0,
        scan.selection != ProcessGroupSelection::Except(process_id),
{
    assert(scan.selection.selects(scan.order@[scan.position as int]));
}

/// A scan kills a process only right after the host confirmed that it is in the group,
/// and asks for that only right after the host confirmed that it is live.
pub proof fn kills_follow_confirmation(scan: GroupScan, answer: ScanAnswer)
    requires
        scan.well_formed(),
        scan.expects(answer),
    ensures
        scan.answered(answer).next_action() is Kill ==> answer == ScanAnswer::Group(Ok(Some(scan.group)))
            && scan.next_action() is InspectGroup,
        scan.answered(answer).next_action() is InspectGroup ==> answer == ScanAnswer::Liveness(Ok(true))
            && scan.next_action() is InspectLiveness,
{
}

/// The leader of the group is looked at before every other member.
pub proof fn leader_is_scanned_first(group: i32, selection: ProcessGroupSelection, members: Seq<i32>)
    requires
        scanned_members(group, selection, members).contains(group),
        selection.selects(group),
    ensures
        scan_order(group, selection, members).len() > 0,
        scan_order(group, selection, members)[0] == group,
{
    let scanned = scanned_members(group, selection, members);
    let leader = member_filter(group, selection, true);
    let index = choose|index: int| 0 <= index < scanned.len() && scanned[index] == group;
    broadcast use vstd::seq_lib::group_filter_ensures;
    assert(leader(scanned[index]));
    assert(scanned.filter(leader).contains(scanned[index]));
    assert(leader(scanned.filter(leader)[0]));
}

/// Retiring a whole group looks at its leader even if the enumeration missed it.
pub proof fn whole_group_scan_covers_leader(group: i32, members: Seq<i32>)
    requires
        group > 0,
    ensures
        scan_order(group, ProcessGroupSelection::All, members).contains(group),
{
    let scanned = scanned_members(group, ProcessGroupSelection::All, members);
    if !members.contains(group) {
        assert(scanned[members.len() as int] == group);
    }
    leader_is_scanned_first(group, ProcessGroupSelection::All, members);
    assert(scan_order(group, ProcessGroupSelection::All, members)[0] == group);
}

/// What a wait that leaves the child waitable reports of it: nothing while it runs, and
/// its status once it is over. A signal may have left a core image.
pub open spec fn wait_report(process_id: i32, status: Option<ProcessExitStatus>, dumped: bool) -> WaitInformation {
    match status {
        None => WaitInformation { process_id: 0, code: 0, status: 0 },
        Some(ProcessExitStatus::Exited(code)) => WaitInformation { process_id, code: CLD_EXITED, status: code },
        Some(ProcessExitStatus::Signaled(signal)) => WaitInformation {
            process_id,
            code: if dumped {
                CLD_DUMPED
            } else {
                CLD_KILLED
            },
            status: signal,
        },
    }
}

/// An observation reports a running child as pending and a finished one by its status,
/// and the next observation of the same child reports the same: nothing is consumed.
pub proof fn statuses_stay_observable(
    process_id: i32,
    status: Option<ProcessExitStatus>,
    dumped: bool,
    first: ExitObservation,
    second: ExitObservation,
)
    requires
        process_id > 0,
        is_exit_observation(process_id, WaitAnswer::Information(wait_report(process_id, status, dumped)), first),
        is_exit_observation(process_id, WaitAnswer::Information(wait_report(process_id, status, dumped)), second),
    ensures
        first == ExitObservation::Done(Ok(status)),
        second == first,
{
}

/// A process of a group as the host knows it.
pub enum GroupProcess {
    Live,
    /// It is over and can still be waited for.
    Finished(ProcessExitStatus),
}

/// Whether a process of the group is live.
pub open spec fn is_live(host: Map<i32, GroupProcess>, process_id: i32) -> bool {
    host.contains_key(process_id) && host[process_id] is Live
}

/// The host's answer to a question of a scan, from the processes of the group.
pub open spec fn host_answer(host: Map<i32, GroupProcess>, group: i32, action: ScanAction) -> ScanAnswer {
    match action {
        ScanAction::InspectLiveness(process_id) => ScanAnswer::Liveness(Ok(is_live(host, process_id))),
        ScanAction::InspectGroup(process_id) => ScanAnswer::Group(
            Ok(
                if host.contains_key(process_id) {
                    Some(group)
                } else {
                    None
                },
            ),
        ),
        _ => ScanAnswer::Killed(Ok(())),
    }
}

/// The processes of the group after the host did what a scan asked for: only a kill of
/// a live process changes any.
pub open spec fn host_after(host: Map<i32, GroupProcess>, action: ScanAction) -> Map<i32, GroupProcess> {
    match action {
        ScanAction::Kill(process_id) => if is_live(host, process_id) {
            host.insert(process_id, GroupProcess::Finished(ProcessExitStatus::Signaled(9)))
        } else {
            host
        },
        _ => host,
    }
}

/// The processes and the scan once every question of the scan was answered.
pub open spec fn scanned(host: Map<i32, GroupProcess>, scan: GroupScan) -> (Map<i32, GroupProcess>, GroupScan)
    decreases
            scan.order.len() - scan.position,
            match scan.phase {
                ScanPhase::Liveness => 2int,
                ScanPhase::Group => 1,
                ScanPhase::Kill => 0,
            },
{
    if scan.position >= scan.order.len() {
        (host, scan)
    } else {
        let action = scan.next_action();
        scanned(host_after(host, action), scan.answered(host_answer(host, scan.group, action)))
    }
}

proof fn lemma_scanned(host: Map<i32, GroupProcess>, scan: GroupScan)
    requires
        scan.well_formed(),
        scan.phase == ScanPhase::Liveness,
        scan.first_error is None,
    ensures
        ({
            let (after, complete) = scanned(host, scan);
            &&& complete.well_formed()
            &&& complete.position == complete.order@.len()
            &&& complete.group == scan.group
            &&& complete.first_error is None
            &&& after.dom() == host.dom()
            &&& forall|process_id: i32| #[trigger]
                host.contains_key(process_id) && host[process_id] is Finished ==> after[process_id]
                    == host[process_id]
            &&& forall|index: int|
                scan.position <= index < scan.order@.len() ==> !is_live(after, #[trigger] scan.order@[index])
            &&& forall|process_id: i32| #[trigger] is_live(after, process_id) ==> is_live(host, process_id)
            &&& complete.observed_live_member == (scan.observed_live_member || exists|index: int|
                scan.position <= index < scan.order@.len() && is_live(host, #[trigger] scan.order@[index]))
        }),
    decreases scan.order@.len() - scan.position,
{
    reveal_with_fuel(scanned, 4);
    assert(scan.order.len() == scan.order@.len());
    if scan.position < scan.order@.len() {
        let process_id = scan.order@[scan.position as int];
        let action = ScanAction::InspectLiveness(process_id);
        let asked = scan.answered(host_answer(host, scan.group, action));
        if is_live(host, process_id) {
            let confirmed = asked.answered(
                host_answer(host, scan.group, ScanAction::InspectGroup(process_id)),
            );
            let killed = host_after(host, ScanAction::Kill(process_id));
            let next = confirmed.answered(ScanAnswer::Killed(Ok(())));
            assert(next.position == scan.position + 1);
            assert(killed.dom() =~= host.dom());
            lemma_scanned(killed, next);
            assert(scanned(host, scan) == scanned(killed, next));
            assert(!is_live(killed, process_id));
            assert(next.observed_live_member);
        } else {
            lemma_scanned(host, asked);
            assert(scanned(host, scan) == scanned(host, asked));
            if exists|index: int|
                scan.position <= index < scan.order@.len() && is_live(host, #[trigger] scan.order@[index]) {
                let index = choose|index: int|
                    scan.position <= index < scan.order@.len() && is_live(host, #[trigger] scan.order@[index]);
                assert(index != scan.position);
                assert(asked.position <= index < asked.order@.len() && is_live(host, asked.order@[index]));
            }
        }
    }
}

/// One pass over a whole group whose processes were all enumerated leaves none of them
/// live, and takes no status from any that was over, the leader among them. The pass
/// counts as quiet exactly where none was live before it.
pub proof fn quiescing_leaves_no_live_member(
    host: Map<i32, GroupProcess>,
    scan: GroupScan,
    members: Seq<i32>,
    deadline_passed: bool,
    timeout_ms: u64,
    conclusion: ScanConclusion,
)
    requires
        scan.begins(scan.group, ProcessGroupSelection::All, members),
        forall|process_id: i32| #[trigger]
            host.contains_key(process_id) ==> process_id > 0 && members.contains(process_id),
        scanned(host, scan).1.is_conclusion(deadline_passed, timeout_ms, conclusion),
    ensures
        ({
            let (after, complete) = scanned(host, scan);
            &&& complete.well_formed()
            &&& complete.position == complete.order@.len()
            &&& after.dom() == host.dom()
            &&& forall|process_id: i32| !#[trigger] is_live(after, process_id)
            &&& forall|process_id: i32| #[trigger]
                host.contains_key(process_id) && host[process_id] is Finished ==> after[process_id]
                    == host[process_id]
            &&& conclusion == ScanConclusion::Done(Ok(())) <==> (forall|process_id: i32|
                !#[trigger] is_live(host, process_id))
        }),
{
    lemma_scanned(host, scan);
    let (after, complete) = scanned(host, scan);
    assert forall|process_id: i32| host.contains_key(process_id) implies #[trigger] scan.order@.contains(
        process_id,
    ) by {
        lemma_scan_covers(scan.group, members, process_id);
    }
    assert forall|process_id: i32| !#[trigger] is_live(after, process_id) by {
        if is_live(after, process_id) {
            assert(scan.order@.contains(process_id));
            let index = choose|index: int| 0 <= index < scan.order@.len() && scan.order@[index] == process_id;
            assert(!is_live(after, scan.order@[index]));
        }
    }
    if exists|process_id: i32| is_live(host, process_id) {
        let process_id = choose|process_id: i32| is_live(host, process_id);
        assert(scan.order@.contains(process_id));
        let index = choose|index: int| 0 <= index < scan.order@.len() && scan.order@[index] == process_id;
        assert(is_live(host, scan.order@[index]));
        assert(complete.observed_live_member);
    }
}

proof fn lemma_scan_covers(group: i32, members: Seq<i32>, process_id: i32)
    requires
        process_id > 0,
        members.contains(process_id),
    ensures
        scan_order(group, ProcessGroupSelection::All, members).contains(process_id),
{
    let scanned = scanned_members(group, ProcessGroupSelection::All, members);
    let leader = member_filter(group, ProcessGroupSelection::All, true);
    let others = member_filter(group, ProcessGroupSelection::All, false);
    let index = choose|index: int| 0 <= index < members.len() && members[index] == process_id;
    assert(scanned[index] == process_id);
    broadcast use vstd::seq_lib::group_filter_ensures;
    let first = scanned.filter(leader);
    let rest = scanned.filter(others);
    let order = scan_order(group, ProcessGroupSelection::All, members);
    if process_id == group {
        assert(leader(scanned[index]));
        assert(first.contains(scanned[index]));
        let place = choose|place: int| 0 <= place < first.len() && first[place] == process_id;
        assert(order[place] == process_id);
    } else {
        assert(others(scanned[index]));
        assert(rest.contains(scanned[index]));
        let place = choose|place: int| 0 <= place < rest.len() && rest[place] == process_id;
        assert(order[first.len() + place] == process_id);
    }
}

/// Retiring a group again succeeds at once, and changes no process: the pass after a
/// complete one sees no live member, whatever was live before.
pub proof fn quiescing_can_be_repeated(
    host: Map<i32, GroupProcess>,
    first: GroupScan,
    second: GroupScan,
    members: Seq<i32>,
    deadline_passed: bool,
    timeout_ms: u64,
    conclusion: ScanConclusion,
)
    requires
        first.begins(first.group, ProcessGroupSelection::All, members),
        second.begins(first.group, ProcessGroupSelection::All, members),
        forall|process_id: i32| #[trigger]
            host.contains_key(process_id) ==> process_id > 0 && members.contains(process_id),
        scanned(scanned(host, first).0, second).1.is_conclusion(deadline_passed, timeout_ms, conclusion),
    ensures
        conclusion == ScanConclusion::Done(Ok(())),
        scanned(scanned(host, first).0, second).0 == scanned(host, first).0,
{
    let (after, complete) = scanned(host, first);
    let report = if complete.first_error is Some {
        ScanConclusion::Done(Err(complete.first_error->Some_0))
    } else if !complete.observed_live_member {
        ScanConclusion::Done(Ok(()))
    } else {
        ScanConclusion::Rescan
    };
    quiescing_leaves_no_live_member(host, first, members, false, timeout_ms, report);
    quiescing_leaves_no_live_member(after, second, members, deadline_passed, timeout_ms, conclusion);
    let again = scanned(after, second).0;
    assert forall|process_id: i32| after.contains_key(process_id) implies again[process_id]
        == #[trigger] after[process_id] by {
        assert(!is_live(after, process_id));
    }
    assert(again =~= after);
}

/// A pass that ends in success looked at every selected member and was told of each that
/// it is not live, whatever the host did meanwhile.
pub proof fn success_needs_every_member_quiet(
    scan: GroupScan,
    answers: Seq<ScanAnswer>,
    deadline_passed: bool,
    timeout_ms: u64,
)
    requires
        scan.well_formed(),
        scan.phase == ScanPhase::Liveness,
        answers_fit(scan, answers),
        after_answers(scan, answers).position == scan.order@.len(),
        after_answers(scan, answers).is_conclusion(deadline_passed, timeout_ms, ScanConclusion::Done(Ok(()))),
    ensures
        answers.len() == scan.order@.len() - scan.position,
        forall|index: int|
            0 <= index < answers.len() ==> #[trigger] answers[index] == ScanAnswer::Liveness(Ok(false)),
    decreases answers.len(),
{
    lemma_answers_keep_trouble(scan, answers);
    if answers.len() > 0 {
        let next = scan.answered(answers[0]);
        lemma_answers_keep_trouble(next, answers.skip(1));
        assert(answers[0] == ScanAnswer::Liveness(Ok(false)));
        success_needs_every_member_quiet(next, answers.skip(1), deadline_passed, timeout_ms);
        assert forall|index: int| 0 <= index < answers.len() implies #[trigger] answers[index]
            == ScanAnswer::Liveness(Ok(false)) by {
            if index > 0 {
                assert(answers.skip(1)[index - 1] == answers[index]);
            }
        }
    }
}

/// Whether each answer belongs to the question that is open when it comes.
pub open spec fn answers_fit(scan: GroupScan, answers: Seq<ScanAnswer>) -> bool
    decreases answers.len(),
{
    answers.len() > 0 ==> scan.expects(answers[0]) && answers_fit(scan.answered(answers[0]), answers.skip(1))
}

/// The scan after the answers, in order.
pub open spec fn after_answers(scan: GroupScan, answers: Seq<ScanAnswer>) -> GroupScan
    decreases answers.len(),
{
    if answers.len() == 0 {
        scan
    } else {
        after_answers(scan.answered(answers[0]), answers.skip(1))
    }
}

proof fn lemma_answers_keep_trouble(scan: GroupScan, answers: Seq<ScanAnswer>)
    requires
        answers_fit(scan, answers),
    ensures
        scan.observed_live_member ==> after_answers(scan, answers).observed_live_member,
        scan.first_error is Some ==> after_answers(scan, answers).first_error is Some,
        after_answers(scan, answers).order == scan.order,
    decreases answers.len(),
{
    if answers.len() > 0 {
        lemma_answers_keep_trouble(scan.answered(answers[0]), answers.skip(1));
    }
}

/// A number identifies a process exactly where it is positive and fits the host's own
/// type, and is then kept.
pub proof fn process_ids_are_positive(process_id: u32)
    ensures
        native_process_id(process_id) is Some <==> 0 < process_id <= 0x7fff_ffff,
        native_process_id(process_id) matches Some(native) ==> native == process_id,
{
}

/// A wait tells a child of its own from any other, a normal exit from a death by a
/// signal, and either from a stop or a continuation.
pub proof fn waits_tell_exits_apart(process_id: i32, information: WaitInformation, outcome: WaitOutcome)
    requires
        is_wait_outcome(process_id, information, outcome),
    ensures
        outcome is Pending <==> information.process_id == 0,
        information.process_id != 0 && information.process_id != process_id ==> outcome is Failed,
        outcome matches WaitOutcome::Exited(status) ==> information.process_id == process_id && match status {
            ProcessExitStatus::Exited(code) => information.code == 1 && code == information.status,
            ProcessExitStatus::Signaled(signal) => (information.code == 2 || information.code == 3) && signal
                == information.status,
        },
        information.process_id == process_id && process_id != 0 ==> {
            &&& outcome is Exited <==> information.code == 1 || information.code == 2 || information.code == 3
            &&& outcome is ConsumeNotification <==> information.code == 5 || information.code == 6
        },
{
}

/// An interrupted wait is repeated; any other answer ends the observation or is a stop or
/// continuation of the child, which is consumed first.
pub proof fn observations_end_with_their_answer(process_id: i32, answer: WaitAnswer, observation: ExitObservation)
    requires
        is_exit_observation(process_id, answer, observation),
    ensures
        observation is Retry <==> (answer matches WaitAnswer::Failed(failure) && failure.kind
            == IoErrorKind::Interrupted),
        answer matches WaitAnswer::Failed(failure) ==> (failure.kind != IoErrorKind::Interrupted ==> observation
            == ExitObservation::Done(Err(failure))),
        answer matches WaitAnswer::Information(information) ==> {
            &&& information.process_id == 0 ==> observation == ExitObservation::Done(Ok(None))
            &&& information.process_id == process_id && process_id != 0 ==> {
                &&& information.code == 1 ==> observation == ExitObservation::Done(
                    Ok(Some(ProcessExitStatus::Exited(information.status))),
                )
                &&& information.code == 2 || information.code == 3 ==> observation == ExitObservation::Done(
                    Ok(Some(ProcessExitStatus::Signaled(information.status))),
                )
                &&& information.code == 5 || information.code == 6 <==> observation is ConsumeNotification
            }
            &&& information.process_id != 0 && information.process_id != process_id ==> (observation matches
                ExitObservation::Done(done) && done is Err)
        },
{
}

/// A blocking wait gives the status that was observed, and nothing in its place.
pub proof fn blocking_waits_need_a_status(
    observed: Result<Option<ProcessExitStatus>, IoFailure>,
    awaited: Result<ProcessExitStatus, IoFailure>,
)
    requires
        is_awaited_status(observed, awaited),
    ensures
        awaited matches Ok(status) ==> observed == Ok::<Option<ProcessExitStatus>, IoFailure>(Some(status)),
        observed matches Ok(Some(status)) ==> awaited == Ok::<ProcessExitStatus, IoFailure>(status),
        observed matches Ok(None) ==> (awaited matches Err(error) && error.kind == IoErrorKind::WouldBlock),
        observed matches Err(failure) ==> awaited == Err::<ProcessExitStatus, IoFailure>(failure),
{
}

/// Only a stop or a continuation of the child itself is consumed.
pub proof fn only_notifications_are_consumed(process_id: i32, information: WaitInformation)
    ensures
        notification_error(process_id, information) is None <==> information.process_id == 0 || (
        information.process_id == process_id && (information.code == 5 || information.code == 6)),
{
}

/// An enumeration gives the identifiers that the host wrote, never a filled buffer, which
/// may hide members: such a one is repeated with twice the places. A group that is gone
/// has no members.
pub proof fn listings_hide_no_member(listing: GroupListing, outcome: ListingOutcome)
    requires
        is_listing_outcome(listing, outcome),
    ensures
        outcome matches ListingOutcome::Members(members) ==> {
            &&& members@.len() < listing.process_ids@.len() || members@.len() == 0
            &&& members@.is_prefix_of(listing.process_ids@)
            &&& members@.len() == listing.count
            &&& listing.count == 0 && listing.errno != 0 ==> listing.errno == 3
        },
        outcome matches ListingOutcome::Grow(places) ==> places == 2 * listing.process_ids@.len() && listing.count
            >= listing.process_ids@.len(),
        0 < listing.count < listing.process_ids@.len() ==> outcome is Members,
        listing.count < 0 ==> outcome is HostError || outcome is Failed,
        outcome matches ListingOutcome::HostError(errno) ==> errno == listing.errno && errno != 0,
        listing.count == 0 && listing.errno == 3 ==> outcome is Members,
{
}

/// A process is a live member exactly where the host's whole answer places it in the
/// group and it is no zombie. One that is gone is none.
pub proof fn live_members_are_in_the_group(process_group_id: i32, state: ProcessState, liveness: Liveness)
    requires
        process_group_id > 0,
        is_liveness(process_group_id, state, liveness),
    ensures
        liveness == Liveness::Known(true) <==> state.written != 0 && state.written == state.expected
            && state.process_group_id == process_group_id && state.status != 5,
        liveness == Liveness::Known(false) <==> (state.written == 0 && state.errno == 3) || (state.written != 0
            && state.written == state.expected && (state.process_group_id != process_group_id || state.status == 5)),
        liveness matches Liveness::HostError(errno) ==> errno == state.errno && errno != 0 && state.written == 0,
{
}

/// A process that is gone has no group and needs no signal; every other failure of the
/// host is kept.
pub proof fn missing_processes_are_no_failure(answer: i32, errno: i32)
    ensures
        reported_group(answer, errno) is Err <==> answer < 0 && errno != 3,
        reported_group(answer, errno) matches Ok(group) ==> (group is Some <==> answer >= 0) && (group is Some
            ==> group == Some(answer)),
        reported_group(answer, errno) matches Err(error) ==> error == errno,
        signal_verdict(answer, errno) is Err <==> answer == -1 && errno != 3,
        signal_verdict(answer, errno) matches Err(error) ==> error == errno,
{
}

/// The retirement of a whole group spares none of its members, that of a group without
/// one of them spares exactly it, and only where it is a member. After the signal to the
/// group, only the host's refusal of it leads on to its members.
pub proof fn retirements_spare_the_excluded_only(
    process_group_id: u32,
    excluded_process_id: u32,
    group_of_excluded: Result<Option<i32>, IoFailure>,
    whole: Result<(i32, ProcessGroupSelection), IoFailure>,
    partial: Result<(i32, ProcessGroupSelection), IoFailure>,
    signalled: Result<bool, IoFailure>,
    process_id: i32,
)
    requires
        is_whole_group(process_group_id, whole),
        is_group_without(process_group_id, excluded_process_id, group_of_excluded, partial),
    ensures
        whole is Ok <==> 0 < process_group_id <= 0x7fff_ffff,
        whole matches Ok((group, selection)) ==> group == process_group_id && (selection.selects(process_id)
            <==> process_id > 0),
        partial is Ok <==> {
            &&& 0 < process_group_id <= 0x7fff_ffff
            &&& 0 < excluded_process_id <= 0x7fff_ffff
            &&& group_of_excluded matches Ok(Some(current)) && current == process_group_id
        },
        partial matches Ok((group, selection)) ==> group == process_group_id && (selection.selects(process_id)
            <==> process_id > 0 && process_id != excluded_process_id),
        group_signal_verdict(signalled) is Ok <==> signalled is Ok || signalled->Err_0.kind
            == IoErrorKind::PermissionDenied,
        group_signal_verdict(signalled) matches Err(error) ==> signalled == Err::<bool, IoFailure>(error),
{
}

proof fn lemma_filtered(members: Seq<i32>, kept: spec_fn(i32) -> bool, process_id: i32)
    ensures
        members.filter(kept).contains(process_id) <==> members.contains(process_id) && kept(process_id),
{
    if members.filter(kept).contains(process_id) {
        let index = choose|index: int|
            0 <= index < members.filter(kept).len() && members.filter(kept)[index] == process_id;
        members.lemma_filter_pred(kept, index);
        members.lemma_filter_contains_rev(kept, process_id);
    }
    if members.contains(process_id) && kept(process_id) {
        let index = choose|index: int| 0 <= index < members.len() && members[index] == process_id;
        members.lemma_filter_contains(kept, index);
    }
}

/// A pass looks at each selected member that was enumerated, at the leader where the
/// whole group is to go, and at nothing else.
pub proof fn scans_look_at_the_selected_members(
    group: i32,
    selection: ProcessGroupSelection,
    members: Seq<i32>,
    process_id: i32,
)
    ensures
        scan_order(group, selection, members).contains(process_id) <==> selection.selects(process_id) && (
        members.contains(process_id) || (selection is All && process_id == group)),
{
    let scanned = scanned_members(group, selection, members);
    let leaders = scanned.filter(member_filter(group, selection, true));
    let others = scanned.filter(member_filter(group, selection, false));
    let order = scan_order(group, selection, members);
    assert(scanned.contains(process_id) <==> members.contains(process_id) || (selection is All && process_id == group)) by {
        if selection is All && !members.contains(group) {
            assert(members.push(group)[members.len() as int] == group);
            if members.contains(process_id) {
                let index = choose|index: int| 0 <= index < members.len() && members[index] == process_id;
                assert(members.push(group)[index] == process_id);
            }
        }
    }
    lemma_filtered(scanned, member_filter(group, selection, true), process_id);
    lemma_filtered(scanned, member_filter(group, selection, false), process_id);
    if leaders.contains(process_id) {
        let index = choose|index: int| 0 <= index < leaders.len() && leaders[index] == process_id;
        assert(order[index] == process_id);
    }
    if others.contains(process_id) {
        let index = choose|index: int| 0 <= index < others.len() && others[index] == process_id;
        assert(order[leaders.len() + index] == process_id);
    }
    if order.contains(process_id) {
        let index = choose|index: int| 0 <= index < order.len() && order[index] == process_id;
        if index < leaders.len() {
            assert(leaders[index] == process_id);
        } else {
            assert(others[index - leaders.len()] == process_id);
        }
    }
}

} // verus!
