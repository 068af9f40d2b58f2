use codex_sandbox::error::{IoErrorKind, IoFailure, SandboxError, SandboxFeature};
use codex_sandbox::lifetime::{
    completion_channel_closed, contain_unretired_root, launch_failure, windows_completion, LifetimeRetirement,
    ProcessOperation, ReleaseAction,
};
use codex_sandbox::process::{
    close_inherited_fds_before_exec, piped_stream, pre_exec_steps, read_chunk, reap_supervised_root, spawn_unix,
    wait_step, ChildObservation, ControlAction, DescriptorCleanup, PreExecStep, ProcessCompletion, ProcessLease, ProcessSignal,
    ReapStep, RetirementAction, SandboxExitStatus, SandboxedStdin, SupervisedProcess, WaitStep, WindowsProcess,
};
use codex_sandbox::process_group::{
    after_group_signal, classify_wait, consume_non_exit_notification, kill_process_group_members_except,
    kill_process_group_until_quiescent, observe_process_exit_without_reaping, process_group_members, process_group_of,
    process_is_live_group_member, signal_outcome, try_process_exit_without_reaping, valid_process_id,
    wait_for_process_exit_without_reaping, ExitObservation, GroupListing, GroupScan, ListingOutcome, Liveness,
    ProcessExitStatus, ProcessGroupSelection, ProcessState, ScanAction, ScanAnswer, ScanConclusion, WaitAnswer,
    WaitInformation, WaitOutcome, CLD_EXITED, CLD_KILLED, CLD_STOPPED, ESRCH, SZOMB,
};
use codex_sandbox::runtime::command::HostPlatform;
use codex_sandbox::types::{SandboxBackend, SandboxLifetime, SandboxStdioMode};
use std::collections::BTreeMap;

#[test]
fn denied_group_signal_rejects_unsafe_process_group_ids() {
    for process_group_id in [0, u32::MAX] {
        let error = kill_process_group_until_quiescent(process_group_id)
            .expect_err("unsafe process group ID should be rejected");
        assert_eq!(error.kind, IoErrorKind::InvalidInput);
    }
}

#[test]
fn process_ids_fit_the_native_type() {
    assert_eq!(valid_process_id(i32::MAX as u32, "process").unwrap(), i32::MAX);
    let error = valid_process_id(i32::MAX as u32 + 1, "process").unwrap_err();
    assert_eq!(error.message, "invalid process ID");
    assert!(try_process_exit_without_reaping(0).is_err());
    assert_eq!(try_process_exit_without_reaping(12).unwrap(), 12);
}

#[test]
fn waits_tell_exits_from_notifications() {
    let information = |process_id, code, status| WaitInformation { process_id, code, status };
    assert!(matches!(classify_wait(7, information(0, 0, 0)), WaitOutcome::Pending));
    assert!(matches!(
        classify_wait(7, information(7, CLD_EXITED, 3)),
        WaitOutcome::Exited(ProcessExitStatus::Exited(3))
    ));
    assert!(matches!(
        classify_wait(7, information(7, CLD_KILLED, 9)),
        WaitOutcome::Exited(ProcessExitStatus::Signaled(9))
    ));
    assert!(matches!(classify_wait(7, information(7, CLD_STOPPED, 19)), WaitOutcome::ConsumeNotification));
    assert!(matches!(
        classify_wait(7, information(8, CLD_EXITED, 0)),
        WaitOutcome::Failed(failure) if failure.message == "waitid returned process 8 while waiting for 7"
    ));
    assert!(consume_non_exit_notification(7, information(7, CLD_STOPPED, 19)).is_ok());
    assert!(consume_non_exit_notification(7, information(7, CLD_EXITED, 0)).is_err());
    let interrupted = WaitAnswer::Failed(IoFailure::new(IoErrorKind::Interrupted, "EINTR"));
    assert!(matches!(observe_process_exit_without_reaping(7, interrupted), ExitObservation::Retry));
    assert!(matches!(
        observe_process_exit_without_reaping(7, WaitAnswer::Information(information(0, 0, 0))),
        ExitObservation::Done(Ok(None))
    ));
    assert_eq!(
        wait_for_process_exit_without_reaping(Ok(None)).unwrap_err().kind,
        IoErrorKind::WouldBlock
    );
}

#[test]
fn group_listings_grow_until_they_fit() {
    let listing = |count, errno, process_ids| GroupListing { count, errno, process_ids };
    assert!(matches!(
        process_group_members(listing(2, 0, vec![5, 6, 0, 0])),
        ListingOutcome::Members(members) if members == [5, 6]
    ));
    assert!(matches!(process_group_members(listing(2, 0, vec![5, 6])), ListingOutcome::Grow(4)));
    assert!(matches!(process_group_members(listing(0, 1, vec![0])), ListingOutcome::HostError(1)));
    let state = |written, errno, status| ProcessState { written, expected: 8, errno, process_group_id: 5, status };
    assert!(matches!(process_is_live_group_member(5, state(8, 0, 2)), Liveness::Known(true)));
    assert!(matches!(process_is_live_group_member(6, state(8, 0, 2)), Liveness::Known(false)));
    assert!(matches!(process_is_live_group_member(5, state(8, 0, SZOMB)), Liveness::Known(false)));
    assert!(matches!(process_is_live_group_member(5, state(0, ESRCH, 2)), Liveness::Known(false)));
    assert!(matches!(process_is_live_group_member(5, state(4, 0, 2)), Liveness::Failed(_)));
    assert_eq!(process_group_of(5, 0), Ok(Some(5)));
    assert_eq!(process_group_of(-1, ESRCH), Ok(None));
    assert_eq!(process_group_of(-1, 1), Err(1));
    assert_eq!(signal_outcome(0, 0), Ok(()));
    assert_eq!(signal_outcome(-1, 1), Err(1));
}

#[test]
fn scans_take_the_leader_first_and_spare_the_excluded_process() {
    let (group, selection) = kill_process_group_until_quiescent(5).unwrap();
    let scan = GroupScan::start(group, selection, vec![7, 5, 6]);
    assert_eq!(scan.order, [5, 7, 6]);
    assert!(matches!(scan.action(), ScanAction::InspectLiveness(5)));

    let (group, selection) = kill_process_group_members_except(5, 5, Ok(Some(5))).unwrap();
    assert_eq!(selection, ProcessGroupSelection::Except(5));
    let mut scan = GroupScan::start(group, selection, vec![7, 5]);
    assert_eq!(scan.order, [7]);
    scan.answer(ScanAnswer::Liveness(Ok(true)));
    assert!(matches!(scan.action(), ScanAction::InspectGroup(7)));
    scan.answer(ScanAnswer::Group(Ok(Some(5))));
    assert!(matches!(scan.action(), ScanAction::Kill(7)));
    scan.answer(ScanAnswer::Killed(Ok(())));
    assert!(matches!(scan.action(), ScanAction::Finish));
    assert!(matches!(scan.conclude(false, 1000), ScanConclusion::Rescan));

    let mut dead = GroupScan::start(5, ProcessGroupSelection::All, vec![5]);
    dead.answer(ScanAnswer::Liveness(Ok(false)));
    assert!(matches!(dead.conclude(false, 1000), ScanConclusion::Done(Ok(()))));
    let mut stuck = GroupScan::start(5, ProcessGroupSelection::All, vec![5]);
    stuck.answer(ScanAnswer::Liveness(Ok(true)));
    stuck.answer(ScanAnswer::Group(Ok(Some(9))));
    assert!(matches!(
        stuck.conclude(true, 1000),
        ScanConclusion::Done(Err(failure)) if failure.kind == IoErrorKind::TimedOut
    ));
    assert!(kill_process_group_members_except(5, 6, Ok(Some(9))).is_err());
    assert!(kill_process_group_members_except(5, 6, Ok(None)).is_err());
    let denied = || IoFailure::new(IoErrorKind::PermissionDenied, "EPERM");
    assert!(after_group_signal(Ok(true)).is_ok());
    assert!(after_group_signal(Err(denied())).is_ok());
    assert!(after_group_signal(Err(IoFailure::new(IoErrorKind::Other, "EIO"))).is_err());
}

#[test]
fn retirement_reports_the_agreed_status_once() {
    let mut process = SupervisedProcess::new(41);
    assert!(matches!(process.begin_retirement(), RetirementAction::Quiesce(41)));
    assert!(matches!(process.after_quiesce(Ok(())), RetirementAction::ObserveRoot(41)));
    assert!(matches!(
        process.after_root_exit(Ok(ProcessExitStatus::Signaled(9))),
        RetirementAction::Reap
    ));
    let status = SandboxExitStatus::from_native(None, Some(9));
    assert_eq!(process.after_reap(Ok(status)).ok(), Some(status));
    assert_eq!((status.code(), status.signal(), status.success()), (None, Some(9), false));
    assert!(matches!(process.begin_retirement(), RetirementAction::Done(Ok(again)) if again == status));

    let mut contradicted = SupervisedProcess::new(42);
    assert!(matches!(
        contradicted.after_root_exit(Ok(ProcessExitStatus::Exited(0))),
        RetirementAction::Reap
    ));
    let error = contradicted.after_reap(Ok(SandboxExitStatus::from_code(1))).unwrap_err();
    assert!(matches!(
        error,
        SandboxError::Io { source, .. } if source.message
            == "observed root status SandboxExitStatus { code: Some(0), signal: None } contradicted reaped status \
                SandboxExitStatus { code: Some(1), signal: None }"
    ));
    let failed = SupervisedProcess::new(43);
    assert!(matches!(
        failed.after_quiesce(Err(IoFailure::new(IoErrorKind::TimedOut, "live"))),
        RetirementAction::Done(Err(SandboxError::Io { operation: "quiescing sandboxed process group", .. }))
    ));
    assert!(matches!(reap_supervised_root(ChildObservation::Running, false), ReapStep::Continue));
    assert!(matches!(reap_supervised_root(ChildObservation::Running, true), ReapStep::Done(Err(_))));
}

/// Retires a group on a host that kills what it is asked to, and counts the passes.
fn quiesce(group: u32, processes: &mut BTreeMap<i32, Option<ProcessExitStatus>>) -> (usize, Result<(), IoFailure>) {
    let (group, selection) = kill_process_group_until_quiescent(group).unwrap();
    let mut passes = 0;
    loop {
        passes += 1;
        let mut scan = GroupScan::start(group, selection, processes.keys().copied().collect());
        loop {
            let answer = match scan.action() {
                ScanAction::InspectLiveness(process_id) => {
                    ScanAnswer::Liveness(Ok(matches!(processes.get(&process_id), Some(None))))
                }
                ScanAction::InspectGroup(process_id) => {
                    ScanAnswer::Group(Ok(processes.contains_key(&process_id).then_some(group)))
                }
                ScanAction::Kill(process_id) => {
                    processes.insert(process_id, Some(ProcessExitStatus::Signaled(9)));
                    ScanAnswer::Killed(Ok(()))
                }
                ScanAction::Finish => break,
            };
            scan.answer(answer);
        }
        match scan.conclude(false, 1000) {
            ScanConclusion::Done(result) => return (passes, result),
            ScanConclusion::Rescan => {}
        }
    }
}

#[test]
fn quiescing_keeps_the_status_of_a_finished_leader() {
    let mut processes = BTreeMap::from([(5, Some(ProcessExitStatus::Exited(0))), (7, None)]);
    let (passes, result) = quiesce(5, &mut processes);
    assert!(result.is_ok());
    assert_eq!(passes, 2);
    let (passes, result) = quiesce(5, &mut processes);
    assert!(result.is_ok());
    assert_eq!(passes, 1);
    assert_eq!(processes[&7], Some(ProcessExitStatus::Signaled(9)));
    assert_eq!(processes[&5], Some(ProcessExitStatus::Exited(0)));
}

#[test]
fn observed_statuses_stay_observable() {
    for (code, status, expected) in
        [(CLD_EXITED, 23, ProcessExitStatus::Exited(23)), (CLD_KILLED, 9, ProcessExitStatus::Signaled(9))]
    {
        for _ in 0..2 {
            let answer = WaitAnswer::Information(WaitInformation { process_id: 7, code, status });
            assert!(matches!(
                observe_process_exit_without_reaping(7, answer),
                ExitObservation::Done(Ok(Some(observed))) if observed == expected
            ));
        }
        let mut process = SupervisedProcess::new(7);
        assert!(matches!(process.after_quiesce(Ok(())), RetirementAction::ObserveRoot(7)));
        assert!(matches!(process.after_root_exit(Ok(expected)), RetirementAction::Reap));
        let reaped = SandboxExitStatus::from_observed(expected);
        assert!(matches!(process.after_reap(Ok(reaped)), Ok(retired) if retired == reaped));
    }
}

#[test]
fn termination_keeps_an_observed_status() {
    let mut process =
        spawn_unix(HostPlatform::Macos, SandboxBackend::MacosSeatbelt, SandboxLifetime::SupervisedProcessTree, Some(41))
            .unwrap_or_else(|_| panic!("supervision is available"));
    assert!(matches!(process.try_root_status(ChildObservation::Running), Ok(None)));
    let status = SandboxExitStatus::from_code(3);
    assert!(matches!(process.try_root_status(ChildObservation::Exited(status)), Ok(Some(seen)) if seen == status));
    for _ in 0..2 {
        assert!(matches!(
            process.terminate(ChildObservation::Running),
            ControlAction::QuiesceGroup { process_group_id: 41 }
        ));
        assert!(matches!(process.try_root_status(ChildObservation::Running), Ok(Some(seen)) if seen == status));
    }
    if let ProcessLease::Supervised(supervised) = &mut process.process {
        assert!(supervised.after_reap(Ok(status)).is_ok());
    }
    assert!(matches!(process.terminate(ChildObservation::Running), ControlAction::Nothing));
    assert!(matches!(process.try_root_status(ChildObservation::Running), Ok(Some(seen)) if seen == status));
}

#[test]
fn supervised_trees_are_controlled_as_groups() {
    let mut process =
        spawn_unix(HostPlatform::Macos, SandboxBackend::MacosSeatbelt, SandboxLifetime::SupervisedProcessTree, Some(41))
            .unwrap_or_else(|_| panic!("supervision is available"));
    assert!(matches!(
        process.interrupt(ChildObservation::Running),
        Ok(ControlAction::InterruptGroup { process_group_id: 41 })
    ));
    assert!(matches!(
        process.terminate(ChildObservation::Running),
        ControlAction::QuiesceGroup { process_group_id: 41 }
    ));
    assert!(matches!(process.process, ProcessLease::Supervised(_)));
    assert!(matches!(
        spawn_unix(
            HostPlatform::Linux,
            SandboxBackend::LinuxBubblewrap,
            SandboxLifetime::SupervisedProcessTree,
            Some(41)
        ),
        Err(SandboxError::UnsupportedPolicy { feature: SandboxFeature::ProcessTreeTermination, .. })
    ));
    assert!(matches!(
        spawn_unix(HostPlatform::Linux, SandboxBackend::LinuxBubblewrap, SandboxLifetime::BackendDefault, None),
        Err(SandboxError::Spawn { .. })
    ));
}

#[test]
fn waits_end_with_the_completion() {
    assert!(matches!(wait_step(&ProcessCompletion::Running), WaitStep::Continue));
    let status = SandboxExitStatus::from_code(0);
    assert!(matches!(wait_step(&ProcessCompletion::Exited(status)), WaitStep::Done(Ok(done)) if done.success()));
    let failure = IoFailure::new(IoErrorKind::Other, "lost");
    assert!(matches!(wait_step(&ProcessCompletion::Failed(failure)), WaitStep::Done(Err(_))));
}

#[test]
fn children_are_sealed_off_before_they_start() {
    assert_eq!(
        pre_exec_steps(HostPlatform::Linux, SandboxLifetime::BackendDefault),
        [PreExecStep::SetParentDeathSignal, PreExecStep::CloseInheritedDescriptors]
    );
    assert_eq!(
        pre_exec_steps(HostPlatform::Macos, SandboxLifetime::SupervisedProcessTree),
        [PreExecStep::DetachFromTty, PreExecStep::CloseInheritedDescriptors]
    );
    assert_eq!(close_inherited_fds_before_exec(HostPlatform::Linux).ok(), Some(DescriptorCleanup::CloseRange(3)));
    assert_eq!(close_inherited_fds_before_exec(HostPlatform::Macos).ok(), Some(DescriptorCleanup::CloseAll));
    assert!(close_inherited_fds_before_exec(HostPlatform::Other).is_err());
}

#[test]
fn streams_exist_for_pipes_only_and_close_once() {
    assert_eq!(piped_stream(SandboxStdioMode::Pipe, 1), Some(1));
    assert_eq!(piped_stream(SandboxStdioMode::Inherit, 1), None);
    assert_eq!(piped_stream(SandboxStdioMode::Null, 1), None);
    let mut stdin = SandboxedStdin::new(7);
    assert!(matches!(stdin.writer(), Ok(7)));
    assert_eq!((stdin.close(), stdin.close()), (Some(7), None));
    assert!(matches!(
        stdin.writer(),
        Err(SandboxError::Io { source, .. }) if source.kind == IoErrorKind::BrokenPipe
    ));
    assert_eq!(read_chunk(vec![1, 2, 3], 2), Some(vec![1, 2]));
    assert_eq!(read_chunk(vec![1, 2, 3], 0), None);
}

#[test]
fn lifetimes_are_retired_and_released_as_they_are_owned() {
    let launch = |lifetime| {
        spawn_unix(HostPlatform::Macos, SandboxBackend::MacosSeatbelt, lifetime, Some(41))
            .unwrap_or_else(|_| panic!("the launch is possible"))
    };
    let mut root = launch(SandboxLifetime::BackendDefault);
    assert!(matches!(root.retire(), LifetimeRetirement::Wait));
    assert!(matches!(root.wait_root(ChildObservation::Running), WaitStep::Continue));
    assert!(matches!(root.process.release(ChildObservation::Running), ReleaseAction::KillAndReap(41)));
    let exited = ChildObservation::Exited(SandboxExitStatus::from_code(2));
    assert!(matches!(root.wait_root(exited), WaitStep::Done(Ok(status)) if status.code() == Some(2)));
    assert!(matches!(root.process.release(ChildObservation::Running), ReleaseAction::Nothing));

    let tree = launch(SandboxLifetime::SupervisedProcessTree);
    assert!(matches!(tree.retire(), LifetimeRetirement::Tree(RetirementAction::Quiesce(41))));
    assert!(matches!(
        contain_unretired_root(41),
        ControlAction::SignalProcess { process_id: 41, signal: ProcessSignal::Stop }
    ));

    let windows = |lifetime| {
        ProcessLease::Windows(WindowsProcess { lifetime, completion: ProcessCompletion::Running, exit_code: None })
    };
    assert!(matches!(windows(SandboxLifetime::BackendDefault).retire(), LifetimeRetirement::Wait));
    assert!(matches!(
        windows(SandboxLifetime::SupervisedProcessTree).retire(),
        LifetimeRetirement::TerminateAndWait
    ));
    assert!(matches!(
        windows(SandboxLifetime::BackendDefault).release(ChildObservation::Running),
        ReleaseAction::TerminateJob
    ));
    assert!(matches!(windows_completion(Some(7)), ProcessCompletion::Exited(status) if status.code() == Some(7)));
    assert!(matches!(
        windows_completion(None),
        ProcessCompletion::Failed(failure) if failure.kind == IoErrorKind::BrokenPipe
    ));
}

#[test]
fn host_failures_are_named_after_the_operation() {
    let failure = || IoFailure::new(IoErrorKind::Other, "EIO");
    assert!(matches!(ProcessOperation::Interrupt.conclude(Ok(3)), Ok(3)));
    for (operation, name) in [
        (ProcessOperation::Interrupt, "interrupting sandboxed process"),
        (ProcessOperation::Terminate, "terminating sandboxed process"),
        (ProcessOperation::WriteStdin, "writing sandboxed process stdin"),
        (ProcessOperation::CloseStdin, "closing sandboxed process stdin"),
        (ProcessOperation::ReadStdout, "reading sandboxed process stdout"),
        (ProcessOperation::ReadStderr, "reading sandboxed process stderr"),
        (ProcessOperation::TerminateGroupMembers, "terminating current sandbox process-group members"),
    ] {
        let outcome: Result<(), SandboxError> = operation.conclude(Err(failure()));
        assert!(matches!(
            outcome,
            Err(SandboxError::Io { operation, source }) if operation == name && source.message == "EIO"
        ));
    }
    assert!(completion_channel_closed().message().contains("process completion channel closed"));
    assert!(matches!(
        launch_failure(SandboxBackend::WindowsRestrictedToken, "denied"),
        SandboxError::Spawn { message, source: Some(source), .. }
            if message == "the restricted-token backend rejected the process" && source == "denied"
    ));
    assert!(launch_failure(SandboxBackend::LinuxBubblewrap, "ENOENT")
        .message()
        .contains("failed to launch sandboxed process"));
}
