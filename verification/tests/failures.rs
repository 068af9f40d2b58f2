use codex_sandbox::process::{reap_root_process_after_termination, ProcessCompletion, SandboxExitStatus};
use codex_sandbox::native::{NativePath, NativeString};
use codex_sandbox::types::{CommandSpec, SandboxPolicy, SandboxRequest, SandboxStdioMode};
use codex_sandbox::windows::embedding::process::{
    StandardStream, WindowsSandboxEmbeddingProcessHandle, WindowsSandboxEmbeddingStdioMode,
};
use codex_sandbox::windows::failure::Failure;
use codex_sandbox::windows::firewall::configure::{rule_configuration_error, rule_operation_failure, RuleOperation};
use codex_sandbox::windows::firewall::policy_state::{policy_access_failure, PolicyAccess};
use codex_sandbox::windows::leases::policy_mutex_failure;
use codex_sandbox::windows::product::{sandbox_name, ProductSelection, WindowsSandboxProduct};
use codex_sandbox::windows::setup_containment::{abandoned_tree_failure, setup_termination_failure};
use codex_sandbox::windows::setup_failure::SetupErrorCode;
use codex_sandbox::windows::standalone::client::{
    commit_not_sent, credentials_unavailable, Observation, Readiness, ReadyProgress, WindowsSandboxStandaloneProcess,
};
use codex_sandbox::windows::standalone::compatibility::{query_start_failure, WindowsSandboxStandaloneHelperKind};
use codex_sandbox::windows::standalone::outcome::{control_failure_outcome, WindowsSandboxStandaloneRootOutcome};
use codex_sandbox::windows::standalone::process_security::{token_user_failure, TokenUserStep};
use codex_sandbox::windows::standalone::setup::WindowsSandboxStandaloneSetupState;
use codex_sandbox::windows::standalone::setup_flow::{
    refresh_windows_sandbox_standalone_with_policy_lease, HostEvent, SetupStage, SetupStep,
};
use codex_sandbox::windows::standalone::wire::{frame_read_failure, malformed_frame};

fn path(text: &str) -> NativePath {
    NativePath { text: NativeString::from_text(text), absolute: true, components: Vec::new() }
}

#[test]
fn failures_chain_their_causes() {
    let failure = Failure::new("denied").within("open the pipe").within("start the helper");
    assert_eq!(failure.message, "start the helper");
    assert_eq!(failure.chain(), "start the helper: open the pipe: denied");
    assert_eq!(Failure::new("denied").chain(), "denied");
}

#[test]
fn setup_failures_carry_their_codes() {
    let failure = policy_access_failure(PolicyAccess::InitializeCom, "E_FAIL");
    assert_eq!(failure.code, SetupErrorCode::HelperFirewallComInitFailed);
    assert!(failure.message.contains("E_FAIL"));
    let failure = policy_access_failure(PolicyAccess::ListRules, "E_FAIL");
    assert_eq!(failure.code, SetupErrorCode::HelperFirewallPolicyAccessFailed);
    let failure = rule_operation_failure(RuleOperation::Add, "E_FAIL");
    assert_eq!(failure.code, SetupErrorCode::HelperFirewallRuleCreateOrAddFailed);
    assert!(failure.message.contains("E_FAIL"));
    assert!(rule_configuration_error("Direction", "E_FAIL").message.contains("Direction"));
}

#[test]
fn host_errors_are_kept() {
    assert!(policy_mutex_failure(5).chain().contains('5'));
    assert!(setup_termination_failure("E1").chain().contains("E1"));
    assert!(abandoned_tree_failure(Failure::new("E2")).chain().contains("E2"));
    assert!(token_user_failure(TokenUserStep::QueryUser, 122).chain().contains("122"));
    let start = query_start_failure(&path(r"C:\setup.exe"), WindowsSandboxStandaloneHelperKind::Setup, "E3");
    assert!(start.chain().contains(r"C:\setup.exe") && start.chain().contains("E3"));
    assert!(frame_read_failure(0, "E4").chain().contains("E4"));
    assert_ne!(frame_read_failure(2, "E4").message, frame_read_failure(0, "E4").message);
    assert!(malformed_frame("E5").chain().contains("E5"));
    assert_eq!(commit_not_sent(Failure::new("closed")).chain(), "commit standalone target launch: closed");
    assert!(!credentials_unavailable().message.is_empty());
}

#[test]
fn unsent_requests_end_the_observation() {
    let mut observation = Observation::new();
    observation.spawn_not_sent(&Failure::new("pipe closed"));
    assert!(matches!(observation.ready, Readiness::Failed(_)));
    assert!(observation.try_outcome().is_none());
    assert!(!Observation::closed_early().message.is_empty());
    let outcome = control_failure_outcome("lost");
    assert!(matches!(outcome.target, WindowsSandboxStandaloneRootOutcome::Unknown { .. }));
    assert!(!outcome.retirement.complete);
}

#[test]
fn launches_release_their_lease_once() {
    let mut process = WindowsSandboxStandaloneProcess::new();
    assert!(process.lease_held && process.release_policy_lease());
    assert!(!process.release_policy_lease());
    process.fail_safe_retire();
    assert!(!process.control_open);
    assert!(process.commit_launch().is_err());
    let mut late = WindowsSandboxStandaloneProcess::new();
    assert!(matches!(late.wait_ready(true), ReadyProgress::TimedOut(_)));
}

#[test]
fn a_leased_refresh_does_not_lease_again() {
    let step = |stage, event| refresh_windows_sandbox_standalone_with_policy_lease(stage, event);
    assert!(matches!(
        step(
            SetupStage::InspectState,
            HostEvent::Inspected(WindowsSandboxStandaloneSetupState::Ready)
        ),
        SetupStep::Perform(SetupStage::BuildPayload)
    ));
    assert!(matches!(
        step(SetupStage::BuildPayload, HostEvent::Succeeded),
        SetupStep::Perform(SetupStage::RunSetup)
    ));
}

#[test]
fn names_follow_the_product() {
    let mut selection = ProductSelection::new();
    assert!(WindowsSandboxProduct::Console.initialize(&mut selection).is_ok());
    assert!(WindowsSandboxProduct::Console.initialize(&mut selection).is_ok());
    let named = sandbox_name(&mut selection, "CodexSandboxOffline");
    assert_eq!(named, WindowsSandboxProduct::Console.name("CodexSandboxOffline"));
    assert!(!named.to_lowercase().contains("codex"));
    assert_eq!(WindowsSandboxProduct::Codex.name("CodexSandboxOffline"), "CodexSandboxOffline");
}

#[test]
fn small_conveniences_do_what_they_say() {
    let command = || CommandSpec::new(path("/bin/true"), path("/"), Vec::new());
    let open = SandboxRequest::new(command(), SandboxPolicy::host_read_only()).stdin_open();
    assert_eq!(open.stdio.stdin, SandboxStdioMode::Pipe);
    let closed = open.stdin_closed();
    assert_eq!(closed.stdio.stdin, SandboxStdioMode::Null);
    assert_eq!(closed.stdio.stdout, SandboxStdioMode::Pipe);
    assert!(reap_root_process_after_termination(&ProcessCompletion::Running, false));
    assert!(!reap_root_process_after_termination(&ProcessCompletion::Running, true));
    let over = ProcessCompletion::Exited(SandboxExitStatus::from_code(0));
    assert!(!reap_root_process_after_termination(&over, false));
    assert_eq!(StandardStream::Stdin.native_id(), 0xffff_fff6);
    let mut session = WindowsSandboxEmbeddingProcessHandle::new(WindowsSandboxEmbeddingStdioMode::Pipe);
    session.close_stdin_without_waiting();
    assert!(!session.stdin_open);
}
