//! Setup state of a standalone sandbox.

use crate::model;
use crate::model::Step;
use crate::native::{chars_of, NativePath, NativeString, NativeText, PathModel};
use crate::text::{concat2, concat3, quote};
use crate::utf16::decode_utf16;
use crate::windows::failure::{Failure, FailureModel};
use crate::windows::namespace::WindowsSandboxPolicyNamespace;
use crate::windows::standalone::command::is_absolute_local_disk_path;
use vstd::prelude::*;
use vstd::string::*;

verus! {

pub const SETUP_EXE_FILENAME: &'static str = "codex-windows-sandbox-setup.exe";

pub const COMMAND_RUNNER_FILENAME: &'static str = "codex-command-runner.exe";

pub const WINDOWS_SANDBOX_STANDALONE_VERIFY_NETWORK_SWITCH: &'static str = "--standalone-verify-network-policy";

/// Exact helper executables staged by the embedding application.
#[derive(Clone, Debug, PartialEq, Eq)]
pub struct WindowsSandboxStandaloneResources {
    pub setup_executable: NativePath,
    pub command_runner_executable: NativePath,
}

/// Windows identity selected by the normalized network policy.
#[derive(Clone, Copy, Debug, PartialEq, Eq, Structural)]
pub enum WindowsSandboxStandaloneNetworkIdentity {
    /// The WFP-confined account used for denied or managed-proxy networking.
    Offline,
    /// The ordinary sandbox account used for unrestricted networking.
    Online,
}

impl WindowsSandboxStandaloneNetworkIdentity {
    /// The identity's account in the standalone namespace.
    pub open spec fn username(self) -> Seq<char> {
        match self {
            WindowsSandboxStandaloneNetworkIdentity::Offline => WindowsSandboxPolicyNamespace::McpConsole.offline_text(),
            WindowsSandboxStandaloneNetworkIdentity::Online => WindowsSandboxPolicyNamespace::McpConsole.online_text(),
        }
    }
}

/// Network-related state installed for the selected sandbox identity.
#[derive(Clone, Debug, PartialEq, Eq)]
pub struct WindowsSandboxStandaloneNetworkSetup {
    pub identity: WindowsSandboxStandaloneNetworkIdentity,
    pub proxy_ports: Vec<u16>,
    pub allow_local_binding: bool,
}

/// What a [`WindowsSandboxStandaloneNetworkSetup`] holds.
pub struct NetworkSetupModel {
    pub identity: WindowsSandboxStandaloneNetworkIdentity,
    pub proxy_ports: Seq<u16>,
    pub allow_local_binding: bool,
}

impl DeepView for WindowsSandboxStandaloneNetworkSetup {
    type V = NetworkSetupModel;

    open spec fn deep_view(&self) -> NetworkSetupModel {
        NetworkSetupModel {
            identity: self.identity,
            proxy_ports: self.proxy_ports@,
            allow_local_binding: self.allow_local_binding,
        }
    }
}

impl View for WindowsSandboxStandaloneNetworkSetup {
    type V = NetworkSetupModel;

    open spec fn view(&self) -> NetworkSetupModel {
        self.deep_view()
    }
}

/// Optional normalized root overrides applied by the Windows policy translation.
#[derive(Clone, Debug, PartialEq, Eq)]
pub struct WindowsSandboxStandaloneFilesystemOverrides {
    pub read_roots: Option<Vec<NativePath>>,
    pub read_roots_include_platform_defaults: bool,
    pub write_roots: Option<Vec<NativePath>>,
    pub additional_deny_read_paths: Vec<NativePath>,
    pub additional_deny_write_paths: Vec<NativePath>,
}

impl Default for WindowsSandboxStandaloneFilesystemOverrides {
    fn default() -> (result: Self)
        ensures
            result.read_roots is None,
            !result.read_roots_include_platform_defaults,
            result.write_roots is None,
            result.additional_deny_read_paths@.len() == 0,
            result.additional_deny_write_paths@.len() == 0,
    {
        WindowsSandboxStandaloneFilesystemOverrides {
            read_roots: None,
            read_roots_include_platform_defaults: false,
            write_roots: None,
            additional_deny_read_paths: Vec::new(),
            additional_deny_write_paths: Vec::new(),
        }
    }
}

/// Explicit application-owned Windows setup and ACL request.
#[derive(Clone, Debug, PartialEq, Eq)]
pub struct WindowsSandboxStandaloneSetupRequest {
    pub state_dir: NativePath,
    pub resources: WindowsSandboxStandaloneResources,
    pub command_cwd: NativePath,
    pub read_roots: Vec<NativePath>,
    pub read_roots_include_platform_defaults: bool,
    pub write_roots: Vec<NativePath>,
    pub deny_read_paths: Vec<NativePath>,
    pub deny_write_paths: Vec<NativePath>,
    pub network: WindowsSandboxStandaloneNetworkSetup,
}

/// What a [`WindowsSandboxStandaloneSetupRequest`] holds.
pub struct SetupRequestModel {
    pub state_dir: PathModel,
    pub setup_executable: PathModel,
    pub command_runner_executable: PathModel,
    pub command_cwd: PathModel,
    pub read_roots: Seq<PathModel>,
    pub read_roots_include_platform_defaults: bool,
    pub write_roots: Seq<PathModel>,
    pub deny_read_paths: Seq<PathModel>,
    pub deny_write_paths: Seq<PathModel>,
    pub network: NetworkSetupModel,
}

impl DeepView for WindowsSandboxStandaloneSetupRequest {
    type V = SetupRequestModel;

    open spec fn deep_view(&self) -> SetupRequestModel {
        SetupRequestModel {
            state_dir: self.state_dir@,
            setup_executable: self.resources.setup_executable@,
            command_runner_executable: self.resources.command_runner_executable@,
            command_cwd: self.command_cwd@,
            read_roots: self.read_roots.deep_view(),
            read_roots_include_platform_defaults: self.read_roots_include_platform_defaults,
            write_roots: self.write_roots.deep_view(),
            deny_read_paths: self.deny_read_paths.deep_view(),
            deny_write_paths: self.deny_write_paths.deep_view(),
            network: self.network@,
        }
    }
}

impl View for WindowsSandboxStandaloneSetupRequest {
    type V = SetupRequestModel;

    open spec fn view(&self) -> SetupRequestModel {
        self.deep_view()
    }
}

/// Read-only setup inspection result. Inspection never launches a helper or
/// requests elevation.
#[derive(Clone, Debug, PartialEq, Eq)]
pub enum WindowsSandboxStandaloneSetupState {
    Ready,
    AdministrativeActionRequired { reason: String },
    Unavailable { reason: String },
}

/// What a [`WindowsSandboxStandaloneSetupState`] holds.
pub enum SetupStateModel {
    Ready,
    AdministrativeActionRequired { reason: Seq<char> },
    Unavailable { reason: Seq<char> },
}

impl DeepView for WindowsSandboxStandaloneSetupState {
    type V = SetupStateModel;

    open spec fn deep_view(&self) -> SetupStateModel {
        match self {
            WindowsSandboxStandaloneSetupState::Ready => SetupStateModel::Ready,
            WindowsSandboxStandaloneSetupState::AdministrativeActionRequired {
                reason,
            } => SetupStateModel::AdministrativeActionRequired { reason: reason@ },
            WindowsSandboxStandaloneSetupState::Unavailable { reason } => SetupStateModel::Unavailable {
                reason: reason@,
            },
        }
    }
}

impl View for WindowsSandboxStandaloneSetupState {
    type V = SetupStateModel;

    open spec fn view(&self) -> SetupStateModel {
        self.deep_view()
    }
}

impl SetupStateModel {
    /// The state in diagnostics.
    pub open spec fn text(self) -> Seq<char> {
        match self {
            SetupStateModel::Ready => "Ready"@,
            SetupStateModel::AdministrativeActionRequired { reason } => "AdministrativeActionRequired { reason: "@
                + crate::text::quoted(reason) + " }"@,
            SetupStateModel::Unavailable { reason } => "Unavailable { reason: "@ + crate::text::quoted(reason)
                + " }"@,
        }
    }
}

impl WindowsSandboxStandaloneSetupState {
    /// The state in diagnostics.
    pub fn text(&self) -> (result: String)
        ensures
            result@ == self@.text(),
    {
        match self {
            WindowsSandboxStandaloneSetupState::Ready => "Ready".to_owned(),
            WindowsSandboxStandaloneSetupState::AdministrativeActionRequired { reason } => {
                let shown = quote(reason.as_str());
                concat3("AdministrativeActionRequired { reason: ", shown.as_str(), " }")
            },
            WindowsSandboxStandaloneSetupState::Unavailable { reason } => {
                let shown = quote(reason.as_str());
                concat3("Unavailable { reason: ", shown.as_str(), " }")
            },
        }
    }
}

/// Successful explicit setup operation.
#[derive(Clone, Copy, Debug, PartialEq, Eq, Structural)]
pub enum WindowsSandboxStandaloneSetupOperation {
    AlreadyReady,
    Prepared,
    Refreshed,
}

/// A character with an ASCII letter in lower case.
pub open spec fn ascii_lower(ch: char) -> char {
    if 'A' <= ch && ch <= 'Z' {
        (ch as u32 + 32) as char
    } else {
        ch
    }
}

/// Whether two texts are the same but for the case of ASCII letters.
pub open spec fn same_ignoring_ascii_case(left: Seq<char>, right: Seq<char>) -> bool {
    left.len() == right.len() && forall|index: int|
        0 <= index < left.len() ==> ascii_lower(#[trigger] left[index]) == ascii_lower(right[index])
}

fn to_ascii_lower(ch: char) -> (result: u32)
    ensures
        result == ascii_lower(ch) as u32,
{
    let code: u32 = ch as u32;
    if 'A' <= ch && ch <= 'Z' {
        proof {
            vstd::utf8::char_u32_cast(ascii_lower(ch), (code + 32) as u32);
        }
        code + 32
    } else {
        code
    }
}

fn matches_ignoring_ascii_case(left: &str, right: &str) -> (result: bool)
    ensures
        result == same_ignoring_ascii_case(left@, right@),
{
    let left_chars = chars_of(left);
    let right_chars = chars_of(right);
    if left_chars.len() != right_chars.len() {
        return false;
    }
    for index in 0..left_chars.len()
        invariant
            left_chars@ == left@,
            right_chars@ == right@,
            left_chars.len() == right_chars.len(),
            forall|i: int| 0 <= i < index ==> ascii_lower(#[trigger] left@[i]) == ascii_lower(right@[i]),
    {
        if to_ascii_lower(left_chars[index]) != to_ascii_lower(right_chars[index]) {
            assert(ascii_lower(left@[index as int]) != ascii_lower(right@[index as int]));
            return false;
        }
        proof {
            let first = ascii_lower(left@[index as int]);
            let second = ascii_lower(right@[index as int]);
            assert(first as u32 == second as u32);
        }
    }
    true
}

/// Returns whether an environment name carries setup-only Windows proxy state. The
/// state is passed under `proxy_ports_key`, and Windows ignores the case of names.
///
/// Embedders must remove these values after constructing the standalone setup
/// request and before passing the complete native environment to the target.
pub fn is_windows_sandbox_standalone_setup_only_environment_variable(key: &NativeString, proxy_ports_key: &str) -> (result: bool)
    ensures
        result == (key@ matches NativeText::Unicode(text) && same_ignoring_ascii_case(text, proxy_ports_key@)),
{
    match key {
        NativeString::Unicode(text) => matches_ignoring_ascii_case(text.as_str(), proxy_ports_key),
        _ => false,
    }
}

/// Why the setup protocol cannot take a path, if it cannot.
pub open spec fn setup_path_failure(path: PathModel, label: Seq<char>) -> Option<FailureModel> {
    if !crate::windows::standalone::command::is_local_disk_path(path) {
        Some(FailureModel::plain(label + " must be an absolute local-disk Windows path"@))
    } else if !path.text.is_unicode() {
        Some(FailureModel::plain(label + " is not valid Unicode; setup protocol version 1 rejects it"@))
    } else {
        None
    }
}

/// Checks that the setup protocol can take a path.
pub fn validate_unicode_absolute_path(path: &NativePath, label: &str) -> (result: Result<(), Failure>)
    ensures
        match setup_path_failure(path@, label@) {
            Some(expected) => result matches Err(failure) && failure@ == expected,
            None => result is Ok,
        },
{
    if !is_absolute_local_disk_path(path) {
        let message = concat2(label, " must be an absolute local-disk Windows path");
        return Err(Failure::new(message.as_str()));
    }
    if !path.is_unicode() {
        let message = concat2(label, " is not valid Unicode; setup protocol version 1 rejects it");
        return Err(Failure::new(message.as_str()));
    }
    Ok(())
}

/// What the host says of the helper executables.
#[derive(Debug)]
pub struct ResourceProbe {
    pub setup_is_file: bool,
    pub runner_is_file: bool,
    /// The directories of both executables, resolved.
    pub setup_parent: NativePath,
    pub runner_parent: NativePath,
}

/// Why a path is not that of a helper executable, if it is not.
pub open spec fn executable_failure(path: PathModel, filename: Seq<char>, label: Seq<char>, is_file: bool) -> Option<
    FailureModel,
> {
    match setup_path_failure(path, label) {
        Some(failure) => Some(failure),
        None => if path.file_name() != Some(NativeText::Unicode(filename)) {
            Some(FailureModel::plain(label + " must be named "@ + filename))
        } else if !is_file {
            Some(FailureModel::plain(label + " is missing: "@ + path.text.display()))
        } else {
            None
        },
    }
}

fn validate_executable(path: &NativePath, filename: &str, label: &str, is_file: bool) -> (result: Result<(), Failure>)
    ensures
        match executable_failure(path@, filename@, label@, is_file) {
            Some(expected) => result matches Err(failure) && failure@ == expected,
            None => result is Ok,
        },
{
    validate_unicode_absolute_path(path, label)?;
    let named = match path.file_name() {
        Some(NativeString::Unicode(name)) => crate::native::same_text(name.as_str(), filename),
        _ => false,
    };
    if !named {
        let message = concat3(label, " must be named ", filename);
        return Err(Failure::new(message.as_str()));
    }
    if !is_file {
        let shown = path.text.display();
        let message = concat3(label, " is missing: ", shown.as_str());
        return Err(Failure::new(message.as_str()));
    }
    Ok(())
}

/// Why the helper executables are not staged as they must be, if they are not.
pub open spec fn layout_failure(setup: PathModel, runner: PathModel, probe: ResourceProbe) -> Option<FailureModel> {
    let setup_failure = executable_failure(setup, SETUP_EXE_FILENAME@, "setup executable"@, probe.setup_is_file);
    let runner_failure = executable_failure(
        runner,
        COMMAND_RUNNER_FILENAME@,
        "command runner executable"@,
        probe.runner_is_file,
    );
    if setup_failure is Some {
        setup_failure
    } else if runner_failure is Some {
        runner_failure
    } else if !probe.setup_parent@.same_path(probe.runner_parent@) {
        Some(FailureModel::plain("standalone Windows helper executables must be staged as siblings"@))
    } else {
        None
    }
}

/// Checks that the helper executables are staged as they must be. Every executable that
/// passes has a directory of its own, so that it can be compared.
pub fn validate_resource_layout(resources: &WindowsSandboxStandaloneResources, probe: &ResourceProbe) -> (result: Result<
    (),
    Failure,
>)
    ensures
        match layout_failure(resources.setup_executable@, resources.command_runner_executable@, *probe) {
            Some(expected) => result matches Err(failure) && failure@ == expected,
            None => result is Ok && resources.setup_executable@.has_parent()
                && resources.command_runner_executable@.has_parent(),
        },
{
    validate_executable(&resources.setup_executable, SETUP_EXE_FILENAME, "setup executable", probe.setup_is_file)?;
    validate_executable(
        &resources.command_runner_executable,
        COMMAND_RUNNER_FILENAME,
        "command runner executable",
        probe.runner_is_file,
    )?;
    if !probe.setup_parent.same_path(&probe.runner_parent) {
        return Err(Failure::new("standalone Windows helper executables must be staged as siblings"));
    }
    Ok(())
}

/// Whether the paths of a request exist, in the order of its lists.
#[derive(Debug)]
pub struct PathProbes {
    pub read_roots: Vec<bool>,
    pub write_roots: Vec<bool>,
    pub deny_read_paths: Vec<bool>,
    pub deny_write_paths: Vec<bool>,
}

impl PathProbes {
    /// Whether there is an answer for each path.
    pub open spec fn answer(self, request: SetupRequestModel) -> bool {
        &&& self.read_roots@.len() == request.read_roots.len()
        &&& self.write_roots@.len() == request.write_roots.len()
        &&& self.deny_read_paths@.len() == request.deny_read_paths.len()
        &&& self.deny_write_paths@.len() == request.deny_write_paths.len()
    }
}

/// What one path contributes: nothing, unless it cannot be taken or does not exist.
pub open spec fn listed_path_step(path: PathModel, exists_there: bool, label: Seq<char>) -> Step<(), FailureModel> {
    match setup_path_failure(path, label) {
        Some(failure) => Step::Fail(failure),
        None => if exists_there {
            Step::Skip
        } else {
            Step::Fail(FailureModel::plain(label + " does not exist: "@ + path.text.display()))
        },
    }
}

/// What a list of paths contributes, in order.
pub open spec fn listed_path_steps(paths: Seq<PathModel>, exist: Seq<bool>, label: Seq<char>) -> Seq<
    Step<(), FailureModel>,
> {
    Seq::new(paths.len(), |index: int| listed_path_step(paths[index], exist[index], label))
}

/// The first failure of a list of paths.
pub open spec fn listed_paths_failure(paths: Seq<PathModel>, exist: Seq<bool>, label: Seq<char>) -> Option<FailureModel> {
    match model::collected(listed_path_steps(paths, exist, label)) {
        Err(failure) => Some(failure),
        Ok(_) => None,
    }
}

fn validate_listed_paths(paths: &Vec<NativePath>, exist: &Vec<bool>, label: &str) -> (result: Result<(), Failure>)
    requires
        paths@.len() == exist@.len(),
    ensures
        match listed_paths_failure(paths.deep_view(), exist@, label@) {
            Some(expected) => result matches Err(failure) && failure@ == expected,
            None => result is Ok,
        },
{
    let ghost models = paths.deep_view();
    let ghost steps = listed_path_steps(models, exist@, label@);
    proof {
        model::lemma_take_all(steps);
    }
    for index in 0..paths.len()
        invariant
            paths@.len() == exist@.len(),
            models == paths.deep_view(),
            steps == listed_path_steps(models, exist@, label@),
            model::collected(steps.take(index as int)) is Ok,
    {
        proof {
            model::lemma_collected_step(steps, index as int);
            assert(models[index as int] == paths@[index as int]@);
            assert(steps[index as int] == listed_path_step(models[index as int], exist@[index as int], label@));
        }
        validate_unicode_absolute_path(&paths[index], label)?;
        if !exist[index] {
            let shown = paths[index].text.display();
            let message = concat3(label, " does not exist: ", shown.as_str());
            return Err(Failure::new(message.as_str()));
        }
    }
    proof {
        model::lemma_take_all(steps);
    }
    Ok(())
}

/// Why a network setup cannot be installed, if it cannot.
pub open spec fn network_setup_failure(network: NetworkSetupModel) -> Option<FailureModel> {
    if network.identity == WindowsSandboxStandaloneNetworkIdentity::Online && (network.proxy_ports.len() > 0
        || network.allow_local_binding) {
        Some(
            FailureModel::plain(
                "proxy ports and local-binding exceptions require the offline sandbox identity"@,
            ),
        )
    } else if network.proxy_ports.contains(0u16) {
        Some(FailureModel::plain("proxy port 0 is not a valid firewall exception"@))
    } else {
        None
    }
}

fn validate_network_setup(network: &WindowsSandboxStandaloneNetworkSetup) -> (result: Result<(), Failure>)
    ensures
        match network_setup_failure(network@) {
            Some(expected) => result matches Err(failure) && failure@ == expected,
            None => result is Ok,
        },
{
    if network.identity == WindowsSandboxStandaloneNetworkIdentity::Online && (network.proxy_ports.len() > 0
        || network.allow_local_binding) {
        return Err(
            Failure::new("proxy ports and local-binding exceptions require the offline sandbox identity"),
        );
    }
    for index in 0..network.proxy_ports.len()
        invariant
            !(network.identity == WindowsSandboxStandaloneNetworkIdentity::Online && (network.proxy_ports.len() > 0
                || network.allow_local_binding)),
            forall|i: int| 0 <= i < index ==> network.proxy_ports@[i] != 0,
    {
        if network.proxy_ports[index] == 0 {
            assert(network@.proxy_ports[index as int] == 0u16);
            return Err(Failure::new("proxy port 0 is not a valid firewall exception"));
        }
    }
    Ok(())
}

/// Why a request is not valid once its helpers were verified, if it is not.
pub open spec fn request_failure(request: SetupRequestModel, probes: PathProbes) -> Option<FailureModel> {
    let state_dir = setup_path_failure(request.state_dir, "state directory"@);
    let command_cwd = setup_path_failure(request.command_cwd, "command working directory"@);
    let read_roots = listed_paths_failure(request.read_roots, probes.read_roots@, "read root"@);
    let write_roots = listed_paths_failure(request.write_roots, probes.write_roots@, "write root"@);
    let deny_read = listed_paths_failure(request.deny_read_paths, probes.deny_read_paths@, "deny-read path"@);
    let deny_write = listed_paths_failure(request.deny_write_paths, probes.deny_write_paths@, "deny-write path"@);
    if state_dir is Some {
        state_dir
    } else if command_cwd is Some {
        command_cwd
    } else if read_roots is Some {
        read_roots
    } else if write_roots is Some {
        write_roots
    } else if deny_read is Some {
        deny_read
    } else if deny_write is Some {
        deny_write
    } else {
        network_setup_failure(request.network)
    }
}

/// Checks a request. `resources` is the outcome of the check of its helpers, which comes
/// first: of their layout alone for an inspection, which launches none of them, and of
/// verifying them for anything else.
pub fn validate_setup_request(
    request: &WindowsSandboxStandaloneSetupRequest,
    resources: Result<(), Failure>,
    probes: &PathProbes,
) -> (result: Result<(), Failure>)
    requires
        probes.answer(request@),
    ensures
        match resources {
            Err(cause) => result matches Err(failure) && failure@ == cause@,
            Ok(_) => match request_failure(request@, *probes) {
                Some(expected) => result matches Err(failure) && failure@ == expected,
                None => result is Ok,
            },
        },
{
    match resources {
        Ok(_) => {},
        Err(failure) => {
            return Err(failure);
        },
    }
    validate_unicode_absolute_path(&request.state_dir, "state directory")?;
    validate_unicode_absolute_path(&request.command_cwd, "command working directory")?;
    validate_listed_paths(&request.read_roots, &probes.read_roots, "read root")?;
    validate_listed_paths(&request.write_roots, &probes.write_roots, "write root")?;
    validate_listed_paths(&request.deny_read_paths, &probes.deny_read_paths, "deny-read path")?;
    validate_listed_paths(&request.deny_write_paths, &probes.deny_write_paths, "deny-write path")?;
    validate_network_setup(&request.network)
}

/// The marker that a completed setup leaves.
#[derive(Debug)]
pub struct SetupMarker {
    pub version_matches: bool,
    pub offline_username: String,
    pub online_username: String,
    pub proxy_ports: Vec<u16>,
    pub allow_local_binding: bool,
}

/// What was read of the setup state. A reading that failed is the host's error.
#[derive(Debug)]
pub struct StateProbe {
    pub marker: Result<Option<SetupMarker>, String>,
    /// Whether the stored credentials belong to the standalone namespace.
    pub users_match: Result<bool, String>,
    /// The account of the stored credentials for the requested identity.
    pub credentials: Result<Option<String>, String>,
}

/// A state that an administrator has to mend.
pub open spec fn needs_administrator(reason: Seq<char>) -> SetupStateModel {
    SetupStateModel::AdministrativeActionRequired { reason }
}

/// A state that could not be found out.
pub open spec fn unavailable(reason: Seq<char>) -> SetupStateModel {
    SetupStateModel::Unavailable { reason }
}

/// The setup state of a valid request.
pub open spec fn prepared_state(network: NetworkSetupModel, probe: StateProbe) -> SetupStateModel {
    match probe.marker {
        Err(error) => unavailable("failed to inspect sandbox setup marker: "@ + error@),
        Ok(None) => needs_administrator("sandbox setup marker is missing or incompatible"@),
        Ok(Some(marker)) => if !marker.version_matches {
            needs_administrator("sandbox setup marker is missing or incompatible"@)
        } else if marker.offline_username@ != WindowsSandboxPolicyNamespace::McpConsole.offline_text()
            || marker.online_username@ != WindowsSandboxPolicyNamespace::McpConsole.online_text() {
            needs_administrator("sandbox setup marker uses a different identity namespace"@)
        } else {
            match probe.users_match {
                Err(error) => unavailable("failed to inspect sandbox credential identities: "@ + error@),
                Ok(false) => needs_administrator("sandbox credential identities use a different namespace"@),
                Ok(true) => match probe.credentials {
                    Err(error) => unavailable("failed to inspect sandbox identities: "@ + error@),
                    Ok(account) => if !(account matches Some(username) && username@ == network.identity.username()) {
                        needs_administrator("sandbox identities are missing or incompatible"@)
                    } else if network.identity == WindowsSandboxStandaloneNetworkIdentity::Offline && (
                    marker.proxy_ports@ != network.proxy_ports || marker.allow_local_binding
                        != network.allow_local_binding) {
                        needs_administrator("offline firewall settings differ from the requested policy"@)
                    } else {
                        SetupStateModel::Ready
                    },
                },
            }
        },
    }
}

fn administrative(reason: &str) -> (result: WindowsSandboxStandaloneSetupState)
    ensures
        result@ == needs_administrator(reason@),
{
    WindowsSandboxStandaloneSetupState::AdministrativeActionRequired { reason: reason.to_owned() }
}

fn same_ports(left: &Vec<u16>, right: &Vec<u16>) -> (result: bool)
    ensures
        result == (left@ == right@),
{
    if left.len() != right.len() {
        return false;
    }
    for index in 0..left.len()
        invariant
            left.len() == right.len(),
            forall|i: int| 0 <= i < index ==> left@[i] == right@[i],
    {
        if left[index] != right[index] {
            return false;
        }
    }
    assert(left@ =~= right@);
    true
}

/// Why a request cannot be inspected, if it cannot: its helpers are looked at where they
/// are staged, and are not launched.
pub open spec fn inspection_failure(
    request: SetupRequestModel,
    layout: ResourceProbe,
    probes: PathProbes,
) -> Option<FailureModel> {
    match layout_failure(request.setup_executable, request.command_runner_executable, layout) {
        Some(failure) => Some(failure),
        None => request_failure(request, probes),
    }
}

/// Inspects helper resources and what was read of the setup state without mutating state
/// or requesting elevation. The request is checked first.
pub fn windows_sandbox_standalone_setup_status(
    request: &WindowsSandboxStandaloneSetupRequest,
    layout: &ResourceProbe,
    probes: &PathProbes,
    probe: &StateProbe,
) -> (result: WindowsSandboxStandaloneSetupState)
    requires
        probes.answer(request@),
    ensures
        result@ == match inspection_failure(request@, *layout, *probes) {
            Some(failure) => unavailable(failure.message),
            None => prepared_state(request@.network, *probe),
        },
{
    let resources = validate_resource_layout(&request.resources, layout);
    if let Err(failure) = validate_setup_request(request, resources, probes) {
        return WindowsSandboxStandaloneSetupState::Unavailable { reason: failure.message };
    }
    let namespace = WindowsSandboxPolicyNamespace::McpConsole;
    let marker = match &probe.marker {
        Ok(Some(marker)) => marker,
        Ok(None) => {
            return administrative("sandbox setup marker is missing or incompatible");
        },
        Err(error) => {
            return WindowsSandboxStandaloneSetupState::Unavailable {
                reason: concat2("failed to inspect sandbox setup marker: ", error.as_str()),
            };
        },
    };
    if !marker.version_matches {
        return administrative("sandbox setup marker is missing or incompatible");
    }
    if !namespace.identities_match(marker.offline_username.as_str(), marker.online_username.as_str()) {
        return administrative("sandbox setup marker uses a different identity namespace");
    }
    match &probe.users_match {
        Ok(true) => {},
        Ok(false) => {
            return administrative("sandbox credential identities use a different namespace");
        },
        Err(error) => {
            return WindowsSandboxStandaloneSetupState::Unavailable {
                reason: concat2("failed to inspect sandbox credential identities: ", error.as_str()),
            };
        },
    }
    let username = match request.network.identity {
        WindowsSandboxStandaloneNetworkIdentity::Offline => namespace.offline_username(),
        WindowsSandboxStandaloneNetworkIdentity::Online => namespace.online_username(),
    };
    let compatible = match &probe.credentials {
        Ok(Some(account)) => crate::native::same_text(account.as_str(), username),
        Ok(None) => false,
        Err(error) => {
            return WindowsSandboxStandaloneSetupState::Unavailable {
                reason: concat2("failed to inspect sandbox identities: ", error.as_str()),
            };
        },
    };
    if !compatible {
        return administrative("sandbox identities are missing or incompatible");
    }
    if request.network.identity == WindowsSandboxStandaloneNetworkIdentity::Offline && (!same_ports(
        &marker.proxy_ports,
        &request.network.proxy_ports,
    ) || marker.allow_local_binding != request.network.allow_local_binding) {
        return administrative("offline firewall settings differ from the requested policy");
    }
    WindowsSandboxStandaloneSetupState::Ready
}

/// What was read of the current account's name.
#[derive(Debug)]
pub enum AccountName {
    /// The host gave no length for it.
    NoLength,
    /// The host failed with this error.
    Failed(u32),
    /// Its units, with a final NUL where the host counts it.
    Units(Vec<u16>),
}

/// The units of a name without a final NUL.
pub open spec fn without_final_nul(units: Seq<u16>) -> Seq<u16> {
    if units.len() > 0 && units.last() == 0 {
        units.drop_last()
    } else {
        units
    }
}

/// The current account's name, or why it cannot be told.
pub open spec fn account_text(name: AccountName) -> Result<Seq<char>, FailureModel> {
    match name {
        AccountName::NoLength => Err(
            FailureModel::plain("GetUserNameW did not report the current account name length"@),
        ),
        AccountName::Failed(error) => Err(
            FailureModel::plain("GetUserNameW failed: "@ + crate::text::decimal(error as nat)),
        ),
        AccountName::Units(units) => match crate::utf16::decoded(without_final_nul(units@)) {
            Some(text) => Ok(text),
            None => Err(
                FailureModel::plain("invalid utf-16: lone surrogate found"@).within(
                    "current Windows account name is invalid UTF-16"@,
                ),
            ),
        },
    }
}

fn account_name(name: AccountName) -> (result: Result<String, Failure>)
    ensures
        match account_text(name) {
            Ok(text) => result matches Ok(found) && found@ == text,
            Err(expected) => result matches Err(failure) && failure@ == expected,
        },
{
    match name {
        AccountName::NoLength => Err(
            Failure::new("GetUserNameW did not report the current account name length"),
        ),
        AccountName::Failed(error) => {
            let code = crate::text::decimal_string(error as u64);
            let message = concat2("GetUserNameW failed: ", code.as_str());
            Err(Failure::new(message.as_str()))
        },
        AccountName::Units(units) => {
            let ghost given = units@;
            let mut units = units;
            if units.len() > 0 && units[units.len() - 1] == 0 {
                units.pop();
            }
            assert(units@ =~= without_final_nul(given));
            match decode_utf16(&units) {
                Some(text) => Ok(text),
                None => Err(
                    Failure::new("invalid utf-16: lone surrogate found").within(
                        "current Windows account name is invalid UTF-16",
                    ),
                ),
            }
        },
    }
}

/// What the setup helper is told.
#[derive(Debug)]
pub struct SetupPayload {
    pub version: u32,
    pub offline_username: String,
    pub online_username: String,
    pub policy_namespace: WindowsSandboxPolicyNamespace,
    pub state_dir: NativePath,
    pub command_cwd: NativePath,
    pub read_roots: Vec<NativePath>,
    pub write_roots: Vec<NativePath>,
    pub deny_read_paths: Vec<NativePath>,
    pub deny_write_paths: Vec<NativePath>,
    pub proxy_ports: Vec<u16>,
    pub allow_local_binding: bool,
    pub real_user: String,
    pub refresh_only: bool,
}

/// What a [`SetupPayload`] holds.
pub struct PayloadModel {
    pub version: u32,
    pub offline_username: Seq<char>,
    pub online_username: Seq<char>,
    pub policy_namespace: WindowsSandboxPolicyNamespace,
    pub state_dir: PathModel,
    pub command_cwd: PathModel,
    pub read_roots: Seq<PathModel>,
    pub write_roots: Seq<PathModel>,
    pub deny_read_paths: Seq<PathModel>,
    pub deny_write_paths: Seq<PathModel>,
    pub proxy_ports: Seq<u16>,
    pub allow_local_binding: bool,
    pub real_user: Seq<char>,
    pub refresh_only: bool,
}

impl DeepView for SetupPayload {
    type V = PayloadModel;

    open spec fn deep_view(&self) -> PayloadModel {
        PayloadModel {
            version: self.version,
            offline_username: self.offline_username@,
            online_username: self.online_username@,
            policy_namespace: self.policy_namespace,
            state_dir: self.state_dir@,
            command_cwd: self.command_cwd@,
            read_roots: self.read_roots.deep_view(),
            write_roots: self.write_roots.deep_view(),
            deny_read_paths: self.deny_read_paths.deep_view(),
            deny_write_paths: self.deny_write_paths.deep_view(),
            proxy_ports: self.proxy_ports@,
            allow_local_binding: self.allow_local_binding,
            real_user: self.real_user@,
            refresh_only: self.refresh_only,
        }
    }
}

impl View for SetupPayload {
    type V = PayloadModel;

    open spec fn view(&self) -> PayloadModel {
        self.deep_view()
    }
}

/// Whether a path is among others, whatever its spelling.
pub open spec fn lists_path(paths: Seq<PathModel>, path: PathModel) -> bool {
    exists|index: int| 0 <= index < paths.len() && (#[trigger] paths[index]).same_path(path)
}

/// The paths with one more, unless it is among them.
pub open spec fn with_path(paths: Seq<PathModel>, path: PathModel) -> Seq<PathModel> {
    if lists_path(paths, path) {
        paths
    } else {
        paths.push(path)
    }
}

/// The payload of a request. The runner is always readable, and the state directory and
/// both helpers are never writable.
pub open spec fn payload_of(
    request: SetupRequestModel,
    platform_roots: Seq<PathModel>,
    version: u32,
    real_user: Seq<char>,
    refresh_only: bool,
) -> PayloadModel {
    let read_roots = if request.read_roots_include_platform_defaults {
        request.read_roots + platform_roots
    } else {
        request.read_roots
    };
    let deny_write = with_path(request.deny_write_paths, request.state_dir);
    let deny_write = with_path(deny_write, request.setup_executable);
    let deny_write = with_path(deny_write, request.command_runner_executable);
    PayloadModel {
        version,
        offline_username: WindowsSandboxPolicyNamespace::McpConsole.offline_text(),
        online_username: WindowsSandboxPolicyNamespace::McpConsole.online_text(),
        policy_namespace: WindowsSandboxPolicyNamespace::McpConsole,
        state_dir: request.state_dir,
        command_cwd: request.command_cwd,
        read_roots: read_roots.push(request.command_runner_executable),
        write_roots: request.write_roots,
        deny_read_paths: request.deny_read_paths,
        deny_write_paths: deny_write,
        proxy_ports: request.network.proxy_ports,
        allow_local_binding: request.network.allow_local_binding,
        real_user,
        refresh_only,
    }
}

/// A copy of some paths.
pub fn copy_paths(paths: &Vec<NativePath>) -> (result: Vec<NativePath>)
    ensures
        result.deep_view() == paths.deep_view(),
{
    let mut copy: Vec<NativePath> = Vec::new();
    append_paths(&mut copy, paths);
    assert(copy.deep_view() =~= paths.deep_view());
    copy
}

fn append_paths(paths: &mut Vec<NativePath>, more: &Vec<NativePath>)
    ensures
        final(paths).deep_view() == old(paths).deep_view() + more.deep_view(),
{
    let ghost start = paths.deep_view();
    assert(start + more.deep_view().take(0) =~= start);
    for index in 0..more.len()
        invariant
            paths.deep_view() == start + more.deep_view().take(index as int),
    {
        let ghost before = *paths;
        let path = more[index].clone();
        paths.push(path);
        proof {
            model::lemma_deep_push(before, *paths, path);
            model::lemma_take_push(more.deep_view(), index as int);
            assert(more.deep_view()[index as int] == more@[index as int]@);
            assert(paths.deep_view() =~= start + more.deep_view().take(index + 1));
        }
    }
    proof {
        model::lemma_take_all(more.deep_view());
    }
}

fn has_path(paths: &Vec<NativePath>, path: &NativePath) -> (result: bool)
    ensures
        result == lists_path(paths.deep_view(), path@),
{
    let ghost models = paths.deep_view();
    for index in 0..paths.len()
        invariant
            models == paths.deep_view(),
            forall|i: int| 0 <= i < index ==> !(#[trigger] models[i]).same_path(path@),
    {
        assert(models[index as int] == paths@[index as int]@);
        if paths[index].same_path(path) {
            return true;
        }
    }
    false
}

fn ensure_path(paths: &mut Vec<NativePath>, path: &NativePath)
    ensures
        final(paths).deep_view() == with_path(old(paths).deep_view(), path@),
{
    if !has_path(paths, path) {
        let ghost before = *paths;
        let copy = path.clone();
        paths.push(copy);
        proof {
            model::lemma_deep_push(before, *paths, copy);
        }
    }
}

/// The payload of a request for the setup helper.
pub fn setup_payload(
    request: &WindowsSandboxStandaloneSetupRequest,
    platform_roots: &Vec<NativePath>,
    version: u32,
    account: AccountName,
    refresh_only: bool,
) -> (result: Result<SetupPayload, Failure>)
    ensures
        match account_text(account) {
            Ok(real_user) => result matches Ok(payload) && payload@ == payload_of(
                request@,
                platform_roots.deep_view(),
                version,
                real_user,
                refresh_only,
            ),
            Err(expected) => result matches Err(failure) && failure@ == expected,
        },
{
    let namespace = WindowsSandboxPolicyNamespace::McpConsole;
    let mut read_roots = copy_paths(&request.read_roots);
    if request.read_roots_include_platform_defaults {
        append_paths(&mut read_roots, platform_roots);
    }
    let ghost before = read_roots;
    let runner = request.resources.command_runner_executable.clone();
    read_roots.push(runner);
    proof {
        model::lemma_deep_push(before, read_roots, runner);
    }
    let mut deny_write_paths = copy_paths(&request.deny_write_paths);
    ensure_path(&mut deny_write_paths, &request.state_dir);
    ensure_path(&mut deny_write_paths, &request.resources.setup_executable);
    ensure_path(&mut deny_write_paths, &request.resources.command_runner_executable);
    let real_user = account_name(account)?;
    let proxy_ports = request.network.proxy_ports.clone();
    assert(proxy_ports@ =~= request.network.proxy_ports@);
    Ok(
        SetupPayload {
            version,
            offline_username: namespace.offline_username().to_owned(),
            online_username: namespace.online_username().to_owned(),
            policy_namespace: namespace,
            state_dir: request.state_dir.clone(),
            command_cwd: request.command_cwd.clone(),
            read_roots,
            write_roots: copy_paths(&request.write_roots),
            deny_read_paths: copy_paths(&request.deny_read_paths),
            deny_write_paths,
            proxy_ports,
            allow_local_binding: request.network.allow_local_binding,
            real_user,
            refresh_only,
        },
    )
}

proof fn lemma_with_path_keeps(paths: Seq<PathModel>, added: PathModel, path: PathModel)
    requires
        lists_path(paths, path) || added == path,
    ensures
        lists_path(with_path(paths, added), path),
{
    let longer = with_path(paths, added);
    if lists_path(paths, path) {
        let index = choose|index: int| 0 <= index < paths.len() && (#[trigger] paths[index]).same_path(path);
        assert(longer[index].same_path(path));
    } else if !lists_path(paths, added) {
        assert(longer[paths.len() as int].same_path(path));
    }
}

/// Whatever a request asks for, the sandboxed account may write neither the state
/// directory nor either helper.
pub proof fn payloads_protect_state_and_helpers(
    request: SetupRequestModel,
    platform_roots: Seq<PathModel>,
    version: u32,
    real_user: Seq<char>,
    refresh_only: bool,
)
    ensures
        ({
            let payload = payload_of(request, platform_roots, version, real_user, refresh_only);
            &&& lists_path(payload.deny_write_paths, request.state_dir)
            &&& lists_path(payload.deny_write_paths, request.setup_executable)
            &&& lists_path(payload.deny_write_paths, request.command_runner_executable)
        }),
{
    let first = with_path(request.deny_write_paths, request.state_dir);
    let second = with_path(first, request.setup_executable);
    lemma_with_path_keeps(request.deny_write_paths, request.state_dir, request.state_dir);
    lemma_with_path_keeps(first, request.setup_executable, request.state_dir);
    lemma_with_path_keeps(first, request.setup_executable, request.setup_executable);
    lemma_with_path_keeps(second, request.command_runner_executable, request.state_dir);
    lemma_with_path_keeps(second, request.command_runner_executable, request.setup_executable);
    lemma_with_path_keeps(second, request.command_runner_executable, request.command_runner_executable);
}

/// What the translation of a permission profile says of it.
#[derive(Clone, Copy, Debug, PartialEq, Eq, Structural)]
pub struct ProfilePermissions {
    pub enforceable: bool,
    /// Whether the profile denies ordinary networking.
    pub network_block: bool,
}

/// Why a profile does not go with an identity, if it does not.
pub open spec fn profile_failure(
    permissions: ProfilePermissions,
    identity: WindowsSandboxStandaloneNetworkIdentity,
) -> Option<FailureModel> {
    if !permissions.enforceable {
        Some(FailureModel::plain("permission profile cannot be enforced by the Windows sandbox"@))
    } else if permissions.network_block && identity != WindowsSandboxStandaloneNetworkIdentity::Offline {
        Some(FailureModel::plain("permission profile requires the Offline Windows sandbox identity"@))
    } else if !permissions.network_block && identity != WindowsSandboxStandaloneNetworkIdentity::Online {
        Some(FailureModel::plain("permission profile requires the Online Windows sandbox identity"@))
    } else {
        None
    }
}

/// Checks that the sandbox can enforce a profile under an identity. The profile's roots
/// are only translated once this holds.
pub fn require_profile_identity(
    permissions: ProfilePermissions,
    identity: WindowsSandboxStandaloneNetworkIdentity,
) -> (result: Result<(), Failure>)
    ensures
        match profile_failure(permissions, identity) {
            Some(expected) => result matches Err(failure) && failure@ == expected,
            None => result is Ok,
        },
{
    if !permissions.enforceable {
        return Err(Failure::new("permission profile cannot be enforced by the Windows sandbox"));
    }
    if permissions.network_block && identity != WindowsSandboxStandaloneNetworkIdentity::Offline {
        return Err(Failure::new("permission profile requires the Offline Windows sandbox identity"));
    }
    if !permissions.network_block && identity != WindowsSandboxStandaloneNetworkIdentity::Online {
        return Err(Failure::new("permission profile requires the Online Windows sandbox identity"));
    }
    Ok(())
}

/// Inputs needed to translate one managed permission profile into standalone Windows
/// setup state.
#[derive(Debug)]
pub struct WindowsSandboxStandalonePolicyRequest {
    pub permissions: ProfilePermissions,
    pub command_cwd: NativePath,
    pub state_dir: NativePath,
    pub resources: WindowsSandboxStandaloneResources,
    pub network: WindowsSandboxStandaloneNetworkSetup,
    /// The paths that the profile itself denies to read.
    pub profile_deny_read_paths: Vec<NativePath>,
    pub filesystem_overrides: WindowsSandboxStandaloneFilesystemOverrides,
}

/// The paths denied to read: those of the profile, followed by the additional ones.
pub fn denied_read_paths(request: &WindowsSandboxStandalonePolicyRequest) -> (result: Vec<NativePath>)
    ensures
        result.deep_view() == request.profile_deny_read_paths.deep_view()
            + request.filesystem_overrides.additional_deny_read_paths.deep_view(),
{
    let mut paths = copy_paths(&request.profile_deny_read_paths);
    append_paths(&mut paths, &request.filesystem_overrides.additional_deny_read_paths);
    paths
}

/// The roots of a profile as the Windows policy translation resolves them.
#[derive(Debug)]
pub struct TranslatedRoots {
    pub read_roots: Vec<NativePath>,
    pub write_roots: Vec<NativePath>,
    pub deny_write_paths: Vec<NativePath>,
}

/// The setup request of a profile: its translated roots, every path that the profile or
/// its overrides deny to read, and the network setup as it was asked for.
pub open spec fn translated_request(
    request: WindowsSandboxStandalonePolicyRequest,
    roots: TranslatedRoots,
) -> SetupRequestModel {
    SetupRequestModel {
        state_dir: request.state_dir@,
        setup_executable: request.resources.setup_executable@,
        command_runner_executable: request.resources.command_runner_executable@,
        command_cwd: request.command_cwd@,
        read_roots: roots.read_roots.deep_view(),
        read_roots_include_platform_defaults: false,
        write_roots: roots.write_roots.deep_view(),
        deny_read_paths: request.profile_deny_read_paths.deep_view()
            + request.filesystem_overrides.additional_deny_read_paths.deep_view(),
        deny_write_paths: roots.deny_write_paths.deep_view(),
        network: request.network@,
    }
}

/// Resolves a managed permission profile into a setup request. The translated roots
/// hold the platform defaults already.
pub fn windows_sandbox_standalone_setup_request_from_permission_profile(
    request: WindowsSandboxStandalonePolicyRequest,
    roots: TranslatedRoots,
) -> (result: Result<WindowsSandboxStandaloneSetupRequest, Failure>)
    ensures
        match profile_failure(request.permissions, request.network.identity) {
            Some(expected) => result matches Err(failure) && failure@ == expected,
            None => result matches Ok(setup) && setup@ == translated_request(request, roots),
        },
{
    require_profile_identity(request.permissions, request.network.identity)?;
    let deny_read_paths = denied_read_paths(&request);
    Ok(
        WindowsSandboxStandaloneSetupRequest {
            state_dir: request.state_dir,
            resources: request.resources,
            command_cwd: request.command_cwd,
            read_roots: roots.read_roots,
            read_roots_include_platform_defaults: false,
            write_roots: roots.write_roots,
            deny_read_paths,
            deny_write_paths: roots.deny_write_paths,
            network: request.network,
        },
    )
}

/// Whether a ready state says all that a launch relies on.
pub proof fn ready_means_current_identities(network: NetworkSetupModel, probe: StateProbe)
    requires
        prepared_state(network, probe) == SetupStateModel::Ready,
    ensures
        probe.marker matches Ok(Some(marker)) && {
            &&& marker.version_matches
            &&& marker.offline_username@ == WindowsSandboxPolicyNamespace::McpConsole.offline_text()
            &&& marker.online_username@ == WindowsSandboxPolicyNamespace::McpConsole.online_text()
            &&& network.identity == WindowsSandboxStandaloneNetworkIdentity::Offline ==> marker.proxy_ports@
                == network.proxy_ports && marker.allow_local_binding == network.allow_local_binding
        },
        probe.users_match == Ok::<bool, String>(true),
        probe.credentials matches Ok(Some(username)) && username@ == network.identity.username(),
{
}

/// A payload grants what was asked for and nothing else. A path is among its write roots
/// exactly when the request lists it as one, so a root that may only be read is never
/// writable. The denied paths, the proxy ports and the local binding are those of the
/// request, and only the runner and the platform's own roots are readable besides.
pub proof fn payloads_grant_what_was_asked_for(
    request: WindowsSandboxStandaloneSetupRequest,
    platform_roots: Vec<NativePath>,
    version: u32,
    real_user: Seq<char>,
    refresh_only: bool,
    payload: SetupPayload,
    path: PathModel,
)
    requires
        payload@ == payload_of(request@, platform_roots.deep_view(), version, real_user, refresh_only),
    ensures
        payload.write_roots.deep_view().contains(path) <==> request.write_roots.deep_view().contains(path),
        request.read_roots.deep_view().contains(path) && !request.write_roots.deep_view().contains(path)
            ==> !payload.write_roots.deep_view().contains(path),
        payload.write_roots@.len() == request.write_roots@.len(),
        payload.deny_read_paths.deep_view().contains(path) <==> request.deny_read_paths.deep_view().contains(path),
        payload.deny_read_paths@.len() == request.deny_read_paths@.len(),
        payload.read_roots.deep_view().contains(path) <==> {
            ||| request.read_roots.deep_view().contains(path)
            ||| request.read_roots_include_platform_defaults && platform_roots.deep_view().contains(path)
            ||| path == request.resources.command_runner_executable@
        },
        request.deny_write_paths.deep_view().contains(path) ==> payload.deny_write_paths.deep_view().contains(path),
        payload.deny_write_paths.deep_view().contains(path) ==> {
            ||| request.deny_write_paths.deep_view().contains(path)
            ||| path == request.state_dir@
            ||| path == request.resources.setup_executable@
            ||| path == request.resources.command_runner_executable@
        },
        forall|port: u16|
            #[trigger] payload.proxy_ports@.contains(port) <==> request.network.proxy_ports@.contains(port),
        payload.proxy_ports@.len() == request.network.proxy_ports@.len(),
        payload.allow_local_binding == request.network.allow_local_binding,
{
    assert(payload.write_roots.deep_view() == request.write_roots.deep_view());
    assert(payload.write_roots.deep_view().len() == payload.write_roots@.len());
    assert(request.write_roots.deep_view().len() == request.write_roots@.len());
    assert(payload.deny_read_paths.deep_view() == request.deny_read_paths.deep_view());
    assert(payload.deny_read_paths.deep_view().len() == payload.deny_read_paths@.len());
    assert(request.deny_read_paths.deep_view().len() == request.deny_read_paths@.len());
    let asked = request.read_roots.deep_view();
    let defaults = platform_roots.deep_view();
    let readable = if request.read_roots_include_platform_defaults {
        asked + defaults
    } else {
        asked
    };
    lemma_contains_concat(asked, defaults, path);
    lemma_contains_push(readable, request.resources.command_runner_executable@, path);
    let denied = request.deny_write_paths.deep_view();
    let first = with_path(denied, request.state_dir@);
    let second = with_path(first, request.resources.setup_executable@);
    lemma_contains_push(denied, request.state_dir@, path);
    lemma_contains_push(first, request.resources.setup_executable@, path);
    lemma_contains_push(second, request.resources.command_runner_executable@, path);
}

/// A payload names the current account, and the accounts and directories of this
/// application.
pub proof fn payloads_name_their_accounts(
    request: WindowsSandboxStandaloneSetupRequest,
    platform_roots: Vec<NativePath>,
    version: u32,
    real_user: Seq<char>,
    refresh_only: bool,
    payload: SetupPayload,
)
    requires
        payload@ == payload_of(request@, platform_roots.deep_view(), version, real_user, refresh_only),
    ensures
        payload.version == version,
        payload.offline_username@ == "McpConsoleSbxOffline"@,
        payload.online_username@ == "McpConsoleSbxOnline"@,
        payload.policy_namespace is McpConsole,
        payload.state_dir@ == request.state_dir@,
        payload.command_cwd@ == request.command_cwd@,
        payload.real_user@ == real_user,
        payload.refresh_only == refresh_only,
{
}

proof fn lemma_contains_push(paths: Seq<PathModel>, added: PathModel, path: PathModel)
    ensures
        paths.push(added).contains(path) <==> paths.contains(path) || path == added,
{
    let longer = paths.push(added);
    if paths.contains(path) {
        let index = choose|index: int| 0 <= index < paths.len() && paths[index] == path;
        assert(longer[index] == path);
    }
    if path == added {
        assert(longer[paths.len() as int] == path);
    }
}

proof fn lemma_contains_concat(first: Seq<PathModel>, second: Seq<PathModel>, path: PathModel)
    ensures
        (first + second).contains(path) <==> first.contains(path) || second.contains(path),
{
    let whole = first + second;
    if first.contains(path) {
        let index = choose|index: int| 0 <= index < first.len() && first[index] == path;
        assert(whole[index] == path);
    }
    if second.contains(path) {
        let index = choose|index: int| 0 <= index < second.len() && second[index] == path;
        assert(whole[first.len() + index] == path);
    }
}

/// A profile is accepted exactly where it can be enforced and its identity is the one
/// that its network access calls for: the offline account where networking is denied,
/// the online account where it is not.
pub proof fn identities_follow_the_network(
    permissions: ProfilePermissions,
    identity: WindowsSandboxStandaloneNetworkIdentity,
)
    ensures
        profile_failure(permissions, identity) is None <==> permissions.enforceable && (identity is Offline
            <==> permissions.network_block),
        permissions.network_block && identity is Online ==> profile_failure(permissions, identity) is Some,
{
}

/// The request of a profile holds the translated roots as they are, and denies to read
/// what the profile or its overrides deny.
pub proof fn translated_requests_keep_their_roots(
    request: WindowsSandboxStandalonePolicyRequest,
    roots: TranslatedRoots,
    setup: WindowsSandboxStandaloneSetupRequest,
    path: PathModel,
)
    requires
        setup@ == translated_request(request, roots),
    ensures
        setup.write_roots.deep_view().contains(path) <==> roots.write_roots.deep_view().contains(path),
        setup.read_roots.deep_view().contains(path) <==> roots.read_roots.deep_view().contains(path),
        setup.deny_write_paths.deep_view().contains(path) <==> roots.deny_write_paths.deep_view().contains(path),
        setup.deny_read_paths.deep_view().contains(path) <==> {
            ||| request.profile_deny_read_paths.deep_view().contains(path)
            ||| request.filesystem_overrides.additional_deny_read_paths.deep_view().contains(path)
        },
        !setup.read_roots_include_platform_defaults,
        setup.network.identity == request.network.identity,
        setup.network.proxy_ports@ == request.network.proxy_ports@,
        setup.network.allow_local_binding == request.network.allow_local_binding,
        setup.state_dir@ == request.state_dir@,
        setup.command_cwd@ == request.command_cwd@,
        setup.resources.setup_executable@ == request.resources.setup_executable@,
        setup.resources.command_runner_executable@ == request.resources.command_runner_executable@,
{
    lemma_contains_concat(
        request.profile_deny_read_paths.deep_view(),
        request.filesystem_overrides.additional_deny_read_paths.deep_view(),
        path,
    );
}

/// Only the offline account takes firewall exceptions, and each of its proxy ports can be
/// connected to.
pub proof fn exceptions_belong_to_the_offline_account(network: NetworkSetupModel)
    ensures
        network_setup_failure(network) is None <==> {
            &&& network.identity is Online ==> network.proxy_ports.len() == 0 && !network.allow_local_binding
            &&& forall|index: int| 0 <= index < network.proxy_ports.len() ==> (#[trigger] network.proxy_ports[index]) > 0
        },
{
    if network.proxy_ports.contains(0u16) {
        let index = choose|index: int| 0 <= index < network.proxy_ports.len() && network.proxy_ports[index] == 0u16;
        assert(!(network.proxy_ports[index] > 0));
    } else {
        assert forall|index: int| 0 <= index < network.proxy_ports.len() implies (
        #[trigger] network.proxy_ports[index]) > 0 by {
            if network.proxy_ports[index] == 0u16 {
                assert(network.proxy_ports.contains(0u16));
            }
        }
    }
}

/// Whether the setup protocol can carry a path.
pub open spec fn is_protocol_path(path: PathModel) -> bool {
    crate::windows::standalone::command::is_local_disk_path(path) && path.text.is_unicode()
}

/// Whether each of some paths exists and can be carried.
pub open spec fn are_present(paths: Seq<PathModel>, exist: Seq<bool>) -> bool {
    forall|index: int| 0 <= index < paths.len() ==> is_protocol_path(#[trigger] paths[index]) && exist[index]
}

proof fn lemma_listed_paths(paths: Seq<PathModel>, exist: Seq<bool>, label: Seq<char>)
    ensures
        listed_paths_failure(paths, exist, label) is None <==> are_present(paths, exist),
{
    let steps = listed_path_steps(paths, exist, label);
    if are_present(paths, exist) {
        assert forall|index: int| 0 <= index < steps.len() implies !((#[trigger] steps[index]) is Fail) by {
            assert(is_protocol_path(paths[index]) && exist[index]);
        }
        model::lemma_collected_without_failure(steps);
    }
    if model::collected(steps) is Ok {
        assert forall|index: int| 0 <= index < paths.len() implies is_protocol_path(#[trigger] paths[index])
            && exist[index] by {
            model::lemma_collected_has_no_failure(steps, index);
            assert(!(steps[index] is Fail));
        }
    }
}

/// A request is valid exactly where the protocol can carry each of its paths, each listed
/// path exists, and its network exceptions can be installed.
pub proof fn requests_are_valid_when_every_path_is_there(request: SetupRequestModel, probes: PathProbes)
    ensures
        request_failure(request, probes) is None <==> {
            &&& is_protocol_path(request.state_dir)
            &&& is_protocol_path(request.command_cwd)
            &&& are_present(request.read_roots, probes.read_roots@)
            &&& are_present(request.write_roots, probes.write_roots@)
            &&& are_present(request.deny_read_paths, probes.deny_read_paths@)
            &&& are_present(request.deny_write_paths, probes.deny_write_paths@)
            &&& network_setup_failure(request.network) is None
        },
{
    lemma_listed_paths(request.read_roots, probes.read_roots@, "read root"@);
    lemma_listed_paths(request.write_roots, probes.write_roots@, "write root"@);
    lemma_listed_paths(request.deny_read_paths, probes.deny_read_paths@, "deny-read path"@);
    lemma_listed_paths(request.deny_write_paths, probes.deny_write_paths@, "deny-write path"@);
}

/// The helpers are accepted exactly where both are files of their own names in one
/// directory.
pub proof fn helpers_are_siblings_of_their_names(setup: PathModel, runner: PathModel, probe: ResourceProbe)
    ensures
        layout_failure(setup, runner, probe) is None <==> {
            &&& is_protocol_path(setup)
            &&& is_protocol_path(runner)
            &&& setup.file_name() == Some(NativeText::Unicode("codex-windows-sandbox-setup.exe"@))
            &&& runner.file_name() == Some(NativeText::Unicode("codex-command-runner.exe"@))
            &&& probe.setup_is_file
            &&& probe.runner_is_file
            &&& probe.setup_parent@.same_path(probe.runner_parent@)
        },
{
}

/// The setup is ready exactly where its marker is of this version and these accounts, the
/// stored credentials are those of the asked identity, and, for the offline account, the
/// installed exceptions are the asked ones.
pub proof fn setups_are_ready_when_nothing_differs(network: NetworkSetupModel, probe: StateProbe)
    ensures
        prepared_state(network, probe) is Ready <==> {
            &&& probe.marker matches Ok(Some(marker)) && {
                &&& marker.version_matches
                &&& marker.offline_username@ == "McpConsoleSbxOffline"@
                &&& marker.online_username@ == "McpConsoleSbxOnline"@
                &&& network.identity is Offline ==> marker.proxy_ports@ == network.proxy_ports
                    && marker.allow_local_binding == network.allow_local_binding
            }
            &&& probe.users_match == Ok::<bool, String>(true)
            &&& probe.credentials matches Ok(Some(username)) && username@ == (if network.identity is Offline {
                "McpConsoleSbxOffline"@
            } else {
                "McpConsoleSbxOnline"@
            })
        },
        prepared_state(network, probe) is Unavailable ==> probe.marker is Err || probe.users_match is Err
            || probe.credentials is Err,
        probe.marker is Err ==> prepared_state(network, probe) is Unavailable,
{
}

/// An account's name is the text of its units, whether or not the host counts a final
/// NUL.
pub proof fn account_names_lose_only_their_final_nul(text: Seq<char>, name: AccountName)
    requires
        text.len() > 0 ==> text.last() != '\0',
        name matches AccountName::Units(units) && (units@ == crate::utf16::encoded(text) || units@
            == crate::utf16::encoded(text).push(0u16)),
    ensures
        account_text(name) == Ok::<Seq<char>, FailureModel>(text),
{
    let plain = crate::utf16::encoded(text);
    crate::utf16::decoding_undoes_encoding(text);
    if text.len() > 0 {
        let last = crate::utf16::units_of(text.last());
        assert(plain.last() == last.last());
        vstd::utf8::char_is_scalar(text.last());
        vstd::utf8::char_u32_cast(text.last(), text.last() as u32);
        assert(last.last() != 0);
    }
    assert(plain.push(0u16).drop_last() =~= plain);
}

/// Names compare without regard to the case of ASCII letters, and of nothing else.
pub proof fn only_ascii_letters_are_folded(left: Seq<char>, right: Seq<char>, ch: char)
    ensures
        'A' <= ch <= 'Z' ==> ascii_lower(ch) as u32 == ch as u32 + 32,
        !('A' <= ch <= 'Z') ==> ascii_lower(ch) == ch,
        same_ignoring_ascii_case(left, left),
        same_ignoring_ascii_case(left, right) ==> left.len() == right.len(),
        same_ignoring_ascii_case(left, right) <==> same_ignoring_ascii_case(right, left),
{
}

/// A setup can be inspected exactly where its helpers are staged right and its request is
/// valid; a wrong layout weighs more.
pub proof fn inspections_need_staged_helpers(request: SetupRequestModel, layout: ResourceProbe, probes: PathProbes)
    ensures
        inspection_failure(request, layout, probes) is None <==> layout_failure(
            request.setup_executable,
            request.command_runner_executable,
            layout,
        ) is None && request_failure(request, probes) is None,
        layout_failure(request.setup_executable, request.command_runner_executable, layout) is Some
            ==> inspection_failure(request, layout, probes) == layout_failure(
            request.setup_executable,
            request.command_runner_executable,
            layout,
        ),
{
}

} // verus!
