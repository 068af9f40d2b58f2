//! The runtime of one selected backend.

use crate::error::{SandboxError, SandboxErrorModel, SandboxFeature};
use crate::model;
use crate::model::Step;
use crate::native::{NativePath, NativeString, NativeText, PathModel};
use crate::policy::access::ResolvedRuleModel;
use crate::policy::backend::unsupported;
use crate::policy::host::{InternalRoot, InternalRootModel, Resolution, ResolutionModel, RuleProbe};
use crate::policy::linux::{CrossingsModel, PathCrossings};
use crate::policy::prepare::{
    draft_policy, settle_policy, validate_absolute_path, validate_existing_path_encoding, NetworkSandboxPolicy, PolicyDraft,
    PreparedModel, PreparedPolicy,
};
use crate::runtime::command::{
    host_backend, require_utf8_os, validate_command, validate_command_cwd, DirectoryProbe, HostPlatform,
};
use crate::runtime::linux::{
    backend_unavailable, preparation_failed, validate_linux_backend, BwrapStatus, ExecutableProbe, LinuxRuntimeHelper,
};
use crate::text::concat2;
use crate::types::{
    FileSystemBase, NetworkPolicy, PathAccess, PolicyModel, SandboxBackend, SandboxCapabilities, SandboxLifetime, SandboxRequest, SandboxRuntimeConfig,
    TerminalPolicy,
};
use vstd::prelude::*;
use vstd::string::*;

verus! {

/// What the host reports about the state directory after it was asked to create it.
pub struct StateDirectoryReport {
    /// Why the directory could not be created, if it could not.
    pub creation_failure: Option<String>,
    pub resolution: Resolution,
    pub is_directory: bool,
}

/// The location of the state directory, or the first reason why it cannot be used.
pub open spec fn state_directory(
    platform: HostPlatform,
    platform_name: Seq<char>,
    state_dir: PathModel,
    creation_failure: Option<Seq<char>>,
    resolution: ResolutionModel,
    is_directory: bool,
) -> Result<PathModel, SandboxErrorModel> {
    let backend = crate::runtime::command::default_backend(platform);
    if platform == HostPlatform::Other {
        Err(SandboxErrorModel::UnsupportedPlatform { platform: platform_name })
    } else if !state_dir.absolute {
        Err(crate::policy::prepare::relative_path_error(state_dir, "the sandbox state directory"@))
    } else if let Some(source) = creation_failure {
        Err(
            crate::runtime::linux::preparation(
                backend,
                "failed to create application-owned state directory "@ + state_dir.text.display(),
                source,
            ),
        )
    } else {
        match resolution {
            ResolutionModel::Failed(source) => Err(
                crate::runtime::linux::preparation(
                    backend,
                    "failed to resolve the application-owned state directory"@,
                    source,
                ),
            ),
            ResolutionModel::Resolved(location) => if !is_directory {
                Err(
                    SandboxErrorModel::InvalidPath {
                        path: location,
                        message: "the sandbox state path must be a directory"@,
                    },
                )
            } else if platform != HostPlatform::Macos && !location.text.is_unicode() {
                Err(
                    crate::runtime::command::path_unicode_error(location, "the sandbox state directory"@),
                )
            } else {
                Ok(location)
            },
        }
    }
}

/// Checks the state directory and gives its location.
pub fn prepare_state_directory(
    config: &SandboxRuntimeConfig,
    platform: HostPlatform,
    platform_name: &str,
    report: &StateDirectoryReport,
) -> (result: Result<NativePath, SandboxError>)
    ensures
        match state_directory(
            platform,
            platform_name@,
            config.state_dir@,
            report.creation_failure.deep_view(),
            report.resolution@,
            report.is_directory,
        ) {
            Ok(expected) => result matches Ok(location) && location@ == expected,
            Err(expected) => result matches Err(error) && error@ == expected,
        },
{
    if platform == HostPlatform::Other {
        return Err(SandboxError::UnsupportedPlatform { platform: platform_name.to_owned() });
    }
    validate_absolute_path(&config.state_dir, "the sandbox state directory")?;
    if let Some(source) = &report.creation_failure {
        let shown = config.state_dir.text.display();
        let message = concat2("failed to create application-owned state directory ", shown.as_str());
        return Err(preparation_failed(host_backend(platform), message.as_str(), source.as_str()));
    }
    let location = match &report.resolution {
        Resolution::Resolved(location) => location,
        Resolution::Failed(source) => {
            return Err(
                preparation_failed(
                    host_backend(platform),
                    "failed to resolve the application-owned state directory",
                    source.as_str(),
                ),
            );
        },
    };
    if !report.is_directory {
        return Err(
            SandboxError::InvalidPath {
                path: location.clone(),
                message: "the sandbox state path must be a directory".to_owned(),
            },
        );
    }
    if platform != HostPlatform::Macos {
        validate_existing_path_encoding(location, &report.resolution, "the sandbox state directory")?;
    }
    Ok(location.clone())
}

/// What the host reports about bubblewrap when a runtime starts.
pub struct BwrapReport {
    pub program: NativePath,
    pub resolution: Resolution,
    pub network_namespace: bool,
}

/// What the host reports about its backend.
pub enum BackendReport {
    Macos { launcher_installed: bool },
    Linux {
        helper: LinuxRuntimeHelper,
        /// Why the application's working directory is not known, if it is not.
        working_directory_failure: Option<String>,
        bwrap: Option<BwrapReport>,
        /// Whether the architecture has the seccomp filter that denies networking.
        seccomp_supported: bool,
    },
    Windows,
}

/// The Linux part of a runtime.
pub struct LinuxRuntime {
    pub helper: LinuxRuntimeHelper,
    pub bwrap_program: NativePath,
}

/// Owner of one selected native sandbox backend.
pub struct SandboxRuntime {
    pub platform: HostPlatform,
    pub backend: SandboxBackend,
    pub capabilities: SandboxCapabilities,
    pub state_dir: NativePath,
    pub linux: Option<LinuxRuntime>,
}

/// What the Seatbelt backend enforces.
pub open spec fn macos_capabilities() -> SandboxCapabilities {
    SandboxCapabilities {
        backend: SandboxBackend::MacosSeatbelt,
        minimal_read_policy: true,
        denied_read_paths: true,
        denied_write_paths: true,
        network_denial: true,
        network_unrestricted: true,
        interrupt: true,
        process_tree_termination: true,
        terminal_isolation: true,
    }
}

/// What the bubblewrap backend enforces.
pub open spec fn linux_capabilities(network_denial: bool) -> SandboxCapabilities {
    SandboxCapabilities {
        backend: SandboxBackend::LinuxBubblewrap,
        minimal_read_policy: true,
        denied_read_paths: true,
        denied_write_paths: true,
        network_denial,
        network_unrestricted: true,
        interrupt: true,
        process_tree_termination: false,
        terminal_isolation: false,
    }
}

/// What the restricted-token backend enforces.
pub open spec fn windows_capabilities() -> SandboxCapabilities {
    SandboxCapabilities {
        backend: SandboxBackend::WindowsRestrictedToken,
        minimal_read_policy: false,
        denied_read_paths: false,
        denied_write_paths: true,
        network_denial: false,
        network_unrestricted: true,
        interrupt: false,
        process_tree_termination: true,
        terminal_isolation: false,
    }
}

/// The first reason why the host's backend cannot be used.
pub open spec fn backend_failure(report: BackendReport) -> Option<SandboxErrorModel> {
    match report {
        BackendReport::Macos { launcher_installed } => if launcher_installed {
            None
        } else {
            Some(
                crate::runtime::linux::unavailable(
                    SandboxBackend::MacosSeatbelt,
                    "the Seatbelt launcher is not installed"@,
                ),
            )
        },
        BackendReport::Linux { helper: _, working_directory_failure, bwrap, seccomp_supported: _ } => {
            match (working_directory_failure, bwrap) {
                (Some(source), _) => Some(
                    crate::runtime::linux::preparation(
                        SandboxBackend::LinuxBubblewrap,
                        "failed to resolve the embedding application's working directory"@,
                        source@,
                    ),
                ),
                (None, None) => Some(
                    crate::runtime::linux::unavailable(
                        SandboxBackend::LinuxBubblewrap,
                        "no packaged or system bubblewrap executable can create the required user namespace"@,
                    ),
                ),
                (None, Some(bwrap)) => crate::policy::prepare::encoding_error(
                    bwrap.program@,
                    bwrap.resolution@,
                    "the pinned bubblewrap executable"@,
                ),
            }
        },
        BackendReport::Windows => None,
    }
}

/// Whether a runtime is the one that comes of a report without failures.
pub open spec fn is_runtime_of(runtime: SandboxRuntime, state_dir: NativePath, report: BackendReport) -> bool {
    &&& runtime.state_dir == state_dir
    &&& runtime.backend == runtime.capabilities.backend
    &&& match report {
        BackendReport::Macos { .. } => {
            &&& runtime.platform == HostPlatform::Macos
            &&& runtime.capabilities == macos_capabilities()
            &&& runtime.linux is None
        },
        BackendReport::Linux { helper, working_directory_failure: _, bwrap, seccomp_supported } => {
            &&& runtime.platform == HostPlatform::Linux
            &&& bwrap is Some
            &&& runtime.capabilities == linux_capabilities(
                seccomp_supported && bwrap->Some_0.network_namespace,
            )
            &&& runtime.linux == Some(LinuxRuntime { helper, bwrap_program: bwrap->Some_0.program })
        },
        BackendReport::Windows => {
            &&& runtime.platform == HostPlatform::Windows
            &&& runtime.capabilities == windows_capabilities()
            &&& runtime.linux is None
        },
    }
}

/// What the host reports when a launch is requested.
pub struct LaunchReport {
    pub cwd: DirectoryProbe,
    /// The helper's executable and bubblewrap, on Linux.
    pub helper: Option<(ExecutableProbe, BwrapStatus)>,
    /// The location that the Linux helper's executable resolves to.
    pub helper_target: Resolution,
    /// The policy's rules, in order.
    pub rules: Vec<RuleProbe>,
    /// The paths that the backend must be able to read, in order.
    pub internal_roots: Vec<InternalRoot>,
}

/// The paths of internal roots.
pub open spec fn root_paths(roots: Seq<InternalRootModel>) -> Seq<PathModel> {
    Seq::new(roots.len(), |index: int| roots[index].path)
}

impl SandboxRuntime {
    /// Whether the parts of a runtime belong together.
    pub open spec fn well_formed(self) -> bool {
        &&& self.backend == self.capabilities.backend
        &&& self.backend == crate::runtime::command::default_backend(self.platform)
        &&& self.platform != HostPlatform::Other
        &&& self.linux is Some <==> self.platform == HostPlatform::Linux
    }

    /// The runtime of the host's backend.
    pub fn new(state_dir: NativePath, report: BackendReport) -> (result: Result<Self, SandboxError>)
        ensures
            match backend_failure(report) {
                Some(expected) => result matches Err(error) && error@ == expected,
                None => result matches Ok(runtime) && is_runtime_of(runtime, state_dir, report)
                    && runtime.well_formed(),
            },
    {
        match report {
            BackendReport::Macos { launcher_installed } => Self::new_macos(state_dir, launcher_installed),
            BackendReport::Linux { helper, working_directory_failure, bwrap, seccomp_supported } => {
                Self::new_linux(state_dir, helper, working_directory_failure, bwrap, seccomp_supported)
            },
            BackendReport::Windows => Ok(Self::new_windows(state_dir)),
        }
    }

    fn new_macos(state_dir: NativePath, launcher_installed: bool) -> (result: Result<Self, SandboxError>)
        ensures
            match backend_failure(BackendReport::Macos { launcher_installed }) {
                Some(expected) => result matches Err(error) && error@ == expected,
                None => result matches Ok(runtime) && is_runtime_of(
                    runtime,
                    state_dir,
                    (BackendReport::Macos { launcher_installed }),
                ) && runtime.well_formed(),
            },
    {
        if !launcher_installed {
            return Err(
                backend_unavailable(
                    SandboxBackend::MacosSeatbelt,
                    "the Seatbelt launcher is not installed",
                ),
            );
        }
        let backend = SandboxBackend::MacosSeatbelt;
        Ok(
            SandboxRuntime {
                platform: HostPlatform::Macos,
                backend,
                capabilities: SandboxCapabilities {
                    backend,
                    minimal_read_policy: true,
                    denied_read_paths: true,
                    denied_write_paths: true,
                    network_denial: true,
                    network_unrestricted: true,
                    interrupt: true,
                    process_tree_termination: true,
                    terminal_isolation: true,
                },
                state_dir,
                linux: None,
            },
        )
    }

    fn new_linux(
        state_dir: NativePath,
        helper: LinuxRuntimeHelper,
        working_directory_failure: Option<String>,
        bwrap: Option<BwrapReport>,
        seccomp_supported: bool,
    ) -> (result: Result<Self, SandboxError>)
        ensures
            match backend_failure(
                BackendReport::Linux { helper, working_directory_failure, bwrap, seccomp_supported },
            ) {
                Some(expected) => result matches Err(error) && error@ == expected,
                None => result matches Ok(runtime) && is_runtime_of(
                    runtime,
                    state_dir,
                    (BackendReport::Linux { helper, working_directory_failure, bwrap, seccomp_supported }),
                ) && runtime.well_formed(),
            },
    {
        let backend = SandboxBackend::LinuxBubblewrap;
        if let Some(source) = &working_directory_failure {
            return Err(
                preparation_failed(
                    backend,
                    "failed to resolve the embedding application's working directory",
                    source.as_str(),
                ),
            );
        }
        let bwrap = match bwrap {
            Some(bwrap) => bwrap,
            None => {
                return Err(
                    backend_unavailable(
                        backend,
                        "no packaged or system bubblewrap executable can create the required user namespace",
                    ),
                );
            },
        };
        validate_existing_path_encoding(
            &bwrap.program,
            &bwrap.resolution,
            "the pinned bubblewrap executable",
        )?;
        let network_denial = seccomp_supported && bwrap.network_namespace;
        Ok(
            SandboxRuntime {
                platform: HostPlatform::Linux,
                backend,
                capabilities: SandboxCapabilities {
                    backend,
                    minimal_read_policy: true,
                    denied_read_paths: true,
                    denied_write_paths: true,
                    network_denial,
                    network_unrestricted: true,
                    interrupt: true,
                    process_tree_termination: false,
                    terminal_isolation: false,
                },
                state_dir,
                linux: Some(LinuxRuntime { helper, bwrap_program: bwrap.program }),
            },
        )
    }

    fn new_windows(state_dir: NativePath) -> (result: Self)
        ensures
            is_runtime_of(result, state_dir, BackendReport::Windows),
            result.well_formed(),
    {
        let backend = SandboxBackend::WindowsRestrictedToken;
        SandboxRuntime {
            platform: HostPlatform::Windows,
            backend,
            capabilities: SandboxCapabilities {
                backend,
                minimal_read_policy: false,
                denied_read_paths: false,
                denied_write_paths: true,
                network_denial: false,
                network_unrestricted: true,
                interrupt: false,
                process_tree_termination: true,
                terminal_isolation: false,
            },
            state_dir,
            linux: None,
        }
    }

    /// Features enforced by the selected backend.
    pub fn capabilities(&self) -> (result: SandboxCapabilities)
        ensures
            result == self.capabilities,
    {
        self.capabilities
    }

    /// Whether these are the paths that the backend must be able to read.
    pub open spec fn are_internal_read_roots(self, helper_target: ResolutionModel, roots: Seq<PathModel>) -> bool {
        match self.platform {
            HostPlatform::Linux => crate::order::ordered_without_repeats(
                crate::runtime::linux::unordered_read_roots(self.linux->Some_0.helper@, helper_target).push(
                    self.linux->Some_0.bwrap_program@,
                ),
                roots,
            ),
            HostPlatform::Windows => roots == seq![self.state_dir@],
            _ => roots == Seq::<PathModel>::empty(),
        }
    }

    /// The paths that the backend must be able to read during a launch.
    ///
    /// `helper_target` is the location that the Linux helper's executable resolves to.
    pub fn internal_read_roots(&self, helper_target: &Resolution) -> (result: Vec<NativePath>)
        requires
            self.well_formed(),
        ensures
            self.are_internal_read_roots(helper_target@, result.deep_view()),
    {
        if let Some(linux) = &self.linux {
            return linux.helper.internal_read_roots(helper_target, &linux.bwrap_program);
        }
        let mut roots: Vec<NativePath> = Vec::new();
        if self.platform == HostPlatform::Windows {
            roots.push(self.state_dir.clone());
            assert(roots.deep_view() =~= seq![self.state_dir@]);
        } else {
            assert(roots.deep_view() =~= Seq::<PathModel>::empty());
        }
        roots
    }

    /// The policy that a launch enforces, or the first reason why it is refused: its draft,
    /// unless a path crosses a writable symlink where the backend needs stable paths.
    pub open spec fn admission(
        self,
        request: SandboxRequest,
        report: LaunchReport,
        crossings: CrossingsModel,
    ) -> Result<PreparedModel, SandboxErrorModel> {
        match self.draft_admission(request, report) {
            Err(error) => Err(error),
            Ok(draft) => match crate::policy::linux::crossing_refusal(crossings, self.backend) {
                Some(error) => Err(error),
                None => Ok(draft),
            },
        }
    }

    /// The draft of the policy that a launch enforces, or the first reason why it is refused.
    pub open spec fn draft_admission(self, request: SandboxRequest, report: LaunchReport) -> Result<
        PreparedModel,
        SandboxErrorModel,
    > {
        if let Some(error) = crate::runtime::command::cwd_refusal(request.command@.cwd, report.cwd) {
            Err(error)
        } else if let Some(error) = crate::runtime::command::command_refusal(self.platform, request.command@) {
            Err(error)
        } else if request.lifetime == SandboxLifetime::SupervisedProcessTree
            && !self.capabilities.process_tree_termination {
            Err(
                SandboxErrorModel::UnsupportedPolicy {
                    backend: self.backend,
                    feature: SandboxFeature::ProcessTreeTermination,
                    message: "durable supervised process-tree ownership is unavailable"@,
                },
            )
        } else if request.policy.terminal == TerminalPolicy::InheritedAndCreatedOnly
            && !self.capabilities.terminal_isolation {
            Err(
                SandboxErrorModel::UnsupportedPolicy {
                    backend: self.backend,
                    feature: SandboxFeature::TerminalIsolation,
                    message: "isolating host terminal-device paths is unavailable"@,
                },
            )
        } else if let Some(error) = self.backend_refusal(request.policy.network, report) {
            Err(error)
        } else {
            crate::policy::prepare::drafted(
                request.policy@,
                report.rules.deep_view(),
                request.command@.cwd,
                self.backend,
                report.internal_roots.deep_view(),
            )
        }
    }

    /// Why the backend cannot take a launch right now.
    pub open spec fn backend_refusal(self, network: NetworkPolicy, report: LaunchReport) -> Option<
        SandboxErrorModel,
    > {
        match (self.linux, report.helper) {
            (Some(linux), Some(helper)) => crate::runtime::linux::linux_refusal(
                linux.helper@.executable,
                helper.0@,
                helper.1,
                self.capabilities.network_denial,
                network,
                self.backend,
            ),
            _ => None,
        }
    }

    fn validate_backend(&self, network: NetworkPolicy, report: &LaunchReport) -> (result: Result<(), SandboxError>)
        ensures
            match self.backend_refusal(network, *report) {
                Some(expected) => result matches Err(error) && error@ == expected,
                None => result is Ok,
            },
    {
        match (&self.linux, &report.helper) {
            (Some(linux), Some(helper)) => validate_linux_backend(
                &linux.helper,
                &helper.0,
                helper.1,
                self.capabilities.network_denial,
                network,
                self.backend,
            ),
            _ => Ok(()),
        }
    }

    /// Whether a report answers what a launch asks the host.
    pub open spec fn is_report_for(self, request: SandboxRequest, report: LaunchReport) -> bool {
        &&& request.policy.filesystem.rules@.len() == report.rules@.len()
        &&& self.linux is Some ==> report.helper is Some
        &&& self.are_internal_read_roots(report.helper_target@, root_paths(report.internal_roots.deep_view()))
    }

    /// Decides whether a launch is admitted, and which policy it then enforces. `crossings`
    /// is what the host found for the draft of the policy.
    pub fn authorize(&self, request: &SandboxRequest, report: &LaunchReport, crossings: &PathCrossings) -> (result: Result<
        PreparedPolicy,
        SandboxError,
    >)
        requires
            self.well_formed(),
            self.is_report_for(*request, *report),
        ensures
            match self.admission(*request, *report, crossings@) {
                Ok(expected) => result matches Ok(policy) && policy@ == expected,
                Err(expected) => result matches Err(error) && error@ == expected,
            },
    {
        let draft = self.draft(request, report)?;
        settle_policy(draft, self.backend, crossings)
    }

    /// The draft of the policy that a launch enforces, by which the host finds the symlinks
    /// that its paths cross.
    pub fn draft(&self, request: &SandboxRequest, report: &LaunchReport) -> (result: Result<
        PolicyDraft,
        SandboxError,
    >)
        requires
            self.well_formed(),
            self.is_report_for(*request, *report),
        ensures
            match self.draft_admission(*request, *report) {
                Ok(expected) => result matches Ok(draft) && draft@ == expected,
                Err(expected) => result matches Err(error) && error@ == expected,
            },
    {
        validate_command_cwd(&request.command, &report.cwd)?;
        validate_command(self.platform, &request.command)?;
        if request.lifetime == SandboxLifetime::SupervisedProcessTree
            && !self.capabilities.process_tree_termination {
            return Err(
                unsupported(
                    self.backend,
                    SandboxFeature::ProcessTreeTermination,
                    "durable supervised process-tree ownership is unavailable",
                ),
            );
        }
        if request.policy.terminal == TerminalPolicy::InheritedAndCreatedOnly
            && !self.capabilities.terminal_isolation {
            return Err(
                unsupported(
                    self.backend,
                    SandboxFeature::TerminalIsolation,
                    "isolating host terminal-device paths is unavailable",
                ),
            );
        }
        self.validate_backend(request.policy.network, report)?;
        draft_policy(
            &request.policy,
            &report.rules,
            &request.command.cwd,
            self.backend,
            &report.internal_roots,
        )
    }
}

/// Why the network of a launch cannot be denied, if it is to be and cannot.
pub open spec fn network_denial_failure(capabilities: SandboxCapabilities, network: NetworkSandboxPolicy) -> Option<
    SandboxErrorModel,
> {
    if !capabilities.network_denial && network == NetworkSandboxPolicy::Restricted {
        Some(
            SandboxErrorModel::UnsupportedPolicy {
                backend: capabilities.backend,
                feature: SandboxFeature::NetworkDenial,
                message: "seccomp network denial is unavailable on this architecture"@,
            },
        )
    } else {
        None
    }
}

/// Refuses a launch whose network denial the architecture cannot enforce.
pub fn validate_network_denial(
    capabilities: SandboxCapabilities,
    network: NetworkSandboxPolicy,
) -> (result: Result<(), SandboxError>)
    ensures
        match network_denial_failure(capabilities, network) {
            Some(expected) => result matches Err(error) && error@ == expected,
            None => result is Ok,
        },
{
    if !capabilities.network_denial && network == NetworkSandboxPolicy::Restricted {
        return Err(
            unsupported(
                capabilities.backend,
                SandboxFeature::NetworkDenial,
                "seccomp network denial is unavailable on this architecture",
            ),
        );
    }
    Ok(())
}

/// The first variable that is not text, if there is one.
pub open spec fn environment_text_error(env: Seq<(NativeText, NativeText)>) -> Option<SandboxErrorModel>
    decreases env.len(),
{
    if env.len() == 0 {
        None
    } else {
        match environment_text_error(env.drop_last()) {
            Some(error) => Some(error),
            None => if !env.last().0.is_unicode() {
                Some(crate::runtime::command::unicode_error("environment key"@))
            } else if !env.last().1.is_unicode() {
                Some(crate::runtime::command::unicode_error("environment value"@))
            } else {
                None
            },
        }
    }
}

/// The variables as text.
pub open spec fn environment_texts(env: Seq<(NativeText, NativeText)>) -> Seq<(Seq<char>, Seq<char>)> {
    env.map_values(|variable: (NativeText, NativeText)| (variable.0->Unicode_0, variable.1->Unicode_0))
}

proof fn lemma_environment_error_stays(env: Seq<(NativeText, NativeText)>, count: int)
    requires
        0 <= count <= env.len(),
        environment_text_error(env.take(count)) is Some,
    ensures
        environment_text_error(env) == environment_text_error(env.take(count)),
    decreases env.len() - count,
{
    if count == env.len() {
        model::lemma_take_all(env);
    } else {
        model::lemma_take_push(env, count);
        lemma_environment_error_stays(env, count + 1);
    }
}

/// The environment as text, for a backend that passes text.
pub fn text_environment(env: &Vec<(NativeString, NativeString)>) -> (result: Result<
    Vec<(String, String)>,
    SandboxError,
>)
    ensures
        match environment_text_error(env.deep_view()) {
            Some(expected) => result matches Err(error) && error@ == expected,
            None => result matches Ok(texts) && texts.deep_view() == environment_texts(env.deep_view()),
        },
{
    let ghost models = env.deep_view();
    let ghost texts = environment_texts(models);
    let mut result: Vec<(String, String)> = Vec::new();
    proof {
        model::lemma_take_all(models);
        model::lemma_take_all(texts);
        assert(result.deep_view() =~= texts.take(0));
    }
    for index in 0..env.len()
        invariant
            models == env.deep_view(),
            texts == environment_texts(models),
            environment_text_error(models.take(index as int)) is None,
            result.deep_view() == texts.take(index as int),
    {
        proof {
            assert(models[index as int] == env@[index as int].deep_view());
            model::lemma_take_push(models, index as int);
            model::lemma_take_push(texts, index as int);
            if environment_text_error(models.take(index + 1)) is Some {
                lemma_environment_error_stays(models, index + 1);
            }
        }
        let key = require_utf8_os(&env[index].0, "environment key")?;
        let value = require_utf8_os(&env[index].1, "environment value")?;
        let ghost before = result;
        let variable = (key.clone(), value.clone());
        result.push(variable);
        proof {
            model::lemma_deep_push(before, result, variable);
        }
    }
    proof {
        model::lemma_take_all(models);
        model::lemma_take_all(texts);
    }
    Ok(result)
}

/// An environment that is a map stays one as text: no name comes twice.
pub proof fn text_environments_are_maps(env: Seq<(NativeText, NativeText)>)
    requires
        crate::order::keys_in_order(env),
        environment_text_error(env) is None,
    ensures
        crate::windows::embedding::env_block::distinct_names(environment_texts(env)),
{
    let texts = environment_texts(env);
    assert forall|index: int| 0 <= index < env.len() implies (#[trigger] env[index]).0.is_unicode() by {
        model::lemma_take_push(env, index);
        if environment_text_error(env.take(index + 1)) is Some {
            lemma_environment_error_stays(env, index + 1);
        }
    }
    assert forall|first: int, second: int| 0 <= first < second < texts.len() implies (#[trigger] texts[first]).0 != (
    #[trigger] texts[second]).0 by {
        crate::order::ordered_keys_differ(env, first, second);
        assert(env[first].0.is_unicode() && env[second].0.is_unicode());
    }
}

/// The error unless the caller leads its own isolated process group and session.
pub open spec fn group_termination_error(
    platform: HostPlatform,
    process_id: u32,
    process_group_id: i32,
    session_id: i32,
) -> Option<SandboxErrorModel> {
    if platform != HostPlatform::Macos {
        Some(
            SandboxErrorModel::UnsupportedPolicy {
                backend: crate::runtime::command::default_backend(platform),
                feature: SandboxFeature::CurrentProcessGroupTermination,
                message:
                    "terminating the current process group while preserving its leader is unavailable on this backend"@,
            },
        )
    } else if process_id > i32::MAX {
        Some(
            SandboxErrorModel::InvalidOperation {
                message: "the current process ID cannot identify a native process group"@,
            },
        )
    } else if process_group_id != process_id || session_id != process_id {
        Some(
            SandboxErrorModel::InvalidOperation {
                message: "the caller is not the leader of its own isolated process group and session"@,
            },
        )
    } else {
        None
    }
}

/// Decides whether the caller may terminate the other members of its process group.
/// The caller itself is then the group's leader and the one member to preserve.
pub fn terminate_current_process_group_members(
    platform: HostPlatform,
    process_id: u32,
    process_group_id: i32,
    session_id: i32,
) -> (result: Result<(), SandboxError>)
    ensures
        match group_termination_error(platform, process_id, process_group_id, session_id) {
            Some(expected) => result matches Err(error) && error@ == expected,
            None => result is Ok,
        },
{
    if platform != HostPlatform::Macos {
        return Err(
            unsupported(
                host_backend(platform),
                SandboxFeature::CurrentProcessGroupTermination,
                "terminating the current process group while preserving its leader is unavailable on this backend",
            ),
        );
    }
    if process_id > i32::MAX as u32 {
        return Err(
            SandboxError::InvalidOperation {
                message: "the current process ID cannot identify a native process group".to_owned(),
            },
        );
    }
    let process_id_native: i32 = process_id as i32;
    if process_group_id != process_id_native || session_id != process_id_native {
        return Err(
            SandboxError::InvalidOperation {
                message: "the caller is not the leader of its own isolated process group and session".to_owned(),
            },
        );
    }
    Ok(())
}

/// An admitted launch asks only for what the backend reports as its capabilities.
pub proof fn admitted_launches_stay_within_capabilities(
    runtime: SandboxRuntime,
    request: SandboxRequest,
    report: LaunchReport,
    crossings: CrossingsModel,
)
    requires
        runtime.well_formed(),
        runtime.admission(request, report, crossings) is Ok,
    ensures
        request.lifetime == SandboxLifetime::SupervisedProcessTree
            ==> runtime.capabilities.process_tree_termination,
        request.policy.terminal == TerminalPolicy::InheritedAndCreatedOnly
            ==> runtime.capabilities.terminal_isolation,
{
}

/// On every host, an admitted launch that denies the network runs on a backend that
/// reports network denial.
pub proof fn admitted_network_denial_is_enforceable(
    runtime: SandboxRuntime,
    state_dir: NativePath,
    backend_report: BackendReport,
    request: SandboxRequest,
    report: LaunchReport,
    crossings: CrossingsModel,
)
    requires
        is_runtime_of(runtime, state_dir, backend_report),
        runtime.linux is Some ==> report.helper is Some,
        runtime.admission(request, report, crossings) is Ok,
        request.policy.network == NetworkPolicy::Denied,
    ensures
        runtime.capabilities.network_denial,
{
    assert(request.policy@.network == NetworkPolicy::Denied);
    if runtime.platform == HostPlatform::Windows {
        let rules = model::collected(
            crate::policy::prepare::rule_steps(request.policy@.rules, report.rules.deep_view()),
        )->Ok_0;
        crate::policy::backend::restricted_token_never_weakens(request.policy@, rules);
    }
}

/// A state directory is used exactly when the host has a sandbox, the path is absolute,
/// and it was created, resolved and is a directory; where the backend passes text its
/// location is text. What is used is the location that it resolved to.
pub proof fn state_directories_are_their_location(
    platform: HostPlatform,
    platform_name: Seq<char>,
    state_dir: PathModel,
    creation_failure: Option<Seq<char>>,
    resolution: ResolutionModel,
    is_directory: bool,
)
    ensures
        state_directory(platform, platform_name, state_dir, creation_failure, resolution, is_directory) is Ok <==> {
            &&& platform != HostPlatform::Other
            &&& state_dir.absolute
            &&& creation_failure is None
            &&& is_directory
            &&& resolution matches ResolutionModel::Resolved(location) && (platform == HostPlatform::Macos
                || location.text.is_unicode())
        },
        state_directory(platform, platform_name, state_dir, creation_failure, resolution, is_directory) matches Ok(
            location,
        ) ==> resolution == ResolutionModel::Resolved(location),
{
}

/// A backend is used exactly where what it needs is there: the launcher of Seatbelt, or a
/// bubblewrap under a name that can be passed on. Windows needs nothing.
pub proof fn backends_need_their_tools(report: BackendReport)
    ensures
        match report {
            BackendReport::Macos { launcher_installed } => backend_failure(report) is None <==> launcher_installed,
            BackendReport::Linux { helper: _, working_directory_failure, bwrap, seccomp_supported: _ } => {
                backend_failure(report) is None <==> working_directory_failure is None && (bwrap matches Some(bwrap)
                    && bwrap.program@.text.is_unicode() && (bwrap.resolution@ matches ResolutionModel::Resolved(
                    resolved,
                ) && resolved.text.is_unicode()))
            },
            BackendReport::Windows => backend_failure(report) is None,
        },
{
}

/// What a runtime reports as its capabilities is what its backend does. A feature that is
/// not reported is refused wherever a policy asks for it, and a feature that is reported is
/// not what a policy without rules is refused for. Trees are owned on macOS and Windows,
/// interrupts are delivered on macOS and Linux, and terminals are isolated on macOS.
pub proof fn capabilities_are_what_is_enforced(
    runtime: SandboxRuntime,
    state_dir: NativePath,
    report: BackendReport,
    policy: PolicyModel,
    rules: Seq<ResolvedRuleModel>,
)
    requires
        is_runtime_of(runtime, state_dir, report),
    ensures
        runtime.backend == crate::runtime::command::default_backend(runtime.platform),
        runtime.state_dir == state_dir,
        !runtime.capabilities.minimal_read_policy && policy.base == FileSystemBase::PlatformMinimal
            ==> crate::policy::backend::backend_refusal(policy, rules, runtime.backend) is Some,
        !runtime.capabilities.denied_read_paths && crate::policy::backend::has_access(rules, PathAccess::Deny)
            ==> crate::policy::backend::backend_refusal(policy, rules, runtime.backend) is Some,
        runtime.capabilities.denied_write_paths,
        runtime.capabilities.network_unrestricted,
        rules.len() == 0 && runtime.capabilities.minimal_read_policy && runtime.capabilities.denied_read_paths
            ==> crate::policy::backend::backend_refusal(policy, rules, runtime.backend) is None,
        runtime.capabilities.interrupt <==> !(report is Windows),
        runtime.capabilities.process_tree_termination <==> !(report is Linux),
        runtime.capabilities.terminal_isolation <==> report is Macos,
        runtime.capabilities.minimal_read_policy <==> !(report is Windows),
        runtime.capabilities.denied_read_paths <==> !(report is Windows),
        runtime.capabilities.network_denial <==> match report {
            BackendReport::Macos { .. } => true,
            BackendReport::Linux { helper: _, working_directory_failure: _, bwrap, seccomp_supported } => {
                seccomp_supported && (bwrap matches Some(bwrap) && bwrap.network_namespace)
            },
            BackendReport::Windows => false,
        },
        runtime.linux is Some <==> report is Linux,
        report matches BackendReport::Linux { helper, working_directory_failure: _, bwrap, seccomp_supported: _ } ==> (
        runtime.linux matches Some(linux) && linux.helper == helper && (bwrap matches Some(bwrap)
            && linux.bwrap_program == bwrap.program)),
{
    if rules.len() == 0 {
        assert(forall|index: int| !crate::policy::backend::first_overlap(
            rules,
            crate::policy::backend::top_level("proc"@),
            index,
        ));
    }
}

/// A launch is admitted exactly when its directory and its command can be used, its backend
/// owns trees and isolates terminals where that is asked for, the backend takes it right
/// now, and its policy is prepared. What it then enforces is that prepared policy, for the
/// command's own directory, and nothing else.
pub proof fn admitted_launches_enforce_their_policy(
    runtime: SandboxRuntime,
    request: SandboxRequest,
    report: LaunchReport,
    crossings: CrossingsModel,
)
    requires
        runtime.well_formed(),
        runtime.is_report_for(request, report),
    ensures
        ({
            let enforced = crate::policy::prepare::prepared(
                request.policy@,
                report.rules.deep_view(),
                request.command.cwd@,
                runtime.backend,
                report.internal_roots.deep_view(),
                crossings,
            );
            let admission = runtime.admission(request, report, crossings);
            &&& admission is Ok <==> {
                &&& crate::runtime::command::cwd_refusal(request.command.cwd@, report.cwd) is None
                &&& crate::runtime::command::command_refusal(runtime.platform, request.command@) is None
                &&& request.lifetime == SandboxLifetime::BackendDefault
                    || runtime.capabilities.process_tree_termination
                &&& request.policy.terminal == TerminalPolicy::BackendDefault || runtime.capabilities.terminal_isolation
                &&& runtime.backend_refusal(request.policy.network, report) is None
                &&& enforced is Ok
            }
            &&& admission matches Ok(policy) ==> enforced == Ok::<PreparedModel, SandboxErrorModel>(policy)
        }),
{
}

/// No launch is refused for the network unless it denies the network: a launch that leaves
/// it open never meets that refusal, on any backend.
pub proof fn open_networks_are_never_refused_for_the_network(
    runtime: SandboxRuntime,
    request: SandboxRequest,
    report: LaunchReport,
    crossings: CrossingsModel,
)
    requires
        runtime.well_formed(),
        runtime.is_report_for(request, report),
    ensures
        runtime.admission(request, report, crossings) matches Err(error) ==> (error is UnsupportedPolicy
            && error->UnsupportedPolicy_feature == SandboxFeature::NetworkDenial ==> request.policy.network
            == NetworkPolicy::Denied),
        request.policy.network == NetworkPolicy::Unrestricted && runtime.linux is Some
            && crate::runtime::linux::is_usable_helper(
            runtime.linux->Some_0.helper.executable@,
            report.helper->Some_0.0@,
        ) && report.helper->Some_0.1.available ==> runtime.backend_refusal(request.policy.network, report) is None,
        runtime.linux is None ==> runtime.backend_refusal(request.policy.network, report) is None,
{
    let rules = report.rules.deep_view();
    let roots = report.internal_roots.deep_view();
    let steps = crate::policy::prepare::rule_steps(request.policy@.rules, rules);
    crate::runtime::command::refused_commands_are_reported_as_such(runtime.platform, request.command@);
    crate::runtime::command::working_directories_must_exist(request.command.cwd@, report.cwd);
    if let (Some(linux), Some(helper)) = (runtime.linux, report.helper) {
        crate::runtime::linux::linux_refusals_have_their_reason(
            linux.helper.executable@,
            helper.0@,
            helper.1,
            runtime.capabilities.network_denial,
            request.policy.network,
            runtime.backend,
        );
    }
    lemma_other_refusals(steps);
    if let Ok(kept) = model::collected(steps) {
        crate::policy::backend::bubblewrap_accepts_what_it_enforces(request.policy@, kept);
        crate::policy::backend::seatbelt_accepts_what_it_enforces(request.policy@, kept);
        let internal = crate::policy::prepare::internal_steps(kept, roots, runtime.backend);
        lemma_other_refusals(internal);
        let metadata = crate::policy::prepare::metadata_steps(kept, request.policy@.base, kept);
        crate::policy::laws::lemma_metadata_failures(kept, request.policy@.base, kept);
        lemma_other_refusals(metadata);
    }
}

proof fn lemma_other_refusals<T>(steps: Seq<Step<T, SandboxErrorModel>>)
    requires
        forall|index: int|
            0 <= index < steps.len() ==> ((#[trigger] steps[index]) matches Step::Fail(error) ==> !(error
                is UnsupportedPolicy && error->UnsupportedPolicy_feature == SandboxFeature::NetworkDenial)),
    ensures
        model::collected(steps) matches Err(error) ==> !(error is UnsupportedPolicy
            && error->UnsupportedPolicy_feature == SandboxFeature::NetworkDenial),
    decreases steps.len(),
{
    if steps.len() > 0 {
        let shorter = steps.drop_last();
        assert forall|index: int| 0 <= index < shorter.len() implies ((#[trigger] shorter[index]) matches Step::Fail(
            error,
        ) ==> !(error is UnsupportedPolicy && error->UnsupportedPolicy_feature == SandboxFeature::NetworkDenial)) by {
            assert(shorter[index] == steps[index]);
        }
        lemma_other_refusals(shorter);
    }
}

/// An environment is passed as text exactly where all of it is text, and then every
/// variable keeps its place, its key and its value.
pub proof fn text_environments_are_whole(env: Seq<(NativeText, NativeText)>, index: int)
    ensures
        environment_text_error(env) is None <==> forall|i: int|
            0 <= i < env.len() ==> (#[trigger] env[i]).0.is_unicode() && env[i].1.is_unicode(),
        environment_texts(env).len() == env.len(),
        environment_text_error(env) is None && 0 <= index < env.len() ==> env[index] == (
            NativeText::Unicode(environment_texts(env)[index].0),
            NativeText::Unicode(environment_texts(env)[index].1),
        ),
    decreases env.len(),
{
    if env.len() > 0 {
        let shorter = env.drop_last();
        text_environments_are_whole(shorter, index);
        if environment_text_error(env) is None {
            assert forall|i: int| 0 <= i < env.len() implies (#[trigger] env[i]).0.is_unicode()
                && env[i].1.is_unicode() by {
                if i < shorter.len() {
                    assert(shorter[i] == env[i]);
                }
            }
            if 0 <= index < env.len() {
                assert(env[index].0.is_unicode() && env[index].1.is_unicode());
            }
        }
        if forall|i: int| 0 <= i < env.len() ==> (#[trigger] env[i]).0.is_unicode() && env[i].1.is_unicode() {
            assert forall|i: int| 0 <= i < shorter.len() implies (#[trigger] shorter[i]).0.is_unicode()
                && shorter[i].1.is_unicode() by {
                assert(shorter[i] == env[i]);
            }
            assert(env[env.len() - 1].0.is_unicode());
        }
    }
}

/// A process may terminate the members of a group only on macOS and only as the leader of
/// a group and a session of its own.
pub proof fn only_isolated_leaders_terminate_their_group(
    platform: HostPlatform,
    process_id: u32,
    process_group_id: i32,
    session_id: i32,
)
    ensures
        group_termination_error(platform, process_id, process_group_id, session_id) is None <==> platform
            == HostPlatform::Macos && process_group_id == process_id && session_id == process_id,
        platform != HostPlatform::Macos ==> (group_termination_error(
            platform,
            process_id,
            process_group_id,
            session_id,
        ) matches Some(error) && error is UnsupportedPolicy && error->UnsupportedPolicy_feature
            == SandboxFeature::CurrentProcessGroupTermination),
        platform == HostPlatform::Macos ==> (group_termination_error(
            platform,
            process_id,
            process_group_id,
            session_id,
        ) matches Some(error) ==> error is InvalidOperation),
{
}

/// What the backend itself has to read: on Linux the helper's directory and executable, the
/// running executable where it stands for the helper, what the helper resolves to, and
/// bubblewrap; on Windows the state directory; on macOS nothing. Nothing else is opened
/// for it.
pub proof fn backends_read_what_they_need(
    runtime: SandboxRuntime,
    helper_target: ResolutionModel,
    roots: Seq<PathModel>,
    index: int,
)
    requires
        runtime.are_internal_read_roots(helper_target, roots),
        0 <= index < roots.len(),
    ensures
        runtime.platform is Linux || runtime.platform is Windows,
        runtime.platform is Windows ==> roots.len() == 1 && roots[index] == runtime.state_dir@,
        runtime.platform is Linux ==> {
            let linux = runtime.linux->Some_0;
            let helper = linux.helper@;
            &&& {
                ||| roots[index] == helper.directory
                ||| roots[index] == helper.executable
                ||| helper.current_executable == Some(roots[index])
                ||| helper_target == ResolutionModel::Resolved(roots[index])
                ||| roots[index] == linux.bwrap_program@
            }
            &&& crate::order::has_place_of(roots, helper.directory)
            &&& crate::order::has_place_of(roots, helper.executable)
            &&& crate::order::has_place_of(roots, linux.bwrap_program@)
        },
{
    if runtime.platform is Linux {
        let linux = runtime.linux->Some_0;
        let helper = linux.helper@;
        let own = crate::runtime::linux::unordered_read_roots(helper, helper_target);
        let needed = own.push(linux.bwrap_program@);
        assert(crate::order::comes_first_in(needed, roots[index]));
        let source = choose|source: int|
            #[trigger] crate::order::first_at_place(needed, source) && needed[source] == roots[index];
        if source < own.len() {
            assert(own[source] == roots[index]);
            assert(own.contains(roots[index]));
        }
        crate::runtime::linux::helpers_read_themselves_only(helper, helper_target, roots[index]);
        let directory = choose|at: int| 0 <= at < own.len() && own[at] == helper.directory;
        let executable = choose|at: int| 0 <= at < own.len() && own[at] == helper.executable;
        assert(needed[directory] == helper.directory);
        assert(needed[executable] == helper.executable);
        assert(needed[own.len() as int] == linux.bwrap_program@);
        assert(crate::order::has_place_of(roots, needed[directory]));
        assert(crate::order::has_place_of(roots, needed[executable]));
        assert(crate::order::has_place_of(roots, needed[own.len() as int]));
    }
}

/// A launch is refused for the network exactly where it is to be denied and the host cannot
/// deny it.
pub proof fn denied_networks_need_the_capability(capabilities: SandboxCapabilities, network: NetworkSandboxPolicy)
    ensures
        network_denial_failure(capabilities, network) is None <==> capabilities.network_denial || !(network
            is Restricted),
        network_denial_failure(capabilities, network) matches Some(error) ==> error is UnsupportedPolicy
            && error->UnsupportedPolicy_feature == SandboxFeature::NetworkDenial && error->UnsupportedPolicy_backend
            == capabilities.backend,
{
}

/// A launch that asks for a supervised tree or an isolated terminal where the backend has
/// none is refused for exactly that, once its command and directory are in order.
pub proof fn missing_features_are_named(
    runtime: SandboxRuntime,
    request: SandboxRequest,
    report: LaunchReport,
    crossings: CrossingsModel,
)
    requires
        runtime.well_formed(),
        runtime.is_report_for(request, report),
        crate::runtime::command::cwd_refusal(request.command.cwd@, report.cwd) is None,
        crate::runtime::command::command_refusal(runtime.platform, request.command@) is None,
    ensures
        ({
            let admission = runtime.admission(request, report, crossings);
            let untied = request.lifetime == SandboxLifetime::SupervisedProcessTree
                && !runtime.capabilities.process_tree_termination;
            let open_terminal = request.policy.terminal == TerminalPolicy::InheritedAndCreatedOnly
                && !runtime.capabilities.terminal_isolation;
            &&& untied ==> (admission matches Err(error) && error is UnsupportedPolicy
                && error->UnsupportedPolicy_feature == SandboxFeature::ProcessTreeTermination)
            &&& !untied && open_terminal ==> (admission matches Err(error) && error is UnsupportedPolicy
                && error->UnsupportedPolicy_feature == SandboxFeature::TerminalIsolation)
        }),
{
}

} // verus!
