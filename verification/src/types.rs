//! Requests, policies, and configuration supplied by an embedding application.

use crate::model;
use crate::native::{NativePath, NativeString, PathModel};
use vstd::prelude::*;
use vstd::string::*;

verus! {

/// Version of the public embedding contract exported by this crate.
pub const SANDBOX_API_VERSION: u32 = 2;

/// Selects which native sandbox implementation the runtime should use.
#[derive(Clone, Copy, Debug, PartialEq, Eq, Structural)]
pub enum BackendPreference {
    PlatformDefault,
}

/// Native sandbox implementation selected for a runtime.
#[derive(Clone, Copy, Debug, PartialEq, Eq, Structural)]
pub enum SandboxBackend {
    MacosSeatbelt,
    LinuxBubblewrap,
    LinuxLandlock,
    WindowsRestrictedToken,
    WindowsElevated,
}

impl SandboxBackend {
    /// The backend's name in diagnostics.
    pub open spec fn name_text(self) -> Seq<char> {
        match self {
            SandboxBackend::MacosSeatbelt => "MacosSeatbelt"@,
            SandboxBackend::LinuxBubblewrap => "LinuxBubblewrap"@,
            SandboxBackend::LinuxLandlock => "LinuxLandlock"@,
            SandboxBackend::WindowsRestrictedToken => "WindowsRestrictedToken"@,
            SandboxBackend::WindowsElevated => "WindowsElevated"@,
        }
    }

    pub(crate) fn name(self) -> (result: &'static str)
        ensures
            result@ == self.name_text(),
    {
        match self {
            SandboxBackend::MacosSeatbelt => "MacosSeatbelt",
            SandboxBackend::LinuxBubblewrap => "LinuxBubblewrap",
            SandboxBackend::LinuxLandlock => "LinuxLandlock",
            SandboxBackend::WindowsRestrictedToken => "WindowsRestrictedToken",
            SandboxBackend::WindowsElevated => "WindowsElevated",
        }
    }
}

/// Features enforced by the selected native backend.
#[derive(Clone, Copy, Debug, PartialEq, Eq, Structural)]
pub struct SandboxCapabilities {
    pub backend: SandboxBackend,
    pub minimal_read_policy: bool,
    pub denied_read_paths: bool,
    pub denied_write_paths: bool,
    pub network_denial: bool,
    pub network_unrestricted: bool,
    pub interrupt: bool,
    /// Whether termination remains authoritative for descendants after the root exits.
    pub process_tree_termination: bool,
    /// Whether host terminal devices other than inherited or created ones stay closed.
    pub terminal_isolation: bool,
}

/// Linux helper executable used to enter the Linux sandbox.
#[derive(Debug, PartialEq, Eq)]
pub enum LinuxHelper {
    /// Use a separately installed or vendored helper executable.
    External(NativePath),
    /// Re-execute the embedding application through a private helper alias.
    CurrentExecutable,
}

/// What a [`LinuxHelper`] holds.
pub enum LinuxHelperModel {
    External(PathModel),
    CurrentExecutable,
}

impl DeepView for LinuxHelper {
    type V = LinuxHelperModel;

    open spec fn deep_view(&self) -> LinuxHelperModel {
        match self {
            LinuxHelper::External(path) => LinuxHelperModel::External(path@),
            LinuxHelper::CurrentExecutable => LinuxHelperModel::CurrentExecutable,
        }
    }
}

impl View for LinuxHelper {
    type V = LinuxHelperModel;

    open spec fn view(&self) -> LinuxHelperModel {
        self.deep_view()
    }
}

impl Clone for LinuxHelper {
    fn clone(&self) -> (result: Self)
        ensures
            result@ == self@,
    {
        match self {
            LinuxHelper::External(path) => LinuxHelper::External(path.clone()),
            LinuxHelper::CurrentExecutable => LinuxHelper::CurrentExecutable,
        }
    }
}

/// Linux-specific runtime choices.
#[derive(Debug, PartialEq, Eq)]
pub struct LinuxOptions {
    pub helper: LinuxHelper,
}

impl Clone for LinuxOptions {
    fn clone(&self) -> (result: Self)
        ensures
            result.helper@ == self.helper@,
    {
        LinuxOptions { helper: self.helper.clone() }
    }
}

impl Default for LinuxOptions {
    fn default() -> (result: Self)
        ensures
            result.helper is CurrentExecutable,
    {
        LinuxOptions { helper: LinuxHelper::CurrentExecutable }
    }
}

/// Windows-specific runtime choices.
#[derive(Clone, Copy, Debug, PartialEq, Eq)]
pub struct WindowsOptions {}

impl Default for WindowsOptions {
    fn default() -> (result: Self)
        ensures
            result == (WindowsOptions {  }),
    {
        WindowsOptions {  }
    }
}

/// Runtime configuration owned entirely by the embedding application.
#[derive(Clone, Debug, PartialEq, Eq)]
pub struct SandboxRuntimeConfig {
    /// Application-owned persistent or runtime state directory.
    ///
    /// Keep it outside paths writable by sandboxed children.
    pub state_dir: NativePath,
    /// Select the native platform sandbox and fail if it is unavailable.
    pub backend: BackendPreference,
    /// Choices that apply on Linux hosts only.
    pub linux: LinuxOptions,
    /// Choices that apply on Windows hosts only.
    pub windows: WindowsOptions,
}

impl SandboxRuntimeConfig {
    pub fn new(state_dir: NativePath) -> (result: Self)
        ensures
            result.state_dir == state_dir,
            result.backend == BackendPreference::PlatformDefault,
            result.linux.helper is CurrentExecutable,
    {
        SandboxRuntimeConfig {
            state_dir,
            backend: BackendPreference::PlatformDefault,
            linux: LinuxOptions::default(),
            windows: WindowsOptions::default(),
        }
    }
}

/// Complete process launch description supplied by the embedding application.
#[derive(Clone, Debug)]
pub struct CommandSpec {
    /// Absolute executable path. The facade does not search `PATH`.
    pub program: NativePath,
    pub args: Vec<NativeString>,
    pub cwd: NativePath,
    /// Complete environment for the child, ordered by key, each key once; no parent values are merged.
    pub env: Vec<(NativeString, NativeString)>,
}

impl CommandSpec {
    /// Whether the environment is ordered by key, each key once.
    pub open spec fn well_formed(self) -> bool {
        crate::order::keys_in_order(self.env.deep_view())
    }

    pub fn new(
        program: NativePath,
        cwd: NativePath,
        env: Vec<(NativeString, NativeString)>,
    ) -> (result: Self)
        requires
            crate::order::keys_in_order(env.deep_view()),
        ensures
            result.well_formed(),
            result.program == program,
            result.args@.len() == 0,
            result.cwd == cwd,
            result.env == env,
    {
        CommandSpec { program, args: Vec::new(), cwd, env }
    }

    pub fn arg(self, arg: NativeString) -> (result: Self)
        requires
            self.well_formed(),
        ensures
            result.well_formed(),
            result.program == self.program,
            result.args@ == self.args@.push(arg),
            result.cwd == self.cwd,
            result.env == self.env,
    {
        let mut command = self;
        command.args.push(arg);
        command
    }

    pub fn args(self, args: Vec<NativeString>) -> (result: Self)
        requires
            self.well_formed(),
        ensures
            result.well_formed(),
            result.program == self.program,
            result.args@ == self.args@ + args@,
            result.cwd == self.cwd,
            result.env == self.env,
    {
        let mut command = self;
        let mut args = args;
        command.args.append(&mut args);
        command
    }
}

fn same_values(left: &Vec<NativeString>, right: &Vec<NativeString>) -> (result: bool)
    ensures
        result == (left.deep_view() == right.deep_view()),
{
    let ghost lefts = left.deep_view();
    let ghost rights = right.deep_view();
    if left.len() != right.len() {
        assert(lefts.len() != rights.len());
        return false;
    }
    for index in 0..left.len()
        invariant
            left.len() == right.len(),
            lefts == left.deep_view(),
            rights == right.deep_view(),
            forall|i: int| 0 <= i < index ==> lefts[i] == rights[i],
    {
        assert(lefts[index as int] == left@[index as int]@ && rights[index as int] == right@[index as int]@);
        if !left[index].same(&right[index]) {
            return false;
        }
    }
    assert(lefts =~= rights);
    true
}

fn same_variables(
    left: &Vec<(NativeString, NativeString)>,
    right: &Vec<(NativeString, NativeString)>,
) -> (result: bool)
    ensures
        result == (left.deep_view() == right.deep_view()),
{
    let ghost lefts = left.deep_view();
    let ghost rights = right.deep_view();
    if left.len() != right.len() {
        assert(lefts.len() != rights.len());
        return false;
    }
    for index in 0..left.len()
        invariant
            left.len() == right.len(),
            lefts == left.deep_view(),
            rights == right.deep_view(),
            forall|i: int| 0 <= i < index ==> lefts[i] == rights[i],
    {
        assert(lefts[index as int] == left@[index as int].deep_view());
        assert(rights[index as int] == right@[index as int].deep_view());
        if !left[index].0.same(&right[index].0) || !left[index].1.same(&right[index].1) {
            return false;
        }
    }
    assert(lefts =~= rights);
    true
}

/// Commands are equal when their programs are spelled alike, their working directories are
/// the same path, and their arguments and variables are the same values.
impl PartialEq for CommandSpec {
    fn eq(&self, other: &Self) -> (result: bool) {
        self.program.text.same(&other.program.text) && same_values(&self.args, &other.args) && self.cwd.same_path(
            &other.cwd,
        ) && same_variables(&self.env, &other.env)
    }
}

impl vstd::std_specs::cmp::PartialEqSpecImpl for CommandSpec {
    open spec fn obeys_eq_spec() -> bool {
        true
    }

    open spec fn eq_spec(&self, other: &Self) -> bool {
        &&& self.program@.text == other.program@.text
        &&& self.args.deep_view() == other.args.deep_view()
        &&& self.cwd@.same_path(other.cwd@)
        &&& self.env.deep_view() == other.env.deep_view()
    }
}

impl Eq for CommandSpec {}

/// Filesystem access baseline applied before explicit path rules.
#[derive(Clone, Copy, Debug, PartialEq, Eq, Structural)]
pub enum FileSystemBase {
    /// Allow only roots required to launch ordinary programs, plus explicit rules.
    PlatformMinimal,
    /// Allow host filesystem reads while limiting writes and applying deny rules.
    HostReadOnly,
}

/// Access granted at a path and its descendants.
#[derive(Clone, Copy, Debug, PartialEq, Eq, Structural)]
pub enum PathAccess {
    Read,
    Write,
    Deny,
}

/// Treatment of a rule whose path is absent during sandbox preparation.
#[derive(Clone, Copy, Debug, PartialEq, Eq, Structural)]
pub enum MissingPathBehavior {
    Error,
    Ignore,
}

/// One absolute filesystem policy rule.
#[derive(Debug, PartialEq, Eq)]
pub struct PathRule {
    pub path: NativePath,
    pub access: PathAccess,
    pub missing: MissingPathBehavior,
}

/// What a [`PathRule`] holds.
pub struct RuleModel {
    pub path: PathModel,
    pub access: PathAccess,
    pub missing: MissingPathBehavior,
}

impl DeepView for PathRule {
    type V = RuleModel;

    open spec fn deep_view(&self) -> RuleModel {
        RuleModel { path: self.path@, access: self.access, missing: self.missing }
    }
}

impl View for PathRule {
    type V = RuleModel;

    open spec fn view(&self) -> RuleModel {
        self.deep_view()
    }
}

impl Clone for PathRule {
    fn clone(&self) -> (result: Self)
        ensures
            result@ == self@,
    {
        PathRule { path: self.path.clone(), access: self.access, missing: self.missing }
    }
}

impl PathRule {
    pub fn new(path: NativePath, access: PathAccess) -> (result: Self)
        ensures
            result == (PathRule { path, access, missing: MissingPathBehavior::Error }),
    {
        PathRule { path, access, missing: MissingPathBehavior::Error }
    }

    pub fn ignore_if_missing(self) -> (result: Self)
        ensures
            result == (PathRule {
                path: self.path,
                access: self.access,
                missing: MissingPathBehavior::Ignore,
            }),
    {
        PathRule { path: self.path, access: self.access, missing: MissingPathBehavior::Ignore }
    }
}

/// Filesystem policy independent of any application configuration type.
#[derive(Clone, Debug, PartialEq, Eq)]
pub struct FileSystemPolicy {
    pub base: FileSystemBase,
    pub rules: Vec<PathRule>,
}

/// Direct network access policy for the target process.
#[derive(Clone, Copy, Debug, PartialEq, Eq, Structural)]
pub enum NetworkPolicy {
    Denied,
    Unrestricted,
}

/// Which terminal devices the target process may reach.
#[derive(Clone, Copy, Debug, PartialEq, Eq, Structural)]
pub enum TerminalPolicy {
    /// Whatever the selected backend does on its own.
    BackendDefault,
    /// Only terminals that were inherited, or that the target itself created.
    InheritedAndCreatedOnly,
}

/// Filesystem, network, and terminal policy for one child.
#[derive(Clone, Debug, PartialEq, Eq)]
pub struct SandboxPolicy {
    pub filesystem: FileSystemPolicy,
    pub network: NetworkPolicy,
    pub terminal: TerminalPolicy,
}

/// What a [`SandboxPolicy`] holds.
pub struct PolicyModel {
    pub base: FileSystemBase,
    pub rules: Seq<RuleModel>,
    pub network: NetworkPolicy,
    pub terminal: TerminalPolicy,
}

impl DeepView for SandboxPolicy {
    type V = PolicyModel;

    open spec fn deep_view(&self) -> PolicyModel {
        PolicyModel {
            base: self.filesystem.base,
            rules: self.filesystem.rules.deep_view(),
            network: self.network,
            terminal: self.terminal,
        }
    }
}

impl View for SandboxPolicy {
    type V = PolicyModel;

    open spec fn view(&self) -> PolicyModel {
        self.deep_view()
    }
}

impl PolicyModel {
    /// A policy with no rules, no network, and the backend's own terminal treatment.
    pub open spec fn bare(base: FileSystemBase) -> PolicyModel {
        PolicyModel {
            base,
            rules: Seq::empty(),
            network: NetworkPolicy::Denied,
            terminal: TerminalPolicy::BackendDefault,
        }
    }

    /// The policy with one more rule after the others.
    pub open spec fn with_rule(self, rule: RuleModel) -> PolicyModel {
        PolicyModel { rules: self.rules.push(rule), ..self }
    }
}

/// A rule that must find its path.
pub open spec fn required_rule(path: PathModel, access: PathAccess) -> RuleModel {
    RuleModel { path, access, missing: MissingPathBehavior::Error }
}

impl SandboxPolicy {
    pub fn platform_minimal() -> (result: Self)
        ensures
            result@ == PolicyModel::bare(FileSystemBase::PlatformMinimal),
    {
        let policy = SandboxPolicy {
            filesystem: FileSystemPolicy { base: FileSystemBase::PlatformMinimal, rules: Vec::new() },
            network: NetworkPolicy::Denied,
            terminal: TerminalPolicy::BackendDefault,
        };
        assert(policy@.rules =~= Seq::empty());
        policy
    }

    pub fn host_read_only() -> (result: Self)
        ensures
            result@ == PolicyModel::bare(FileSystemBase::HostReadOnly),
    {
        let policy = SandboxPolicy {
            filesystem: FileSystemPolicy { base: FileSystemBase::HostReadOnly, rules: Vec::new() },
            network: NetworkPolicy::Denied,
            terminal: TerminalPolicy::BackendDefault,
        };
        assert(policy@.rules =~= Seq::empty());
        policy
    }

    pub fn rule(self, rule: PathRule) -> (result: Self)
        ensures
            result@ == self@.with_rule(rule@),
    {
        let mut policy = self;
        policy.filesystem.rules.push(rule);
        proof {
            model::lemma_deep_push(self.filesystem.rules, policy.filesystem.rules, rule);
        }
        policy
    }

    pub fn read_only(self, path: NativePath) -> (result: Self)
        ensures
            result@ == self@.with_rule(required_rule(path@, PathAccess::Read)),
    {
        self.rule(PathRule::new(path, PathAccess::Read))
    }

    pub fn read_write(self, path: NativePath) -> (result: Self)
        ensures
            result@ == self@.with_rule(required_rule(path@, PathAccess::Write)),
    {
        self.rule(PathRule::new(path, PathAccess::Write))
    }

    pub fn deny(self, path: NativePath) -> (result: Self)
        ensures
            result@ == self@.with_rule(required_rule(path@, PathAccess::Deny)),
    {
        self.rule(PathRule::new(path, PathAccess::Deny))
    }

    pub fn network_denied(self) -> (result: Self)
        ensures
            result@ == (PolicyModel { network: NetworkPolicy::Denied, ..self@ }),
    {
        let mut policy = self;
        policy.network = NetworkPolicy::Denied;
        policy
    }

    pub fn network_unrestricted(self) -> (result: Self)
        ensures
            result@ == (PolicyModel { network: NetworkPolicy::Unrestricted, ..self@ }),
    {
        let mut policy = self;
        policy.network = NetworkPolicy::Unrestricted;
        policy
    }

    pub fn terminal_inherited_or_created(self) -> (result: Self)
        ensures
            result@ == (PolicyModel { terminal: TerminalPolicy::InheritedAndCreatedOnly, ..self@ }),
    {
        let mut policy = self;
        policy.terminal = TerminalPolicy::InheritedAndCreatedOnly;
        policy
    }
}

/// How one standard stream of the target is connected.
#[derive(Clone, Copy, Debug, PartialEq, Eq, Structural)]
pub enum SandboxStdioMode {
    Inherit,
    Pipe,
    Null,
}

/// Independently selected connections of the target's standard streams.
#[derive(Clone, Copy, Debug, PartialEq, Eq, Structural)]
pub struct SandboxStdio {
    pub stdin: SandboxStdioMode,
    pub stdout: SandboxStdioMode,
    pub stderr: SandboxStdioMode,
}

impl SandboxStdio {
    /// Closed input and piped outputs.
    pub open spec fn standard() -> SandboxStdio {
        SandboxStdio {
            stdin: SandboxStdioMode::Null,
            stdout: SandboxStdioMode::Pipe,
            stderr: SandboxStdioMode::Pipe,
        }
    }
}

impl Default for SandboxStdio {
    fn default() -> (result: Self)
        ensures
            result == SandboxStdio::standard(),
    {
        SandboxStdio {
            stdin: SandboxStdioMode::Null,
            stdout: SandboxStdioMode::Pipe,
            stderr: SandboxStdioMode::Pipe,
        }
    }
}

/// Ownership contract of one launch.
#[derive(Clone, Copy, Debug, PartialEq, Eq, Structural)]
pub enum SandboxLifetime {
    /// The direct root process is owned.
    BackendDefault,
    /// The root and all its descendants are owned until retirement.
    SupervisedProcessTree,
}

/// One sandboxed process launch request.
#[derive(Clone, Debug, PartialEq, Eq)]
pub struct SandboxRequest {
    pub command: CommandSpec,
    pub policy: SandboxPolicy,
    pub stdio: SandboxStdio,
    pub lifetime: SandboxLifetime,
}

impl SandboxRequest {
    pub fn new(command: CommandSpec, policy: SandboxPolicy) -> (result: Self)
        ensures
            result == (SandboxRequest {
                command,
                policy,
                stdio: SandboxStdio::standard(),
                lifetime: SandboxLifetime::BackendDefault,
            }),
    {
        SandboxRequest {
            command,
            policy,
            stdio: SandboxStdio::default(),
            lifetime: SandboxLifetime::BackendDefault,
        }
    }

    pub fn stdin(self, mode: SandboxStdioMode) -> (result: Self)
        ensures
            result == (SandboxRequest { stdio: (SandboxStdio { stdin: mode, ..self.stdio }), ..self }),
    {
        let mut request = self;
        request.stdio.stdin = mode;
        request
    }

    pub fn stdout(self, mode: SandboxStdioMode) -> (result: Self)
        ensures
            result == (SandboxRequest { stdio: (SandboxStdio { stdout: mode, ..self.stdio }), ..self }),
    {
        let mut request = self;
        request.stdio.stdout = mode;
        request
    }

    pub fn stderr(self, mode: SandboxStdioMode) -> (result: Self)
        ensures
            result == (SandboxRequest { stdio: (SandboxStdio { stderr: mode, ..self.stdio }), ..self }),
    {
        let mut request = self;
        request.stdio.stderr = mode;
        request
    }

    /// Gives the child a writable input pipe.
    pub fn stdin_open(self) -> (result: Self)
        ensures
            result == (SandboxRequest {
                stdio: (SandboxStdio { stdin: SandboxStdioMode::Pipe, ..self.stdio }),
                ..self
            }),
    {
        self.stdin(SandboxStdioMode::Pipe)
    }

    /// Gives the child an empty input.
    pub fn stdin_closed(self) -> (result: Self)
        ensures
            result == (SandboxRequest {
                stdio: (SandboxStdio { stdin: SandboxStdioMode::Null, ..self.stdio }),
                ..self
            }),
    {
        self.stdin(SandboxStdioMode::Null)
    }

    pub fn lifetime(self, lifetime: SandboxLifetime) -> (result: Self)
        ensures
            result == (SandboxRequest { lifetime, ..self }),
    {
        let mut request = self;
        request.lifetime = lifetime;
        request
    }
}

/// The rules of a policy keep the order in which they were added.
pub proof fn rule_order_is_preserved(policy: PolicyModel, rules: Seq<RuleModel>)
    ensures
        rules.fold_left(policy, |built: PolicyModel, rule: RuleModel| built.with_rule(rule))
            == (PolicyModel { rules: policy.rules + rules, ..policy }),
    decreases rules.len(),
{
    let add_rule = |built: PolicyModel, rule: RuleModel| built.with_rule(rule);
    if rules.len() == 0 {
        assert(policy.rules + rules =~= policy.rules);
    } else {
        rule_order_is_preserved(policy, rules.drop_last());
        assert(policy.rules + rules =~= (policy.rules + rules.drop_last()).push(rules.last()));
    }
}

/// A stream selection changes that stream alone, so the three selections commute.
pub proof fn stream_selections_are_independent(
    stdio: SandboxStdio,
    stdin: SandboxStdioMode,
    stdout: SandboxStdioMode,
    stderr: SandboxStdioMode,
)
    ensures
        (SandboxStdio { stderr, ..(SandboxStdio { stdout, ..(SandboxStdio { stdin, ..stdio }) }) }) == (
        SandboxStdio { stdin, ..(SandboxStdio { stderr, ..(SandboxStdio { stdout, ..stdio }) }) }),
        (SandboxStdio { stderr, ..(SandboxStdio { stdout, ..(SandboxStdio { stdin, ..stdio }) }) }) == (
        SandboxStdio { stdin, stdout, stderr }),
{
}

/// A policy starts closed: no network, no rule, no promise about terminals, and the
/// baseline that was asked for. Adding a rule adds that rule, last, and nothing else; a
/// rule that is added by its access asks for that access at that path and for its presence.
pub proof fn policies_start_closed(base: FileSystemBase, policy: PolicyModel, path: PathModel, access: PathAccess)
    ensures
        PolicyModel::bare(base).network == NetworkPolicy::Denied,
        PolicyModel::bare(base).rules.len() == 0,
        PolicyModel::bare(base).base == base,
        PolicyModel::bare(base).terminal == TerminalPolicy::BackendDefault,
        ({
            let added = policy.with_rule(required_rule(path, access));
            &&& added.base == policy.base
            &&& added.network == policy.network
            &&& added.terminal == policy.terminal
            &&& added.rules.len() == policy.rules.len() + 1
            &&& forall|index: int| 0 <= index < policy.rules.len() ==> added.rules[index] == policy.rules[index]
            &&& added.rules.last().path == path
            &&& added.rules.last().access == access
            &&& added.rules.last().missing == MissingPathBehavior::Error
        }),
{
}

/// A launch gets an empty input and two outputs that are read, unless it asks otherwise.
pub proof fn launches_start_without_input()
    ensures
        SandboxStdio::standard().stdin == SandboxStdioMode::Null,
        SandboxStdio::standard().stdout == SandboxStdioMode::Pipe,
        SandboxStdio::standard().stderr == SandboxStdioMode::Pipe,
{
}

/// A backend is called by its own name.
pub proof fn backends_bear_their_names(backend: SandboxBackend)
    ensures
        backend is MacosSeatbelt <==> backend.name_text() == "MacosSeatbelt"@,
        backend is LinuxBubblewrap <==> backend.name_text() == "LinuxBubblewrap"@,
        backend is LinuxLandlock <==> backend.name_text() == "LinuxLandlock"@,
        backend is WindowsRestrictedToken <==> backend.name_text() == "WindowsRestrictedToken"@,
        backend is WindowsElevated <==> backend.name_text() == "WindowsElevated"@,
{
    reveal_strlit("MacosSeatbelt");
    reveal_strlit("LinuxBubblewrap");
    reveal_strlit("LinuxLandlock");
    reveal_strlit("WindowsRestrictedToken");
    reveal_strlit("WindowsElevated");
    assert("MacosSeatbelt"@[0] == 'M');
    assert("LinuxBubblewrap"@[5] == 'B');
    assert("LinuxLandlock"@[5] == 'L');
    assert("WindowsRestrictedToken"@[7] == 'R');
    assert("WindowsElevated"@[7] == 'E');
    assert("LinuxBubblewrap"@.len() == 15 && "LinuxLandlock"@.len() == 13);
    assert("WindowsRestrictedToken"@.len() == 22 && "WindowsElevated"@.len() == 15);
    assert("LinuxBubblewrap"@[0] == 'L' && "WindowsElevated"@[0] == 'W' && "LinuxLandlock"@[0] == 'L');
}

} // verus!
