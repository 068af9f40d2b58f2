//! The Linux helper through which launches enter the sandbox.

use crate::error::{SandboxError, SandboxErrorModel, SandboxFeature};
use crate::model;
use crate::native::{ComponentModel, NativePath, NativeString, NativeText, PathModel};
use crate::order::sort_without_repeats;
use crate::policy::host::{Resolution, ResolutionModel};
use crate::policy::prepare::{validate_absolute_path, validate_existing_path_encoding};
use crate::runtime::command::{require_utf8_os, require_utf8_path};
use crate::text::concat2;
use crate::types::{CommandSpec, LinuxHelper, LinuxHelperModel, NetworkPolicy, SandboxBackend};
use vstd::prelude::*;
use vstd::string::*;

verus! {

/// What the host reports about a file's status.
pub enum FileStatus {
    Known { is_file: bool, mode: u32 },
    /// The host could not tell, for this reason.
    Unknown(String),
}

/// What a [`FileStatus`] holds.
pub enum FileStatusModel {
    Known { is_file: bool, mode: u32 },
    Unknown(Seq<char>),
}

impl DeepView for FileStatus {
    type V = FileStatusModel;

    open spec fn deep_view(&self) -> FileStatusModel {
        match self {
            FileStatus::Known { is_file, mode } => FileStatusModel::Known { is_file: *is_file, mode: *mode },
            FileStatus::Unknown(reason) => FileStatusModel::Unknown(reason@),
        }
    }
}

impl View for FileStatus {
    type V = FileStatusModel;

    open spec fn view(&self) -> FileStatusModel {
        self.deep_view()
    }
}

/// What the host reports about an executable.
pub struct ExecutableProbe {
    pub status: FileStatus,
    pub resolution: Resolution,
}

/// What an [`ExecutableProbe`] holds.
pub struct ExecutableProbeModel {
    pub status: FileStatusModel,
    pub resolution: ResolutionModel,
}

impl DeepView for ExecutableProbe {
    type V = ExecutableProbeModel;

    open spec fn deep_view(&self) -> ExecutableProbeModel {
        ExecutableProbeModel { status: self.status@, resolution: self.resolution@ }
    }
}

impl View for ExecutableProbe {
    type V = ExecutableProbeModel;

    open spec fn view(&self) -> ExecutableProbeModel {
        self.deep_view()
    }
}

/// Whether anyone may execute a file with these permissions.
pub open spec fn is_executable_mode(mode: u32) -> bool {
    mode & 0o111 != 0
}

/// An error about an unavailable backend.
pub open spec fn unavailable(backend: SandboxBackend, message: Seq<char>) -> SandboxErrorModel {
    SandboxErrorModel::BackendUnavailable { backend: Some(backend), message }
}

/// An error about an unavailable backend.
pub fn backend_unavailable(backend: SandboxBackend, message: &str) -> (result: SandboxError)
    ensures
        result@ == unavailable(backend, message@),
{
    SandboxError::BackendUnavailable { backend: Some(backend), message: message.to_owned() }
}

/// An error about a failed preparation.
pub open spec fn preparation(backend: SandboxBackend, message: Seq<char>, source: Seq<char>) -> SandboxErrorModel {
    SandboxErrorModel::Preparation { backend, message, source: Some(source) }
}

/// An error about a failed preparation.
pub fn preparation_failed(backend: SandboxBackend, message: &str, source: &str) -> (result: SandboxError)
    ensures
        result@ == preparation(backend, message@, source@),
{
    SandboxError::Preparation { backend, message: message.to_owned(), source: Some(source.to_owned()) }
}

/// The first reason why a helper executable cannot be used.
pub open spec fn executable_refusal(
    path: PathModel,
    probe: ExecutableProbeModel,
    backend: SandboxBackend,
) -> Option<SandboxErrorModel> {
    if !path.absolute {
        Some(crate::policy::prepare::relative_path_error(path, "the Linux sandbox helper"@))
    } else if !path.text.is_unicode() {
        Some(crate::runtime::command::path_unicode_error(path, "Linux sandbox helper path"@))
    } else {
        match probe.status {
            FileStatusModel::Unknown(reason) => Some(
                unavailable(backend, "failed to inspect Linux sandbox helper: "@ + reason),
            ),
            FileStatusModel::Known { is_file, mode } => match crate::policy::prepare::encoding_error(
                path,
                probe.resolution,
                "the Linux sandbox helper"@,
            ) {
                Some(error) => Some(error),
                None => if is_file && is_executable_mode(mode) {
                    None
                } else {
                    Some(unavailable(backend, "the Linux sandbox helper is not an executable file"@))
                },
            },
        }
    }
}

/// Checks that a helper is an executable file under a path that the backend can be given.
pub fn validate_executable(path: &NativePath, probe: &ExecutableProbe, backend: SandboxBackend) -> (result: Result<
    (),
    SandboxError,
>)
    ensures
        match executable_refusal(path@, probe@, backend) {
            Some(expected) => result matches Err(error) && error@ == expected,
            None => result is Ok,
        },
{
    validate_absolute_path(path, "the Linux sandbox helper")?;
    require_utf8_path(path, "Linux sandbox helper path")?;
    let (is_file, mode) = match &probe.status {
        FileStatus::Known { is_file, mode } => (*is_file, *mode),
        FileStatus::Unknown(reason) => {
            let message = concat2("failed to inspect Linux sandbox helper: ", reason.as_str());
            return Err(backend_unavailable(backend, message.as_str()));
        },
    };
    validate_existing_path_encoding(path, &probe.resolution, "the Linux sandbox helper")?;
    if is_file && mode & 0o111 != 0 {
        Ok(())
    } else {
        Err(backend_unavailable(backend, "the Linux sandbox helper is not an executable file"))
    }
}

/// Which executable serves as the helper.
pub enum HelperSelection {
    /// The executable itself.
    External(NativePath),
    /// A private alias of the embedding executable.
    Alias(NativePath),
}

/// What a [`HelperSelection`] holds.
pub enum HelperSelectionModel {
    External(PathModel),
    Alias(PathModel),
}

impl DeepView for HelperSelection {
    type V = HelperSelectionModel;

    open spec fn deep_view(&self) -> HelperSelectionModel {
        match self {
            HelperSelection::External(path) => HelperSelectionModel::External(path@),
            HelperSelection::Alias(path) => HelperSelectionModel::Alias(path@),
        }
    }
}

impl View for HelperSelection {
    type V = HelperSelectionModel;

    open spec fn view(&self) -> HelperSelectionModel {
        self.deep_view()
    }
}

/// The helper that the options select, or why there is none.
pub open spec fn selected_helper(
    helper: LinuxHelperModel,
    dispatch_registered: bool,
    current_executable: ResolutionModel,
    probe: ExecutableProbeModel,
) -> Result<HelperSelectionModel, SandboxErrorModel> {
    let backend = SandboxBackend::LinuxBubblewrap;
    match helper {
        LinuxHelperModel::External(executable) => match executable_refusal(executable, probe, backend) {
            Some(error) => Err(error),
            None => Ok(HelperSelectionModel::External(executable)),
        },
        LinuxHelperModel::CurrentExecutable => if !dispatch_registered {
            Err(
                unavailable(
                    backend,
                    "LinuxHelper::CurrentExecutable requires dispatch_embedded_helper() at process startup"@,
                ),
            )
        } else {
            match current_executable {
                ResolutionModel::Failed(source) => Err(
                    preparation(backend, "failed to locate the embedding executable"@, source),
                ),
                ResolutionModel::Resolved(executable) => match executable_refusal(executable, probe, backend) {
                    Some(error) => Err(error),
                    None => Ok(HelperSelectionModel::Alias(executable)),
                },
            }
        },
    }
}

/// Selects the helper executable. Nothing is created before this succeeds.
///
/// `probe` is about the executable that the options select.
pub fn select_linux_helper(
    helper: &LinuxHelper,
    dispatch_registered: bool,
    current_executable: &Resolution,
    probe: &ExecutableProbe,
) -> (result: Result<HelperSelection, SandboxError>)
    ensures
        match selected_helper(helper@, dispatch_registered, current_executable@, probe@) {
            Ok(expected) => result matches Ok(selection) && selection@ == expected,
            Err(expected) => result matches Err(error) && error@ == expected,
        },
{
    match helper {
        LinuxHelper::External(executable) => {
            validate_executable(executable, probe, SandboxBackend::LinuxBubblewrap)?;
            Ok(HelperSelection::External(executable.clone()))
        },
        LinuxHelper::CurrentExecutable => {
            if !dispatch_registered {
                return Err(
                    backend_unavailable(
                        SandboxBackend::LinuxBubblewrap,
                        "LinuxHelper::CurrentExecutable requires dispatch_embedded_helper() at process startup",
                    ),
                );
            }
            match current_executable {
                Resolution::Failed(source) => Err(
                    preparation_failed(
                        SandboxBackend::LinuxBubblewrap,
                        "failed to locate the embedding executable",
                        source.as_str(),
                    ),
                ),
                Resolution::Resolved(executable) => {
                    validate_executable(executable, probe, SandboxBackend::LinuxBubblewrap)?;
                    Ok(HelperSelection::Alias(executable.clone()))
                },
            }
        },
    }
}

/// What the host reports of the private directory's creation, step by step. A step
/// after a failed one is not attempted.
pub struct HelperDirectoryReport {
    pub directory: Resolution,
    pub registry_root: Resolution,
    /// The alias in the private directory, when the embedding executable is the helper.
    pub alias: Resolution,
}

/// The helper of one runtime, with the private directory that belongs to it.
pub struct LinuxRuntimeHelper {
    pub executable: NativePath,
    pub current_executable: Option<NativePath>,
    pub registry_root: NativePath,
    pub directory: NativePath,
}

/// What a [`LinuxRuntimeHelper`] holds.
pub struct LinuxRuntimeHelperModel {
    pub executable: PathModel,
    pub current_executable: Option<PathModel>,
    pub registry_root: PathModel,
    pub directory: PathModel,
}

impl DeepView for LinuxRuntimeHelper {
    type V = LinuxRuntimeHelperModel;

    open spec fn deep_view(&self) -> LinuxRuntimeHelperModel {
        LinuxRuntimeHelperModel {
            executable: self.executable@,
            current_executable: self.current_executable.deep_view(),
            registry_root: self.registry_root@,
            directory: self.directory@,
        }
    }
}

impl View for LinuxRuntimeHelper {
    type V = LinuxRuntimeHelperModel;

    open spec fn view(&self) -> LinuxRuntimeHelperModel {
        self.deep_view()
    }
}

/// The helper that comes of a selection and the private directory, or the first failure.
pub open spec fn runtime_helper(
    selection: HelperSelectionModel,
    directory: ResolutionModel,
    registry_root: ResolutionModel,
    alias: ResolutionModel,
) -> Result<LinuxRuntimeHelperModel, SandboxErrorModel> {
    let backend = SandboxBackend::LinuxBubblewrap;
    match (directory, registry_root) {
        (ResolutionModel::Failed(source), _) => Err(
            preparation(backend, "failed to create the private Linux helper directory"@, source),
        ),
        (_, ResolutionModel::Failed(source)) => Err(
            preparation(backend, "failed to create the private Linux helper registry"@, source),
        ),
        (ResolutionModel::Resolved(directory), ResolutionModel::Resolved(registry_root)) => match selection {
            HelperSelectionModel::External(executable) => Ok(
                LinuxRuntimeHelperModel { executable, current_executable: None, registry_root, directory },
            ),
            HelperSelectionModel::Alias(current) => match alias {
                ResolutionModel::Failed(source) => Err(
                    preparation(backend, "failed to create the private Linux helper alias"@, source),
                ),
                ResolutionModel::Resolved(executable) => Ok(
                    LinuxRuntimeHelperModel {
                        executable,
                        current_executable: Some(current),
                        registry_root,
                        directory,
                    },
                ),
            },
        },
    }
}

/// The paths that the helper must be able to read, before they are put in order.
pub open spec fn unordered_read_roots(helper: LinuxRuntimeHelperModel, target: ResolutionModel) -> Seq<PathModel> {
    let own = seq![helper.directory, helper.executable];
    let resolved = match target {
        ResolutionModel::Resolved(target) => if target.same_path(helper.executable) {
            own
        } else {
            own.push(target)
        },
        ResolutionModel::Failed(_) => own,
    };
    match helper.current_executable {
        Some(current) => resolved.push(current),
        None => resolved,
    }
}

impl LinuxRuntimeHelper {
    /// Combines the selection with the private directory.
    pub fn new(selection: HelperSelection, report: HelperDirectoryReport) -> (result: Result<Self, SandboxError>)
        ensures
            match runtime_helper(selection@, report.directory@, report.registry_root@, report.alias@) {
                Ok(expected) => result matches Ok(helper) && helper@ == expected,
                Err(expected) => result matches Err(error) && error@ == expected,
            },
    {
        let backend = SandboxBackend::LinuxBubblewrap;
        let directory = match report.directory {
            Resolution::Resolved(directory) => directory,
            Resolution::Failed(source) => {
                return Err(
                    preparation_failed(
                        backend,
                        "failed to create the private Linux helper directory",
                        source.as_str(),
                    ),
                );
            },
        };
        let registry_root = match report.registry_root {
            Resolution::Resolved(registry_root) => registry_root,
            Resolution::Failed(source) => {
                return Err(
                    preparation_failed(
                        backend,
                        "failed to create the private Linux helper registry",
                        source.as_str(),
                    ),
                );
            },
        };
        match selection {
            HelperSelection::External(executable) => Ok(
                LinuxRuntimeHelper { executable, current_executable: None, registry_root, directory },
            ),
            HelperSelection::Alias(current) => match report.alias {
                Resolution::Resolved(executable) => Ok(
                    LinuxRuntimeHelper {
                        executable,
                        current_executable: Some(current),
                        registry_root,
                        directory,
                    },
                ),
                Resolution::Failed(source) => Err(
                    preparation_failed(
                        backend,
                        "failed to create the private Linux helper alias",
                        source.as_str(),
                    ),
                ),
            },
        }
    }

    /// The paths that the helper must be able to read, in order and each once.
    ///
    /// `target` is the location that the helper's executable resolves to.
    pub fn read_roots(&self, target: &Resolution) -> (result: Vec<NativePath>)
        ensures
            crate::order::ordered_without_repeats(
                unordered_read_roots(self@, target@),
                result.deep_view(),
            ),
    {
        sort_without_repeats(self.read_roots_unordered(target))
    }

    fn read_roots_unordered(&self, target: &Resolution) -> (result: Vec<NativePath>)
        ensures
            result.deep_view() == unordered_read_roots(self@, target@),
    {
        let mut roots: Vec<NativePath> = Vec::new();
        roots.push(self.directory.clone());
        roots.push(self.executable.clone());
        assert(roots.deep_view() =~= seq![self@.directory, self@.executable]);
        if let Resolution::Resolved(target) = target {
            if !target.same_path(&self.executable) {
                let ghost before = roots;
                let copy = target.clone();
                roots.push(copy);
                proof {
                    model::lemma_deep_push(before, roots, copy);
                }
            }
        }
        if let Some(current) = &self.current_executable {
            let ghost before = roots;
            let copy = current.clone();
            roots.push(copy);
            proof {
                model::lemma_deep_push(before, roots, copy);
            }
        }
        roots
    }

    /// The paths that a launch must be able to read: the helper's own and bubblewrap.
    pub fn internal_read_roots(&self, target: &Resolution, bwrap: &NativePath) -> (result: Vec<NativePath>)
        ensures
            crate::order::ordered_without_repeats(
                unordered_read_roots(self@, target@).push(bwrap@),
                result.deep_view(),
            ),
    {
        let mut roots = self.read_roots_unordered(target);
        let ghost before = roots;
        let copy = bwrap.clone();
        roots.push(copy);
        proof {
            model::lemma_deep_push(before, roots, copy);
        }
        sort_without_repeats(roots)
    }
}

/// What the host reports about bubblewrap when a launch starts.
#[derive(Clone, Copy, Debug, PartialEq, Eq, Structural)]
pub struct BwrapStatus {
    /// Whether the pinned executable can create a user namespace.
    pub available: bool,
    /// Whether it can create a network namespace.
    pub network_namespace: bool,
}

/// The first reason why the Linux backend cannot take a launch.
pub open spec fn linux_refusal(
    helper: PathModel,
    probe: ExecutableProbeModel,
    bwrap: BwrapStatus,
    network_denial: bool,
    network: NetworkPolicy,
    backend: SandboxBackend,
) -> Option<SandboxErrorModel> {
    match executable_refusal(helper, probe, backend) {
        Some(error) => Some(error),
        None => if !bwrap.available {
            Some(
                unavailable(
                    backend,
                    "the pinned bubblewrap executable is unavailable or cannot create a user namespace"@,
                ),
            )
        } else if network == NetworkPolicy::Denied && (!network_denial || !bwrap.network_namespace) {
            Some(
                SandboxErrorModel::UnsupportedPolicy {
                    backend,
                    feature: SandboxFeature::NetworkDenial,
                    message: "the pinned bubblewrap executable cannot create the required network namespace"@,
                },
            )
        } else {
            None
        },
    }
}

/// Checks that the helper and bubblewrap can still enforce what a launch asks for.
pub fn validate_linux_backend(
    helper: &LinuxRuntimeHelper,
    probe: &ExecutableProbe,
    bwrap: BwrapStatus,
    network_denial: bool,
    network: NetworkPolicy,
    backend: SandboxBackend,
) -> (result: Result<(), SandboxError>)
    ensures
        match linux_refusal(helper@.executable, probe@, bwrap, network_denial, network, backend) {
            Some(expected) => result matches Err(error) && error@ == expected,
            None => result is Ok,
        },
{
    validate_executable(&helper.executable, probe, backend)?;
    if !bwrap.available {
        return Err(
            backend_unavailable(
                backend,
                "the pinned bubblewrap executable is unavailable or cannot create a user namespace",
            ),
        );
    }
    if network == NetworkPolicy::Denied && (!network_denial || !bwrap.network_namespace) {
        return Err(
            crate::policy::backend::unsupported(
                backend,
                SandboxFeature::NetworkDenial,
                "the pinned bubblewrap executable cannot create the required network namespace",
            ),
        );
    }
    Ok(())
}

/// The program and its arguments as text.
pub open spec fn target_texts(program: NativeText, args: Seq<NativeText>) -> Seq<Seq<char>> {
    seq![program->Unicode_0] + args.map_values(|argument: NativeText| argument->Unicode_0)
}

/// The command line of the target, for a backend that passes text.
pub fn text_target(command: &CommandSpec) -> (result: Result<Vec<String>, SandboxError>)
    ensures
        if !command@.program.text.is_unicode() {
            result matches Err(error) && error@ == crate::runtime::command::unicode_error("program"@)
        } else if !crate::runtime::command::all_unicode(command@.args) {
            result matches Err(error) && error@ == crate::runtime::command::unicode_error("argument"@)
        } else {
            result matches Ok(target) && target.deep_view() == target_texts(
                command@.program.text,
                command@.args,
            )
        },
{
    let mut target: Vec<String> = Vec::new();
    let program = require_utf8_os(&command.program.text, "program")?;
    target.push(program.clone());
    let ghost models = command@.args;
    let ghost texts = models.map_values(|argument: NativeText| argument->Unicode_0);
    let ghost first = seq![command@.program.text->Unicode_0];
    proof {
        model::lemma_take_all(texts);
        assert(target.deep_view() =~= first + texts.take(0));
    }
    for index in 0..command.args.len()
        invariant
            models == command.args.deep_view(),
            command@.program.text.is_unicode(),
            texts == models.map_values(|argument: NativeText| argument->Unicode_0),
            forall|i: int| 0 <= i < index ==> (#[trigger] models[i]).is_unicode(),
            target.deep_view() == first + texts.take(index as int),
    {
        assert(models[index as int] == command.args@[index as int].deep_view());
        let argument = require_utf8_os(&command.args[index], "argument")?;
        let ghost before = target;
        let copy = argument.clone();
        target.push(copy);
        proof {
            model::lemma_deep_push(before, target, copy);
            model::lemma_take_push(texts, index as int);
            assert(target.deep_view() =~= first + texts.take(index + 1));
        }
    }
    proof {
        model::lemma_take_all(texts);
    }
    Ok(target)
}

/// The options that lead every helper invocation, before the sandbox's own arguments.
pub open spec fn helper_options(bwrap: NativeText, kind: Seq<char>, registry_root: NativeText) -> Seq<NativeText> {
    seq![
        NativeText::Unicode("--embedding"@),
        NativeText::Unicode("--embedding-bwrap"@),
        bwrap,
        NativeText::Unicode("--embedding-bwrap-kind"@),
        NativeText::Unicode(kind),
        NativeText::Unicode("--embedding-registry-root"@),
        registry_root,
    ]
}

/// The options that lead every helper invocation.
pub fn linux_helper_options(bwrap: &NativePath, kind: &str, registry_root: &NativePath) -> (result: Vec<
    NativeString,
>)
    ensures
        result.deep_view() == helper_options(bwrap@.text, kind@, registry_root@.text),
{
    let mut options: Vec<NativeString> = Vec::new();
    options.push(NativeString::from_text("--embedding"));
    options.push(NativeString::from_text("--embedding-bwrap"));
    options.push(bwrap.text.clone());
    options.push(NativeString::from_text("--embedding-bwrap-kind"));
    options.push(NativeString::from_text(kind));
    options.push(NativeString::from_text("--embedding-registry-root"));
    options.push(registry_root.text.clone());
    assert(options.deep_view() =~= helper_options(bwrap@.text, kind@, registry_root@.text));
    options
}

/// What a process does that was started as the embedding executable.
#[derive(Clone, Copy, Debug, PartialEq, Eq, Structural)]
pub enum HelperDispatch {
    /// It was started through the reserved alias and runs the helper.
    RunHelper,
    /// It is the application; the helper can be reached through it from now on.
    Register,
}

/// The name under which the embedding executable is the helper.
pub const CODEX_LINUX_SANDBOX_ARG0: &'static str = "codex-linux-sandbox";

/// What the name that a process was started under asks of it.
pub open spec fn dispatch_for(started_as: Option<PathModel>) -> HelperDispatch {
    match started_as {
        Some(path) => if path.file_name() == Some(NativeText::Unicode(CODEX_LINUX_SANDBOX_ARG0@)) {
            HelperDispatch::RunHelper
        } else {
            HelperDispatch::Register
        },
        None => HelperDispatch::Register,
    }
}

/// Decides whether this process is the embedded helper.
pub fn dispatch_embedded_helper(started_as: Option<&NativePath>) -> (result: HelperDispatch)
    ensures
        result == dispatch_for(started_as.deep_view()),
{
    if let Some(path) = started_as {
        if let Some(name) = path.file_name() {
            if name.same(&NativeString::from_text(CODEX_LINUX_SANDBOX_ARG0)) {
                return HelperDispatch::RunHelper;
            }
        }
    }
    HelperDispatch::Register
}

/// The embedding executable serves as the helper only after it registered its dispatch.
pub proof fn alias_needs_registered_dispatch(
    helper: LinuxHelperModel,
    dispatch_registered: bool,
    current_executable: ResolutionModel,
    probe: ExecutableProbeModel,
)
    requires
        selected_helper(helper, dispatch_registered, current_executable, probe) is Ok,
        helper is CurrentExecutable,
    ensures
        dispatch_registered,
        selected_helper(helper, dispatch_registered, current_executable, probe)->Ok_0 is Alias,
{
}

/// Whether a helper is an executable file under a path that the backend can be given.
pub open spec fn is_usable_helper(path: PathModel, probe: ExecutableProbeModel) -> bool {
    &&& path.absolute
    &&& path.text.is_unicode()
    &&& probe.status matches FileStatusModel::Known { is_file, mode } && is_file && mode & 0o111 != 0
    &&& probe.resolution matches ResolutionModel::Resolved(resolved) && resolved.text.is_unicode()
}

/// The Linux backend takes a launch exactly when its helper is an executable file, its
/// bubblewrap is available, and the network is left open or can be closed. A refusal for
/// the network comes only where the launch denies it, and never hides a missing helper or
/// a missing bubblewrap.
pub proof fn linux_refusals_have_their_reason(
    helper: PathModel,
    probe: ExecutableProbeModel,
    bwrap: BwrapStatus,
    network_denial: bool,
    network: NetworkPolicy,
    backend: SandboxBackend,
)
    ensures
        linux_refusal(helper, probe, bwrap, network_denial, network, backend) is None <==> {
            &&& is_usable_helper(helper, probe)
            &&& bwrap.available
            &&& network == NetworkPolicy::Unrestricted || network_denial && bwrap.network_namespace
        },
        linux_refusal(helper, probe, bwrap, network_denial, network, backend) matches Some(error) ==> {
            &&& error is UnsupportedPolicy <==> is_usable_helper(helper, probe) && bwrap.available
            &&& error is UnsupportedPolicy ==> {
                &&& network == NetworkPolicy::Denied
                &&& !network_denial || !bwrap.network_namespace
                &&& error->UnsupportedPolicy_feature == SandboxFeature::NetworkDenial
                &&& error->UnsupportedPolicy_backend == backend
            }
        },
{
}

/// A helper is selected exactly when it is usable, and it is the one that was asked for:
/// an external one is used as it is, and the embedding executable only by an alias of
/// itself and only once it registered its dispatch.
pub proof fn helpers_are_the_ones_asked_for(
    helper: LinuxHelperModel,
    dispatch_registered: bool,
    current_executable: ResolutionModel,
    probe: ExecutableProbeModel,
)
    ensures
        match helper {
            LinuxHelperModel::External(executable) => {
                &&& selected_helper(helper, dispatch_registered, current_executable, probe) is Ok <==> is_usable_helper(
                    executable,
                    probe,
                )
                &&& selected_helper(helper, dispatch_registered, current_executable, probe) matches Ok(selected)
                    ==> selected == HelperSelectionModel::External(executable)
            },
            LinuxHelperModel::CurrentExecutable => {
                &&& selected_helper(helper, dispatch_registered, current_executable, probe) is Ok <==> dispatch_registered
                    && (current_executable matches ResolutionModel::Resolved(executable) && is_usable_helper(
                    executable,
                    probe,
                ))
                &&& selected_helper(helper, dispatch_registered, current_executable, probe) matches Ok(selected)
                    ==> selected == HelperSelectionModel::Alias(current_executable->Resolved_0)
            },
        },
        selected_helper(helper, dispatch_registered, current_executable, probe) matches Err(error) ==> match error {
            SandboxErrorModel::BackendUnavailable { backend, .. } => backend == Some(SandboxBackend::LinuxBubblewrap),
            SandboxErrorModel::Preparation { backend, .. } => backend == SandboxBackend::LinuxBubblewrap,
            SandboxErrorModel::InvalidPath { .. } => true,
            _ => false,
        },
{
}

/// A runtime's helper is the selected executable, or the alias of it that was created, and
/// keeps to the directory and the registry that were created for it. It exists exactly
/// where everything that it needs was created.
pub proof fn runtime_helpers_keep_to_their_directory(
    selection: HelperSelectionModel,
    directory: ResolutionModel,
    registry_root: ResolutionModel,
    alias: ResolutionModel,
)
    ensures
        runtime_helper(selection, directory, registry_root, alias) is Ok <==> directory is Resolved && registry_root
            is Resolved && (selection is External || alias is Resolved),
        runtime_helper(selection, directory, registry_root, alias) matches Ok(helper) ==> {
            &&& directory == ResolutionModel::Resolved(helper.directory)
            &&& registry_root == ResolutionModel::Resolved(helper.registry_root)
            &&& match selection {
                HelperSelectionModel::External(executable) => helper.executable == executable
                    && helper.current_executable is None,
                HelperSelectionModel::Alias(current) => alias == ResolutionModel::Resolved(helper.executable)
                    && helper.current_executable == Some(current),
            }
        },
{
}

/// A launch can read the helper, its directory, the executable behind it and the location
/// that it resolves to, and nothing else on the helper's account.
pub proof fn helpers_read_themselves_only(helper: LinuxRuntimeHelperModel, target: ResolutionModel, path: PathModel)
    ensures
        unordered_read_roots(helper, target).contains(helper.directory),
        unordered_read_roots(helper, target).contains(helper.executable),
        helper.current_executable matches Some(current) ==> unordered_read_roots(helper, target).contains(current),
        target matches ResolutionModel::Resolved(resolved) ==> unordered_read_roots(helper, target).contains(resolved)
            || resolved.components == helper.executable.components,
        unordered_read_roots(helper, target).contains(path) ==> {
            ||| path == helper.directory
            ||| path == helper.executable
            ||| helper.current_executable == Some(path)
            ||| target == ResolutionModel::Resolved(path)
        },
{
    let roots = unordered_read_roots(helper, target);
    assert(roots[0] == helper.directory);
    assert(roots[1] == helper.executable);
    if let Some(current) = helper.current_executable {
        assert(roots[roots.len() - 1] == current);
    }
    if let ResolutionModel::Resolved(resolved) = target {
        if !resolved.same_path(helper.executable) {
            assert(roots[2] == resolved);
        }
    }
}

/// Every helper invocation names the pinned bubblewrap with its kind, and the registry of
/// the runtime, each right behind the option that it belongs to.
pub proof fn helper_options_name_their_values(bwrap: NativeText, kind: Seq<char>, registry_root: NativeText)
    ensures
        ({
            let options = helper_options(bwrap, kind, registry_root);
            &&& options[0] == NativeText::Unicode("--embedding"@)
            &&& exists|index: int|
                0 <= index < options.len() - 1 && #[trigger] options[index] == NativeText::Unicode("--embedding-bwrap"@)
                    && options[index + 1] == bwrap
            &&& exists|index: int|
                0 <= index < options.len() - 1 && #[trigger] options[index] == NativeText::Unicode(
                    "--embedding-bwrap-kind"@,
                ) && options[index + 1] == NativeText::Unicode(kind)
            &&& exists|index: int|
                0 <= index < options.len() - 1 && #[trigger] options[index] == NativeText::Unicode(
                    "--embedding-registry-root"@,
                ) && options[index + 1] == registry_root
        }),
{
    let options = helper_options(bwrap, kind, registry_root);
    assert(options[1] == NativeText::Unicode("--embedding-bwrap"@));
    assert(options[3] == NativeText::Unicode("--embedding-bwrap-kind"@));
    assert(options[5] == NativeText::Unicode("--embedding-registry-root"@));
}

/// The target is passed on whole: its program leads, and every argument follows in its
/// place.
pub proof fn targets_are_passed_whole(program: NativeText, args: Seq<NativeText>, index: int)
    requires
        program.is_unicode(),
        forall|i: int| 0 <= i < args.len() ==> (#[trigger] args[i]).is_unicode(),
    ensures
        target_texts(program, args).len() == args.len() + 1,
        NativeText::Unicode(target_texts(program, args)[0]) == program,
        0 <= index < args.len() ==> NativeText::Unicode(target_texts(program, args)[index + 1]) == args[index],
{
}

/// Only a process that was started under the reserved name runs the helper.
pub proof fn only_the_reserved_name_runs_the_helper(started_as: Option<PathModel>)
    ensures
        dispatch_for(started_as) == HelperDispatch::RunHelper <==> (started_as matches Some(path)
            && path.components.len() > 0 && path.components.last() == ComponentModel::Normal(
            NativeText::Unicode("codex-linux-sandbox"@),
        )),
{
}

} // verus!
