//! Errors reported while preparing, launching, or controlling a sandbox.

use crate::native::{NativePath, PathModel};
use crate::text::{concat2, concat3, concat4, concat5};
use crate::types::SandboxBackend;
use vstd::prelude::*;
use vstd::string::*;

verus! {

/// Capability or operation that a selected backend cannot provide.
#[derive(Clone, Copy, Debug, PartialEq, Eq, Structural)]
pub enum SandboxFeature {
    MinimalReadPolicy,
    DeniedReadPaths,
    DeniedWritePaths,
    NestedAllowUnderDeny,
    NetworkDenial,
    NetworkUnrestricted,
    Interrupt,
    ProcessTreeTermination,
    CurrentProcessGroupTermination,
    TerminalIsolation,
}

impl SandboxFeature {
    /// The feature's name in diagnostics.
    pub open spec fn name_text(self) -> Seq<char> {
        match self {
            SandboxFeature::MinimalReadPolicy => "MinimalReadPolicy"@,
            SandboxFeature::DeniedReadPaths => "DeniedReadPaths"@,
            SandboxFeature::DeniedWritePaths => "DeniedWritePaths"@,
            SandboxFeature::NestedAllowUnderDeny => "NestedAllowUnderDeny"@,
            SandboxFeature::NetworkDenial => "NetworkDenial"@,
            SandboxFeature::NetworkUnrestricted => "NetworkUnrestricted"@,
            SandboxFeature::Interrupt => "Interrupt"@,
            SandboxFeature::ProcessTreeTermination => "ProcessTreeTermination"@,
            SandboxFeature::CurrentProcessGroupTermination => "CurrentProcessGroupTermination"@,
            SandboxFeature::TerminalIsolation => "TerminalIsolation"@,
        }
    }

    fn name(self) -> (result: &'static str)
        ensures
            result@ == self.name_text(),
    {
        match self {
            SandboxFeature::MinimalReadPolicy => "MinimalReadPolicy",
            SandboxFeature::DeniedReadPaths => "DeniedReadPaths",
            SandboxFeature::DeniedWritePaths => "DeniedWritePaths",
            SandboxFeature::NestedAllowUnderDeny => "NestedAllowUnderDeny",
            SandboxFeature::NetworkDenial => "NetworkDenial",
            SandboxFeature::NetworkUnrestricted => "NetworkUnrestricted",
            SandboxFeature::Interrupt => "Interrupt",
            SandboxFeature::ProcessTreeTermination => "ProcessTreeTermination",
            SandboxFeature::CurrentProcessGroupTermination => "CurrentProcessGroupTermination",
            SandboxFeature::TerminalIsolation => "TerminalIsolation",
        }
    }
}

/// Kind of a host I/O failure.
#[derive(Clone, Copy, Debug, PartialEq, Eq, Structural)]
pub enum IoErrorKind {
    NotFound,
    PermissionDenied,
    BrokenPipe,
    WouldBlock,
    InvalidInput,
    InvalidData,
    TimedOut,
    WriteZero,
    Interrupted,
    Unsupported,
    UnexpectedEof,
    Other,
}

/// A host I/O failure.
#[derive(Debug, PartialEq, Eq)]
pub struct IoFailure {
    pub kind: IoErrorKind,
    pub message: String,
}

/// What an [`IoFailure`] holds.
pub struct IoFailureModel {
    pub kind: IoErrorKind,
    pub message: Seq<char>,
}

impl DeepView for IoFailure {
    type V = IoFailureModel;

    open spec fn deep_view(&self) -> IoFailureModel {
        IoFailureModel { kind: self.kind, message: self.message@ }
    }
}

impl View for IoFailure {
    type V = IoFailureModel;

    open spec fn view(&self) -> IoFailureModel {
        self.deep_view()
    }
}

impl IoFailure {
    pub fn new(kind: IoErrorKind, message: &str) -> (result: Self)
        ensures
            result@ == (IoFailureModel { kind, message: message@ }),
    {
        IoFailure { kind, message: message.to_owned() }
    }
}

impl Clone for IoFailure {
    fn clone(&self) -> (result: Self)
        ensures
            result@ == self@,
    {
        IoFailure { kind: self.kind, message: self.message.clone() }
    }
}

/// Error returned while preparing, launching, or controlling a sandbox.
#[allow(inconsistent_fields)]
#[derive(Debug, PartialEq, Eq)]
pub enum SandboxError {
    UnsupportedPlatform { platform: String },
    BackendUnavailable { backend: Option<SandboxBackend>, message: String },
    UnsupportedPolicy { backend: SandboxBackend, feature: SandboxFeature, message: String },
    InvalidCommand { message: String },
    InvalidOperation { message: String },
    InvalidPath { path: NativePath, message: String },
    Preparation { backend: SandboxBackend, message: String, source: Option<String> },
    Spawn { backend: SandboxBackend, message: String, source: Option<String> },
    Io { operation: &'static str, source: IoFailure },
}

/// What a [`SandboxError`] holds.
#[allow(inconsistent_fields)]
pub enum SandboxErrorModel {
    UnsupportedPlatform { platform: Seq<char> },
    BackendUnavailable { backend: Option<SandboxBackend>, message: Seq<char> },
    UnsupportedPolicy { backend: SandboxBackend, feature: SandboxFeature, message: Seq<char> },
    InvalidCommand { message: Seq<char> },
    InvalidOperation { message: Seq<char> },
    InvalidPath { path: PathModel, message: Seq<char> },
    Preparation { backend: SandboxBackend, message: Seq<char>, source: Option<Seq<char>> },
    Spawn { backend: SandboxBackend, message: Seq<char>, source: Option<Seq<char>> },
    Io { operation: Seq<char>, source: IoFailureModel },
}

impl DeepView for SandboxError {
    type V = SandboxErrorModel;

    open spec fn deep_view(&self) -> SandboxErrorModel {
        match self {
            SandboxError::UnsupportedPlatform { platform } => SandboxErrorModel::UnsupportedPlatform {
                platform: platform@,
            },
            SandboxError::BackendUnavailable { backend, message } => SandboxErrorModel::BackendUnavailable {
                backend: *backend,
                message: message@,
            },
            SandboxError::UnsupportedPolicy { backend, feature, message } => SandboxErrorModel::UnsupportedPolicy {
                backend: *backend,
                feature: *feature,
                message: message@,
            },
            SandboxError::InvalidCommand { message } => SandboxErrorModel::InvalidCommand { message: message@ },
            SandboxError::InvalidOperation { message } => SandboxErrorModel::InvalidOperation {
                message: message@,
            },
            SandboxError::InvalidPath { path, message } => SandboxErrorModel::InvalidPath {
                path: path@,
                message: message@,
            },
            SandboxError::Preparation { backend, message, source } => SandboxErrorModel::Preparation {
                backend: *backend,
                message: message@,
                source: source.deep_view(),
            },
            SandboxError::Spawn { backend, message, source } => SandboxErrorModel::Spawn {
                backend: *backend,
                message: message@,
                source: source.deep_view(),
            },
            SandboxError::Io { operation, source } => SandboxErrorModel::Io {
                operation: operation@,
                source: source@,
            },
        }
    }
}

impl View for SandboxError {
    type V = SandboxErrorModel;

    open spec fn view(&self) -> SandboxErrorModel {
        self.deep_view()
    }
}

impl SandboxErrorModel {
    /// The diagnostic text of an error.
    pub open spec fn text(self) -> Seq<char> {
        match self {
            SandboxErrorModel::UnsupportedPlatform { platform } => {
                "sandboxing is unsupported on platform `"@ + platform + "`"@
            },
            SandboxErrorModel::BackendUnavailable { backend, message } => {
                "sandbox backend "@ + optional_backend_text(backend) + " is unavailable: "@ + message
            },
            SandboxErrorModel::UnsupportedPolicy { backend, feature, message } => {
                "sandbox backend "@ + backend.name_text() + " does not support "@ + feature.name_text()
                    + (": "@ + message)
            },
            SandboxErrorModel::InvalidCommand { message } => "invalid sandbox command: "@ + message,
            SandboxErrorModel::InvalidOperation { message } => "invalid sandbox operation: "@ + message,
            SandboxErrorModel::InvalidPath { path, message } => {
                "invalid sandbox path `"@ + path.text.display() + "`: "@ + message
            },
            SandboxErrorModel::Preparation { backend, message, source: _ } => {
                "failed to prepare sandbox backend "@ + backend.name_text() + ": "@ + message
            },
            SandboxErrorModel::Spawn { backend, message, source: _ } => {
                "failed to spawn sandbox backend "@ + backend.name_text() + ": "@ + message
            },
            SandboxErrorModel::Io { operation, source } => {
                "sandbox I/O failed while "@ + operation + ": "@ + source.message
            },
        }
    }
}

/// An optional backend as diagnostics write it.
pub open spec fn optional_backend_text(backend: Option<SandboxBackend>) -> Seq<char> {
    match backend {
        Some(backend) => "Some("@ + backend.name_text() + ")"@,
        None => "None"@,
    }
}

impl SandboxError {
    /// An I/O error that came up during `operation`.
    pub fn io(operation: &'static str, source: IoFailure) -> (result: Self)
        ensures
            result@ == (SandboxErrorModel::Io { operation: operation@, source: source@ }),
    {
        SandboxError::Io { operation, source }
    }

    /// The diagnostic text of the error.
    pub fn message(&self) -> (result: String)
        ensures
            result@ == self@.text(),
    {
        match self {
            SandboxError::UnsupportedPlatform { platform } => {
                concat3("sandboxing is unsupported on platform `", platform.as_str(), "`")
            },
            SandboxError::BackendUnavailable { backend, message } => {
                let backend = match backend {
                    Some(backend) => concat3("Some(", backend.name(), ")"),
                    None => "None".to_owned(),
                };
                concat4("sandbox backend ", backend.as_str(), " is unavailable: ", message.as_str())
            },
            SandboxError::UnsupportedPolicy { backend, feature, message } => {
                let detail = concat2(": ", message.as_str());
                concat5(
                    "sandbox backend ",
                    backend.name(),
                    " does not support ",
                    feature.name(),
                    detail.as_str(),
                )
            },
            SandboxError::InvalidCommand { message } => concat2("invalid sandbox command: ", message.as_str()),
            SandboxError::InvalidOperation { message } => concat2(
                "invalid sandbox operation: ",
                message.as_str(),
            ),
            SandboxError::InvalidPath { path, message } => {
                let path = path.text.display();
                concat4("invalid sandbox path `", path.as_str(), "`: ", message.as_str())
            },
            SandboxError::Preparation { backend, message, source: _ } => concat4(
                "failed to prepare sandbox backend ",
                backend.name(),
                ": ",
                message.as_str(),
            ),
            SandboxError::Spawn { backend, message, source: _ } => concat4(
                "failed to spawn sandbox backend ",
                backend.name(),
                ": ",
                message.as_str(),
            ),
            SandboxError::Io { operation, source } => concat4(
                "sandbox I/O failed while ",
                operation,
                ": ",
                source.message.as_str(),
            ),
        }
    }
}

/// The diagnostic of an error ends with what it was told, or with what the host said.
pub proof fn diagnostics_end_with_their_message(error: SandboxErrorModel)
    ensures
        match error {
            SandboxErrorModel::UnsupportedPlatform { .. } => true,
            SandboxErrorModel::BackendUnavailable { message, .. } => message.is_suffix_of(error.text()),
            SandboxErrorModel::UnsupportedPolicy { message, .. } => message.is_suffix_of(error.text()),
            SandboxErrorModel::InvalidCommand { message } => message.is_suffix_of(error.text()),
            SandboxErrorModel::InvalidOperation { message } => message.is_suffix_of(error.text()),
            SandboxErrorModel::InvalidPath { message, .. } => message.is_suffix_of(error.text()),
            SandboxErrorModel::Preparation { message, .. } => message.is_suffix_of(error.text()),
            SandboxErrorModel::Spawn { message, .. } => message.is_suffix_of(error.text()),
            SandboxErrorModel::Io { source, .. } => source.message.is_suffix_of(error.text()),
        },
{
    let text = error.text();
    let message = match error {
        SandboxErrorModel::UnsupportedPlatform { .. } => Seq::<char>::empty(),
        SandboxErrorModel::BackendUnavailable { message, .. } => message,
        SandboxErrorModel::UnsupportedPolicy { message, .. } => message,
        SandboxErrorModel::InvalidCommand { message } => message,
        SandboxErrorModel::InvalidOperation { message } => message,
        SandboxErrorModel::InvalidPath { message, .. } => message,
        SandboxErrorModel::Preparation { message, .. } => message,
        SandboxErrorModel::Spawn { message, .. } => message,
        SandboxErrorModel::Io { source, .. } => source.message,
    };
    assert(text.subrange(text.len() - message.len(), text.len() as int) =~= message);
}

/// A feature is called by its own name.
pub proof fn features_bear_their_names(feature: SandboxFeature)
    ensures
        feature.name_text() == match feature {
            SandboxFeature::MinimalReadPolicy => "MinimalReadPolicy"@,
            SandboxFeature::DeniedReadPaths => "DeniedReadPaths"@,
            SandboxFeature::DeniedWritePaths => "DeniedWritePaths"@,
            SandboxFeature::NestedAllowUnderDeny => "NestedAllowUnderDeny"@,
            SandboxFeature::NetworkDenial => "NetworkDenial"@,
            SandboxFeature::NetworkUnrestricted => "NetworkUnrestricted"@,
            SandboxFeature::Interrupt => "Interrupt"@,
            SandboxFeature::ProcessTreeTermination => "ProcessTreeTermination"@,
            SandboxFeature::CurrentProcessGroupTermination => "CurrentProcessGroupTermination"@,
            SandboxFeature::TerminalIsolation => "TerminalIsolation"@,
        },
{
}

/// A refused policy names its backend, its feature and its reason.
pub proof fn refused_policies_name_what_is_missing(backend: SandboxBackend, feature: SandboxFeature, message: Seq<char>)
    ensures
        (SandboxErrorModel::UnsupportedPolicy { backend, feature, message }).text() == "sandbox backend "@
            + backend.name_text() + " does not support "@ + feature.name_text() + ": "@ + message,
{
    let lead = "sandbox backend "@ + backend.name_text() + " does not support "@ + feature.name_text();
    assert(lead + (": "@ + message) =~= lead + ": "@ + message);
}

} // verus!
