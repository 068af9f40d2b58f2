//! What the host reports about the paths of a policy.

use crate::native::{NativePath, NativeString, NativeText, PathModel};
use vstd::prelude::*;
use vstd::string::*;

verus! {

/// Whether a path is there.
pub enum Presence {
    Present,
    Missing,
    /// The host could not tell, for this reason.
    Unknown(String),
}

/// What a [`Presence`] holds.
pub enum PresenceModel {
    Present,
    Missing,
    Unknown(Seq<char>),
}

impl DeepView for Presence {
    type V = PresenceModel;

    open spec fn deep_view(&self) -> PresenceModel {
        match self {
            Presence::Present => PresenceModel::Present,
            Presence::Missing => PresenceModel::Missing,
            Presence::Unknown(reason) => PresenceModel::Unknown(reason@),
        }
    }
}

impl View for Presence {
    type V = PresenceModel;

    open spec fn view(&self) -> PresenceModel {
        self.deep_view()
    }
}

/// The location that the host resolved a path to.
pub enum Resolution {
    Resolved(NativePath),
    /// The host could not resolve the path, for this reason.
    Failed(String),
}

/// What a [`Resolution`] holds.
pub enum ResolutionModel {
    Resolved(PathModel),
    Failed(Seq<char>),
}

impl DeepView for Resolution {
    type V = ResolutionModel;

    open spec fn deep_view(&self) -> ResolutionModel {
        match self {
            Resolution::Resolved(path) => ResolutionModel::Resolved(path@),
            Resolution::Failed(reason) => ResolutionModel::Failed(reason@),
        }
    }
}

impl View for Resolution {
    type V = ResolutionModel;

    open spec fn view(&self) -> ResolutionModel {
        self.deep_view()
    }
}

/// The location of a protected metadata entry.
pub enum MetadataResolution {
    Resolved(NativePath),
    Missing,
    /// The entry exists but could not be resolved.
    Unresolved(String),
    /// The host could not tell whether the entry exists.
    Uninspected(String),
}

/// What a [`MetadataResolution`] holds.
pub enum MetadataResolutionModel {
    Resolved(PathModel),
    Missing,
    Unresolved(Seq<char>),
    Uninspected(Seq<char>),
}

impl DeepView for MetadataResolution {
    type V = MetadataResolutionModel;

    open spec fn deep_view(&self) -> MetadataResolutionModel {
        match self {
            MetadataResolution::Resolved(path) => MetadataResolutionModel::Resolved(path@),
            MetadataResolution::Missing => MetadataResolutionModel::Missing,
            MetadataResolution::Unresolved(reason) => MetadataResolutionModel::Unresolved(reason@),
            MetadataResolution::Uninspected(reason) => MetadataResolutionModel::Uninspected(reason@),
        }
    }
}

impl View for MetadataResolution {
    type V = MetadataResolutionModel;

    open spec fn view(&self) -> MetadataResolutionModel {
        self.deep_view()
    }
}

/// One protected metadata entry below a rule's directory.
pub struct MetadataProbe {
    pub name: NativeString,
    /// The rule's path joined with the name.
    pub path: NativePath,
    pub resolution: MetadataResolution,
}

/// What a [`MetadataProbe`] holds.
pub struct MetadataProbeModel {
    pub name: NativeText,
    pub path: PathModel,
    pub resolution: MetadataResolutionModel,
}

impl DeepView for MetadataProbe {
    type V = MetadataProbeModel;

    open spec fn deep_view(&self) -> MetadataProbeModel {
        MetadataProbeModel { name: self.name@, path: self.path@, resolution: self.resolution@ }
    }
}

impl View for MetadataProbe {
    type V = MetadataProbeModel;

    open spec fn view(&self) -> MetadataProbeModel {
        self.deep_view()
    }
}

/// What the host reports about one rule.
pub struct RuleProbe {
    pub presence: Presence,
    pub resolution: Resolution,
    pub is_directory: bool,
    /// Whether bubblewrap's implicit writable device mount overlaps the resolved path.
    pub overlaps_writable_dev: bool,
    /// Whether Seatbelt's platform defaults allow writes that overlap the resolved path.
    pub overlaps_platform_writes: bool,
    /// The protected metadata entries, when the path is a directory.
    pub metadata: Vec<MetadataProbe>,
}

/// What a [`RuleProbe`] holds.
pub struct RuleProbeModel {
    pub presence: PresenceModel,
    pub resolution: ResolutionModel,
    pub is_directory: bool,
    pub overlaps_writable_dev: bool,
    pub overlaps_platform_writes: bool,
    pub metadata: Seq<MetadataProbeModel>,
}

impl DeepView for RuleProbe {
    type V = RuleProbeModel;

    open spec fn deep_view(&self) -> RuleProbeModel {
        RuleProbeModel {
            presence: self.presence@,
            resolution: self.resolution@,
            is_directory: self.is_directory,
            overlaps_writable_dev: self.overlaps_writable_dev,
            overlaps_platform_writes: self.overlaps_platform_writes,
            metadata: self.metadata.deep_view(),
        }
    }
}

impl View for RuleProbe {
    type V = RuleProbeModel;

    open spec fn view(&self) -> RuleProbeModel {
        self.deep_view()
    }
}

/// A path that the backend itself must be able to read.
pub struct InternalRoot {
    pub path: NativePath,
    pub resolution: Resolution,
}

/// What an [`InternalRoot`] holds.
pub struct InternalRootModel {
    pub path: PathModel,
    pub resolution: ResolutionModel,
}

impl DeepView for InternalRoot {
    type V = InternalRootModel;

    open spec fn deep_view(&self) -> InternalRootModel {
        InternalRootModel { path: self.path@, resolution: self.resolution@ }
    }
}

impl View for InternalRoot {
    type V = InternalRootModel;

    open spec fn view(&self) -> InternalRootModel {
        self.deep_view()
    }
}

} // verus!
