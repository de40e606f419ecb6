//! The records that describe managed content, and the errors of the
//! lifecycle operations.

use vstd::prelude::*;

verus! {

/// One build of the managed content: a version identifier and the time of
/// the build, in seconds since the Unix epoch.
#[derive(Debug, Clone, PartialEq, Eq)]
pub struct ContentMetadata {
    pub timestamp: i64,
    pub version: String,
}

pub struct ContentMetadataView {
    pub timestamp: i64,
    pub version: Seq<char>,
}

impl DeepView for ContentMetadata {
    type V = ContentMetadataView;

    open spec fn deep_view(&self) -> ContentMetadataView {
        ContentMetadataView { timestamp: self.timestamp, version: self.version@ }
    }
}

impl ContentMetadata {
    /// A copy of the record.
    pub fn duplicate(&self) -> (r: ContentMetadata)
        ensures
            r.deep_view() == self.deep_view(),
    {
        ContentMetadata { timestamp: self.timestamp, version: self.version.clone() }
    }
}

/// The durable record of what is installed.
///
/// `filetree` lists the tracked files of components that install a file set;
/// it is absent where installing is a single pass-or-fail action.
/// `adopted_from` holds the version of the unmanaged installation that the
/// record supersedes, and is present exactly in records made by adoption.
#[derive(Debug, Clone, PartialEq, Eq)]
pub struct InstalledContent {
    pub meta: ContentMetadata,
    pub filetree: Option<Vec<String>>,
    pub adopted_from: Option<String>,
}

pub struct InstalledContentView {
    pub meta: ContentMetadataView,
    pub filetree: Option<Seq<Seq<char>>>,
    pub adopted_from: Option<Seq<char>>,
}

impl DeepView for InstalledContent {
    type V = InstalledContentView;

    open spec fn deep_view(&self) -> InstalledContentView {
        InstalledContentView {
            meta: self.meta.deep_view(),
            filetree: self.filetree.deep_view(),
            adopted_from: self.adopted_from.deep_view(),
        }
    }
}

/// An installation found on the system that is not yet managed.
#[derive(Debug, Clone, PartialEq, Eq)]
pub struct Adoptable {
    pub version: String,
    pub confident: bool,
}

pub struct AdoptableView {
    pub version: Seq<char>,
    pub confident: bool,
}

impl DeepView for Adoptable {
    type V = AdoptableView;

    open spec fn deep_view(&self) -> AdoptableView {
        AdoptableView { version: self.version@, confident: self.confident }
    }
}

/// The verdict of validating an installation.
#[derive(Debug, Clone, PartialEq, Eq)]
pub enum ValidationResult {
    Valid,
    Skip,
    Errors(Vec<String>),
}

/// Why a device could not be resolved or a listing not be had.
#[derive(Debug, Clone, Copy, PartialEq, Eq, Structural)]
pub enum Fault {
    /// The tool ended with a failure status.
    ToolFailed,
    /// The tool's output was no UTF-8 text.
    NotText,
    /// The tool's output was empty once trimmed.
    Empty,
    /// The tool's output did not have the expected structure.
    Malformed,
}

/// The ways in which a lifecycle operation fails.
#[derive(Debug, Clone, PartialEq, Eq)]
pub enum BootError {
    /// The boot device could not be resolved.
    Resolution(Fault),
    /// The partition listing could not be had.
    Query(Fault),
    /// No directory is at the path to copy from: nothing is there, or
    /// something that is no directory.
    SourceMissing { path: String },
    /// No directory of support files is at its path.
    AssetsMissing { path: String },
    /// No directory of loader modules is at its path.
    ModulesMissing { path: String },
    /// No file is at the path of the install tool.
    BinaryMissing { path: String },
    /// The install tool ran and failed; holds what it wrote to standard error.
    InstallCommandFailed { stderr: Vec<u8> },
    /// No update metadata was found for the component.
    MetadataNotFound,
    /// Adoption was asked for and nothing adoptable was found.
    AdoptionNotFound,
    /// An outcome was reported that answers no pending action.
    OutOfTurn,
}

pub enum BootErrorView {
    Resolution(Fault),
    Query(Fault),
    SourceMissing { path: Seq<char> },
    AssetsMissing { path: Seq<char> },
    ModulesMissing { path: Seq<char> },
    BinaryMissing { path: Seq<char> },
    InstallCommandFailed { stderr: Seq<u8> },
    MetadataNotFound,
    AdoptionNotFound,
    OutOfTurn,
}

impl DeepView for BootError {
    type V = BootErrorView;

    open spec fn deep_view(&self) -> BootErrorView {
        match self {
            BootError::Resolution(f) => BootErrorView::Resolution(*f),
            BootError::Query(f) => BootErrorView::Query(*f),
            BootError::SourceMissing { path } => BootErrorView::SourceMissing { path: path@ },
            BootError::AssetsMissing { path } => BootErrorView::AssetsMissing { path: path@ },
            BootError::ModulesMissing { path } => BootErrorView::ModulesMissing { path: path@ },
            BootError::BinaryMissing { path } => BootErrorView::BinaryMissing { path: path@ },
            BootError::InstallCommandFailed { stderr } => BootErrorView::InstallCommandFailed {
                stderr: stderr@,
            },
            BootError::MetadataNotFound => BootErrorView::MetadataNotFound,
            BootError::AdoptionNotFound => BootErrorView::AdoptionNotFound,
            BootError::OutOfTurn => BootErrorView::OutOfTurn,
        }
    }
}

} // verus!
