//! The errors that packaging and merging report.

use vstd::prelude::*;

verus! {

/// Why a packaging or merge run stopped. Every error is fatal to the run.
#[derive(Clone, Debug, PartialEq, Eq)]
pub enum Error {
    /// An OS or architecture string that is no known alias; holds the string.
    UnknownPlatform(String),
    /// Neither the artifact path nor its executable-suffixed variant exists.
    ArtifactNotFound,
    /// The archive could not be named or written.
    ArchiveError,
    /// No subdirectory qualified as a merge set.
    MergeDiscoveryError,
    /// A manifest in a merge set does not hold exactly one package.
    MergeParseError,
    /// The release URL base is missing, or a URL could not be formed.
    UrlResolutionError,
}

/// What an `Error` holds, as mathematical values.
pub enum ErrorView {
    UnknownPlatform(Seq<char>),
    ArtifactNotFound,
    ArchiveError,
    MergeDiscoveryError,
    MergeParseError,
    UrlResolutionError,
}

impl View for Error {
    type V = ErrorView;

    open spec fn view(&self) -> ErrorView {
        match self {
            Error::UnknownPlatform(s) => ErrorView::UnknownPlatform(s@),
            Error::ArtifactNotFound => ErrorView::ArtifactNotFound,
            Error::ArchiveError => ErrorView::ArchiveError,
            Error::MergeDiscoveryError => ErrorView::MergeDiscoveryError,
            Error::MergeParseError => ErrorView::MergeParseError,
            Error::UrlResolutionError => ErrorView::UrlResolutionError,
        }
    }
}

} // verus!
