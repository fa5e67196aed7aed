//! The request to archive one remote resource, and the result of doing so.

use vstd::prelude::*;

verus! {

/// What a caller asks for: fetch `source` and store it under the key `suffix`.
#[derive(Clone, Debug, PartialEq, Eq)]
pub struct ArchiveRequest {
    /// Absolute URL of the content to archive.
    pub source: String,
    /// Object-store key, used verbatim.
    pub suffix: String,
    /// Accepted from the caller; no rule of the pipeline consults it.
    pub public: bool,
}

/// The mathematical value of an [`ArchiveRequest`].
pub struct ArchiveRequestView {
    pub source: Seq<char>,
    pub suffix: Seq<char>,
    pub public: bool,
}

impl View for ArchiveRequest {
    type V = ArchiveRequestView;

    open spec fn view(&self) -> ArchiveRequestView {
        ArchiveRequestView { source: self.source@, suffix: self.suffix@, public: self.public }
    }
}

/// Where the archived object can be reached.
#[derive(Clone, Debug, PartialEq, Eq)]
pub struct ArchiveResult {
    /// Absolute URL of the stored object.
    pub location: String,
}

/// The mathematical value of an [`ArchiveResult`].
pub struct ArchiveResultView {
    pub location: Seq<char>,
}

impl View for ArchiveResult {
    type V = ArchiveResultView;

    open spec fn view(&self) -> ArchiveResultView {
        ArchiveResultView { location: self.location@ }
    }
}

} // verus!
