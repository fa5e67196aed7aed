//! Error mapper: the closed set of failure kinds and the failure response
//! that carries one of them.

use vstd::prelude::*;
use vstd::std_specs::convert::FromSpecImpl;

verus! {

/// Why an authenticated archive request failed.
#[derive(Clone, Copy, Debug, PartialEq, Eq, Structural)]
pub enum ArchiveError {
    /// The source was unreachable or did not answer with status 200.
    ContentFetchFailed,
    /// The object store did not acknowledge the write.
    ContentUploadFailed,
    /// The public URL of the stored object could not be composed.
    InvalidConfiguration,
}

impl ArchiveError {
    /// The tag under which the kind is reported to the caller.
    pub open spec fn spec_name(&self) -> Seq<char> {
        match self {
            ArchiveError::ContentFetchFailed => "ContentFetchFailed"@,
            ArchiveError::ContentUploadFailed => "ContentUploadFailed"@,
            ArchiveError::InvalidConfiguration => "InvalidConfiguration"@,
        }
    }

    /// The tag under which the kind is reported to the caller.
    pub fn name(&self) -> (tag: &'static str)
        ensures
            tag@ == self.spec_name(),
    {
        match self {
            ArchiveError::ContentFetchFailed => "ContentFetchFailed",
            ArchiveError::ContentUploadFailed => "ContentUploadFailed",
            ArchiveError::InvalidConfiguration => "InvalidConfiguration",
        }
    }
}

/// The sole body of a failure response.
#[derive(Clone, Copy, Debug, PartialEq, Eq, Structural)]
pub struct ErrorInfo {
    pub error: ArchiveError,
}

/// The status of every failure response.
pub const FAILURE_STATUS: u16 = 400;

/// A failure response: status 400 with one error kind as its body.
#[derive(Clone, Copy, Debug, PartialEq, Eq, Structural)]
pub struct ArchiveFailure {
    pub inner: ErrorInfo,
}

impl ArchiveFailure {
    /// The HTTP status that the failure is answered with.
    pub fn status(&self) -> (status: u16)
        ensures
            status == FAILURE_STATUS,
    {
        FAILURE_STATUS
    }
}

impl From<ArchiveError> for ArchiveFailure {
    fn from(error: ArchiveError) -> (failure: ArchiveFailure) {
        ArchiveFailure { inner: ErrorInfo { error } }
    }
}

impl FromSpecImpl<ArchiveError> for ArchiveFailure {
    open spec fn obeys_from_spec() -> bool {
        true
    }

    open spec fn from_spec(error: ArchiveError) -> ArchiveFailure {
        ArchiveFailure { inner: ErrorInfo { error } }
    }
}

/// The three tags are pairwise different, so a reported tag names one kind.
pub proof fn lemma_name_identifies_kind(a: ArchiveError, b: ArchiveError)
    ensures
        a.spec_name() == b.spec_name() <==> a == b,
{
    reveal_strlit("ContentFetchFailed");
    reveal_strlit("ContentUploadFailed");
    reveal_strlit("InvalidConfiguration");
    if a != b {
        assert(a.spec_name().len() != b.spec_name().len());
    }
}

} // verus!
