//! The response that ends a request.

use crate::error::{ArchiveError, ArchiveFailure, ErrorInfo, FAILURE_STATUS};
use crate::request::{ArchiveResult, ArchiveResultView};
use vstd::prelude::*;

verus! {

/// The status of a success response.
pub const SUCCESS_STATUS: u16 = 200;

/// How a request is answered.
#[derive(Clone, Debug, PartialEq, Eq)]
pub enum Reply {
    /// Status 200; the body is the location of the archived object.
    Archived(ArchiveResult),
    /// Status 400; the body is the kind of the failure.
    Failed(ArchiveFailure),
    /// Status 400 without a body: the guard refused the credential.
    Rejected,
}

/// The mathematical value of a [`Reply`].
pub enum ReplyView {
    Archived(ArchiveResultView),
    Failed(ArchiveFailure),
    Rejected,
}

impl View for Reply {
    type V = ReplyView;

    open spec fn view(&self) -> ReplyView {
        match self {
            Reply::Archived(result) => ReplyView::Archived(result@),
            Reply::Failed(failure) => ReplyView::Failed(*failure),
            Reply::Rejected => ReplyView::Rejected,
        }
    }
}

impl ReplyView {
    /// The HTTP status of the response.
    pub open spec fn status(self) -> u16 {
        match self {
            ReplyView::Archived(_) => SUCCESS_STATUS,
            ReplyView::Failed(_) => FAILURE_STATUS,
            ReplyView::Rejected => FAILURE_STATUS,
        }
    }

    /// The error kind in the body, if the body holds one.
    pub open spec fn error(self) -> Option<ArchiveError> {
        match self {
            ReplyView::Failed(failure) => Some(failure.inner.error),
            _ => None,
        }
    }

    /// The location in the body, if the body holds one.
    pub open spec fn location(self) -> Option<Seq<char>> {
        match self {
            ReplyView::Archived(result) => Some(result.location),
            _ => None,
        }
    }
}

/// The response that reports a failure of the given kind.
pub open spec fn failure_reply(kind: ArchiveError) -> ReplyView {
    ReplyView::Failed(ArchiveFailure { inner: ErrorInfo { error: kind } })
}

impl Reply {
    /// The HTTP status of the response.
    pub fn status(&self) -> (status: u16)
        ensures
            status == self@.status(),
    {
        match self {
            Reply::Archived(_) => SUCCESS_STATUS,
            Reply::Failed(failure) => failure.status(),
            Reply::Rejected => FAILURE_STATUS,
        }
    }

    /// The error kind in the body, if the body holds one.
    pub fn error(&self) -> (kind: Option<ArchiveError>)
        ensures
            kind == self@.error(),
    {
        match self {
            Reply::Failed(failure) => Some(failure.inner.error),
            _ => None,
        }
    }

    /// The response that reports a failure of the given kind.
    pub fn failure(kind: ArchiveError) -> (reply: Reply)
        ensures
            reply@ == failure_reply(kind),
    {
        Reply::Failed(ArchiveFailure::from(kind))
    }
}

} // verus!
