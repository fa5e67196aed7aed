//! The archive pipeline of one request, as a state machine: the transport
//! performs what the machine asks for and reports back what happened.

use crate::auth::{admits, authenticate, BearerToken};
use crate::clock::Timestamp;
use crate::context::{ServiceContext, ServiceContextView};
use crate::error::ArchiveError;
use crate::fetch::{check_reply, fetched, FetchReply, FetchReplyView};
use crate::location::{resolve_location, resolved_location};
use crate::reply::{failure_reply, Reply, ReplyView};
use crate::request::{ArchiveRequest, ArchiveRequestView, ArchiveResult, ArchiveResultView};
use crate::upload::{plan_upload, upload_plan, UploadPlan, UploadPlanView};
use vstd::prelude::*;

verus! {

/// Where a request stands.
#[derive(Clone, Debug, PartialEq, Eq)]
pub enum Stage {
    /// Nothing is known of the caller yet.
    Unauthenticated,
    /// The guard accepted the credential; the request itself is awaited.
    Authenticated(BearerToken),
    /// The GET on the source is under way.
    Fetching(ArchiveRequest),
    /// The content is being relayed into the object store.
    Uploading(ArchiveRequest),
    /// The object is stored and its location known. Terminal.
    Resolved(ArchiveResult),
    /// The request failed. Terminal.
    Failed(ArchiveError),
    /// The guard refused the credential. Terminal.
    Rejected,
}

/// The mathematical value of a [`Stage`].
pub enum StageView {
    Unauthenticated,
    Authenticated(Seq<char>),
    Fetching(ArchiveRequestView),
    Uploading(ArchiveRequestView),
    Resolved(ArchiveResultView),
    Failed(ArchiveError),
    Rejected,
}

impl View for Stage {
    type V = StageView;

    open spec fn view(&self) -> StageView {
        match self {
            Stage::Unauthenticated => StageView::Unauthenticated,
            Stage::Authenticated(token) => StageView::Authenticated(token@),
            Stage::Fetching(request) => StageView::Fetching(request@),
            Stage::Uploading(request) => StageView::Uploading(request@),
            Stage::Resolved(result) => StageView::Resolved(result@),
            Stage::Failed(kind) => StageView::Failed(*kind),
            Stage::Rejected => StageView::Rejected,
        }
    }
}

/// What the transport reports.
#[derive(Clone, Debug, PartialEq, Eq)]
pub enum Event {
    /// The raw value of the request's authorization header, if it has one.
    Credential(Option<String>),
    /// The decoded body of the request.
    Request(ArchiveRequest),
    /// The GET failed below HTTP: resolution, connection, TLS, timeout.
    FetchFailed,
    /// The source answered; the instant is the archive time, read from
    /// the clock when the answer arrived.
    FetchResponded(FetchReply, Timestamp),
    /// The store write failed, for whatever reason.
    UploadFailed,
    /// The store acknowledged the write.
    UploadAcknowledged,
}

/// The mathematical value of an [`Event`].
pub enum EventView {
    Credential(Option<Seq<char>>),
    Request(ArchiveRequestView),
    FetchFailed,
    FetchResponded(FetchReplyView, Timestamp),
    UploadFailed,
    UploadAcknowledged,
}

impl View for Event {
    type V = EventView;

    open spec fn view(&self) -> EventView {
        match self {
            Event::Credential(header) => EventView::Credential(header.deep_view()),
            Event::Request(request) => EventView::Request(request@),
            Event::FetchFailed => EventView::FetchFailed,
            Event::FetchResponded(reply, at) => EventView::FetchResponded(reply@, *at),
            Event::UploadFailed => EventView::UploadFailed,
            Event::UploadAcknowledged => EventView::UploadAcknowledged,
        }
    }
}

/// What the machine asks the transport to do next.
#[derive(Clone, Debug, PartialEq, Eq)]
pub enum Action {
    /// Decode the request body and report it.
    AwaitRequest,
    /// Issue a GET on this URL, with no additional headers, and report the
    /// head of the answer without reading the body.
    Fetch(String),
    /// Issue this PUT, with the unread body of the fetch as its body.
    Upload(UploadPlan),
    /// Answer the caller. Nothing follows.
    Respond(Reply),
    /// The event was not awaited: do nothing.
    Nothing,
}

/// The mathematical value of an [`Action`].
pub enum ActionView {
    AwaitRequest,
    Fetch(Seq<char>),
    Upload(UploadPlanView),
    Respond(ReplyView),
    Nothing,
}

impl View for Action {
    type V = ActionView;

    open spec fn view(&self) -> ActionView {
        match self {
            Action::AwaitRequest => ActionView::AwaitRequest,
            Action::Fetch(source) => ActionView::Fetch(source@),
            Action::Upload(plan) => ActionView::Upload(plan@),
            Action::Respond(reply) => ActionView::Respond(reply@),
            Action::Nothing => ActionView::Nothing,
        }
    }
}

impl StageView {
    /// Whether the request has been answered.
    pub open spec fn is_terminal(self) -> bool {
        self is Resolved || self is Failed || self is Rejected
    }
}

/// The step that ends a request in failure.
pub open spec fn fail(kind: ArchiveError) -> (StageView, ActionView) {
    (StageView::Failed(kind), ActionView::Respond(failure_reply(kind)))
}

/// One step of the pipeline: the stage that follows `stage` on `event`, and
/// what is asked of the transport. An event that the stage does not await
/// changes nothing.
pub open spec fn step(context: ServiceContextView, stage: StageView, event: EventView) -> (
    StageView,
    ActionView,
) {
    match (stage, event) {
        (StageView::Unauthenticated, EventView::Credential(header)) => {
            if admits(header, context.bearer_token) {
                (StageView::Authenticated(header->0), ActionView::AwaitRequest)
            } else {
                (StageView::Rejected, ActionView::Respond(ReplyView::Rejected))
            }
        },
        (StageView::Authenticated(_), EventView::Request(request)) => (
            StageView::Fetching(request),
            ActionView::Fetch(request.source),
        ),
        (StageView::Fetching(_), EventView::FetchFailed) => fail(ArchiveError::ContentFetchFailed),
        (StageView::Fetching(request), EventView::FetchResponded(reply, at)) => match fetched(
            reply,
        ) {
            Ok(content) => (
                StageView::Uploading(request),
                ActionView::Upload(upload_plan(context, request, content, at)),
            ),
            Err(kind) => fail(kind),
        },
        (StageView::Uploading(_), EventView::UploadFailed) => fail(
            ArchiveError::ContentUploadFailed,
        ),
        (StageView::Uploading(request), EventView::UploadAcknowledged) => match resolved_location(
            context.public_url,
            context.bucket_name,
            request.suffix,
        ) {
            Ok(result) => (
                StageView::Resolved(result),
                ActionView::Respond(ReplyView::Archived(result)),
            ),
            Err(kind) => fail(kind),
        },
        _ => (stage, ActionView::Nothing),
    }
}

/// The stage that a request has reached once the transport has reported
/// `events`, in this order.
pub open spec fn stage_after(context: ServiceContextView, events: Seq<EventView>) -> StageView
    decreases events.len(),
{
    if events.len() == 0 {
        StageView::Unauthenticated
    } else {
        step(context, stage_after(context, events.drop_last()), events.last()).0
    }
}

/// What the machine asks for when the transport reports `events[i]`, having
/// reported the events before it.
pub open spec fn action_at(context: ServiceContextView, events: Seq<EventView>, i: int) -> ActionView
    recommends
        0 <= i < events.len(),
{
    step(context, stage_after(context, events.take(i)), events[i]).1
}

/// The response that a terminal stage was entered with.
pub open spec fn reply_of(stage: StageView) -> Option<ReplyView> {
    match stage {
        StageView::Resolved(result) => Some(ReplyView::Archived(result)),
        StageView::Failed(kind) => Some(failure_reply(kind)),
        StageView::Rejected => Some(ReplyView::Rejected),
        _ => None,
    }
}

/// Ends a request in failure.
fn failed(kind: ArchiveError) -> (outcome: (Stage, Action))
    ensures
        (outcome.0@, outcome.1@) == fail(kind),
{
    (Stage::Failed(kind), Action::Respond(Reply::failure(kind)))
}

/// Advances a request by one event.
pub fn advance(context: &ServiceContext, stage: Stage, event: Event) -> (outcome: (Stage, Action))
    ensures
        (outcome.0@, outcome.1@) == step(context@, stage@, event@),
{
    match stage {
        Stage::Unauthenticated => match event {
            Event::Credential(header) => {
                let presented: Option<&str> = match &header {
                    Some(value) => Some(value.as_str()),
                    None => None,
                };
                match authenticate(presented, context.bearer_token.as_str()) {
                    Some(token) => (Stage::Authenticated(token), Action::AwaitRequest),
                    None => (Stage::Rejected, Action::Respond(Reply::Rejected)),
                }
            },
            _ => (Stage::Unauthenticated, Action::Nothing),
        },
        Stage::Authenticated(token) => match event {
            Event::Request(request) => {
                let source = request.source.clone();
                (Stage::Fetching(request), Action::Fetch(source))
            },
            _ => (Stage::Authenticated(token), Action::Nothing),
        },
        Stage::Fetching(request) => match event {
            Event::FetchFailed => failed(ArchiveError::ContentFetchFailed),
            Event::FetchResponded(reply, at) => match check_reply(&reply) {
                Ok(content) => {
                    let plan = plan_upload(context, &request, &content, &at);
                    (Stage::Uploading(request), Action::Upload(plan))
                },
                Err(kind) => failed(kind),
            },
            _ => (Stage::Fetching(request), Action::Nothing),
        },
        Stage::Uploading(request) => match event {
            Event::UploadFailed => failed(ArchiveError::ContentUploadFailed),
            Event::UploadAcknowledged => match resolve_location(context, request.suffix.as_str()) {
                Ok(result) => {
                    let location = result.location.clone();
                    (Stage::Resolved(result), Action::Respond(Reply::Archived(ArchiveResult { location })))
                },
                Err(kind) => failed(kind),
            },
            _ => (Stage::Uploading(request), Action::Nothing),
        },
        Stage::Resolved(result) => (Stage::Resolved(result), Action::Nothing),
        Stage::Failed(kind) => (Stage::Failed(kind), Action::Nothing),
        Stage::Rejected => (Stage::Rejected, Action::Nothing),
    }
}

} // verus!
