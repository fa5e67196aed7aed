//! What holds of every run of the pipeline.

use crate::auth::admits;
use crate::clock::Timestamp;
use crate::context::ServiceContextView;
use crate::error::{ArchiveError, FAILURE_STATUS};
use crate::fetch::{content_type_of, FetchReplyView, STATUS_OK};
use crate::location::{joined_url, location_path, resolved_location};
use crate::pipeline::{action_at, reply_of, stage_after, step, ActionView, EventView, StageView};
use crate::reply::{failure_reply, ReplyView, SUCCESS_STATUS};
use crate::request::{ArchiveRequestView, ArchiveResultView};
use crate::upload::{acl, cache_control, metadata_of};
use vstd::prelude::*;

verus! {

/// Whether `event` presents a credential that the guard of `context` accepts.
pub open spec fn presents_accepted_credential(context: ServiceContextView, event: EventView) -> bool {
    event matches EventView::Credential(header) && admits(header, context.bearer_token)
}

/// A request that never presents an accepted credential stays outside the
/// pipeline: after any number of events it is unauthenticated or rejected.
pub proof fn lemma_unadmitted_stays_outside(context: ServiceContextView, events: Seq<EventView>)
    requires
        forall|j: int| 0 <= j < events.len() ==> !presents_accepted_credential(context, events[j]),
    ensures
        stage_after(context, events) is Unauthenticated || stage_after(context, events) is Rejected,
    decreases events.len(),
{
    if events.len() > 0 {
        let earlier = events.drop_last();
        assert forall|j: int| 0 <= j < earlier.len() implies !presents_accepted_credential(
            context,
            earlier[j],
        ) by {
            assert(earlier[j] == events[j]);
        }
        lemma_unadmitted_stays_outside(context, earlier);
        assert(!presents_accepted_credential(context, events.last()));
    }
}

/// No egress without authentication. Whatever the transport reports for a
/// request whose credential is missing or is not the accepted one, the
/// machine never asks for a fetch or an upload, and it answers the credential
/// itself with status 400 and an empty body.
pub proof fn lemma_no_egress_without_credential(
    context: ServiceContextView,
    events: Seq<EventView>,
    i: int,
)
    requires
        forall|j: int| 0 <= j < events.len() ==> !presents_accepted_credential(context, events[j]),
        0 <= i < events.len(),
    ensures
        !(action_at(context, events, i) is Fetch),
        !(action_at(context, events, i) is Upload),
        (i == 0 && events[0] is Credential ==> {
            &&& action_at(context, events, 0) == ActionView::Respond(ReplyView::Rejected)
            &&& stage_after(context, events.take(1)) == StageView::Rejected
            &&& ReplyView::Rejected.status() == FAILURE_STATUS
            &&& ReplyView::Rejected.error() is None
            &&& ReplyView::Rejected.location() is None
        }),
{
    let earlier = events.take(i);
    assert forall|j: int| 0 <= j < earlier.len() implies !presents_accepted_credential(
        context,
        earlier[j],
    ) by {
        assert(earlier[j] == events[j]);
    }
    lemma_unadmitted_stays_outside(context, earlier);
    assert(!presents_accepted_credential(context, events[i]));
    if i == 0 && events[0] is Credential {
        let first = events.take(1);
        assert(first.drop_last() =~= events.take(0));
        assert(first.last() == events[0]);
    }
}

/// A request is answered exactly when it enters a terminal stage, with the
/// response that belongs to that stage: status 200 and a location and no
/// error kind, or status 400 and no location. A terminal stage is never left,
/// and nothing more is asked for once it is reached.
pub proof fn lemma_answered_on_entering_terminal_stage(
    context: ServiceContextView,
    stage: StageView,
    event: EventView,
)
    ensures
        ({
            let (next, action) = step(context, stage, event);
            &&& action is Respond <==> !stage.is_terminal() && next.is_terminal()
            &&& action matches ActionView::Respond(reply) ==> {
                &&& reply_of(next) == Some(reply)
                &&& reply.status() == SUCCESS_STATUS || reply.status() == FAILURE_STATUS
                &&& reply.status() == SUCCESS_STATUS <==> reply.location() is Some
                &&& reply.location() is Some ==> reply.error() is None
            }
            &&& stage.is_terminal() ==> next == stage && action is Nothing
        }),
{
}

/// Once a request has reached a terminal stage, it stays there whatever else
/// the transport reports.
pub proof fn lemma_terminal_stage_is_kept(
    context: ServiceContextView,
    events: Seq<EventView>,
    i: int,
)
    requires
        0 <= i <= events.len(),
        stage_after(context, events.take(i)).is_terminal(),
    ensures
        stage_after(context, events) == stage_after(context, events.take(i)),
    decreases events.len() - i,
{
    if i < events.len() {
        let earlier = events.drop_last();
        assert(earlier.take(i) =~= events.take(i));
        lemma_terminal_stage_is_kept(context, earlier, i);
    } else {
        assert(events.take(i) =~= events);
    }
}

/// A request is answered at most once: after the response, nothing is asked
/// of the transport any more.
pub proof fn lemma_answered_at_most_once(
    context: ServiceContextView,
    events: Seq<EventView>,
    i: int,
    j: int,
)
    requires
        0 <= i < j < events.len(),
        action_at(context, events, i) is Respond,
    ensures
        action_at(context, events, j) is Nothing,
{
    let until_j = events.take(j);
    let answered = events.take(i + 1);
    assert(answered.drop_last() =~= events.take(i));
    assert(answered.last() == events[i]);
    assert(until_j.take(i + 1) =~= answered);
    lemma_terminal_stage_is_kept(context, until_j, i + 1);
}

/// Every stage is entered from the stage before it and by the one event that
/// leads there: nothing is fetched before the guard has accepted the
/// credential, nothing is uploaded before the source has answered with status
/// 200, and a location is produced only after the store has acknowledged the
/// write and the public URL has been composed.
pub proof fn lemma_stages_are_entered_in_order(
    context: ServiceContextView,
    stage: StageView,
    event: EventView,
)
    ensures
        ({
            let (next, action) = step(context, stage, event);
            &&& next != stage && next is Authenticated ==> {
                &&& stage is Unauthenticated
                &&& presents_accepted_credential(context, event)
            }
            &&& next != stage && next is Fetching ==> {
                &&& stage is Authenticated
                &&& event is Request
                &&& action is Fetch
            }
            &&& next != stage && next is Uploading ==> {
                &&& stage is Fetching
                &&& event matches EventView::FetchResponded(reply, _)
                &&& reply.status == STATUS_OK
                &&& action is Upload
            }
            &&& next != stage && next is Resolved ==> {
                &&& stage matches StageView::Uploading(request)
                &&& event is UploadAcknowledged
                &&& resolved_location(context.public_url, context.bucket_name, request.suffix)
                    == Ok::<ArchiveResultView, ArchiveError>(next->Resolved_0)
            }
            &&& action is Fetch ==> stage is Authenticated && next is Fetching
            &&& action is Upload ==> stage is Fetching && next is Uploading
        }),
{
}

/// The events of a request on which every stage succeeds.
pub open spec fn successful_events(
    header: Seq<char>,
    request: ArchiveRequestView,
    reply: FetchReplyView,
    at: Timestamp,
) -> Seq<EventView> {
    seq![
        EventView::Credential(Some(header)),
        EventView::Request(request),
        EventView::FetchResponded(reply, at),
        EventView::UploadAcknowledged,
    ]
}

/// A valid request runs through every stage. Its credential accepted and
/// the source answering with status 200, the source is fetched and its
/// content is stored in the configured bucket under the requested key, with
/// the fixed access and cache control, the observed length and type, and the
/// source and the archive time as its metadata. Once the store has
/// acknowledged the write, the caller is answered with status 200 and the
/// public base URL joined with `/{bucket}/{suffix}`, or, where the two do not
/// join, with the failure `InvalidConfiguration`.
pub proof fn lemma_valid_request_is_archived(
    context: ServiceContextView,
    header: Seq<char>,
    request: ArchiveRequestView,
    reply: FetchReplyView,
    at: Timestamp,
)
    requires
        admits(Some(header), context.bearer_token),
        reply.status == STATUS_OK,
    ensures
        ({
            let events = successful_events(header, request, reply, at);
            let answer = action_at(context, events, 3);
            let end = stage_after(context, events);
            &&& action_at(context, events, 0) == ActionView::AwaitRequest
            &&& action_at(context, events, 1) == ActionView::Fetch(request.source)
            &&& action_at(context, events, 2) matches ActionView::Upload(plan) && {
                &&& plan.bucket == context.bucket_name
                &&& plan.key == request.suffix
                &&& plan.acl == acl()
                &&& plan.cache_control == cache_control()
                &&& plan.content_length == reply.content_length
                &&& plan.content_type == content_type_of(reply.content_type)
                &&& plan.metadata == metadata_of(request.source, at.text())
            }
            &&& match joined_url(
                context.public_url,
                location_path(context.bucket_name, request.suffix),
            ) {
                Some(location) => {
                    &&& answer == ActionView::Respond(
                        ReplyView::Archived(ArchiveResultView { location }),
                    )
                    &&& answer->Respond_0.status() == SUCCESS_STATUS
                    &&& end == StageView::Resolved(ArchiveResultView { location })
                },
                None => {
                    &&& answer == ActionView::Respond(
                        failure_reply(ArchiveError::InvalidConfiguration),
                    )
                    &&& answer->Respond_0.status() == FAILURE_STATUS
                    &&& end == StageView::Failed(ArchiveError::InvalidConfiguration)
                },
            }
        }),
{
    let events = successful_events(header, request, reply, at);
    assert(events.take(1).drop_last() =~= events.take(0));
    assert(events.take(2).drop_last() =~= events.take(1));
    assert(events.take(3).drop_last() =~= events.take(2));
    assert(events.drop_last() =~= events.take(3));
    assert(stage_after(context, events.take(0)) == StageView::Unauthenticated);
    assert(stage_after(context, events.take(1)) == StageView::Authenticated(header));
    assert(stage_after(context, events.take(2)) == StageView::Fetching(request));
    assert(stage_after(context, events.take(3)) == StageView::Uploading(request));
}

} // verus!
