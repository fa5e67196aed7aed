//! Object store uploader: the one PUT that stores fetched content.

use crate::clock::Timestamp;
use crate::context::{ServiceContext, ServiceContextView};
use crate::fetch::{FetchedContent, FetchedContentView};
use crate::request::{ArchiveRequest, ArchiveRequestView};
use vstd::prelude::*;

verus! {

/// The access control of every stored object.
pub open spec fn acl() -> Seq<char> {
    "public-read"@
}

/// The cache control of every stored object.
pub open spec fn cache_control() -> Seq<char> {
    "private, max-age=604800"@
}

/// The metadata key under which the source URL is recorded.
pub open spec fn source_key() -> Seq<char> {
    "source"@
}

/// The metadata key under which the archive time is recorded.
pub open spec fn fetched_at_key() -> Seq<char> {
    "fetched-at"@
}

/// The streamed PUT to issue, without its body: the body is the live byte
/// stream of the fetch, which the transport forwards chunk by chunk.
#[derive(Clone, Debug, PartialEq, Eq)]
pub struct UploadPlan {
    pub bucket: String,
    pub key: String,
    pub acl: String,
    pub cache_control: String,
    pub content_length: Option<u64>,
    pub content_type: Option<String>,
    /// The entries of the object's metadata, each a key and its value, in a
    /// list so that the plan states them: the keys differ, and collecting
    /// the list into a map keeps every entry.
    pub metadata: Vec<(String, String)>,
}

/// The mathematical value of an [`UploadPlan`].
pub struct UploadPlanView {
    pub bucket: Seq<char>,
    pub key: Seq<char>,
    pub acl: Seq<char>,
    pub cache_control: Seq<char>,
    pub content_length: Option<u64>,
    pub content_type: Option<Seq<char>>,
    pub metadata: Seq<(Seq<char>, Seq<char>)>,
}

impl View for UploadPlan {
    type V = UploadPlanView;

    open spec fn view(&self) -> UploadPlanView {
        UploadPlanView {
            bucket: self.bucket@,
            key: self.key@,
            acl: self.acl@,
            cache_control: self.cache_control@,
            content_length: self.content_length,
            content_type: self.content_type.deep_view(),
            metadata: self.metadata.deep_view(),
        }
    }
}

/// The metadata of an object archived from `source` at the instant whose
/// RFC 3339 text is `fetched_at`: exactly these two entries.
pub open spec fn metadata_of(source: Seq<char>, fetched_at: Seq<char>) -> Seq<
    (Seq<char>, Seq<char>),
> {
    seq![(source_key(), source), (fetched_at_key(), fetched_at)]
}

/// The PUT that stores `content`, fetched for `request` at the instant `at`,
/// in the service's bucket.
pub open spec fn upload_plan(
    context: ServiceContextView,
    request: ArchiveRequestView,
    content: FetchedContentView,
    at: Timestamp,
) -> UploadPlanView {
    UploadPlanView {
        bucket: context.bucket_name,
        key: request.suffix,
        acl: acl(),
        cache_control: cache_control(),
        content_length: content.content_length,
        content_type: content.content_type,
        metadata: metadata_of(request.source, at.text()),
    }
}

/// The two metadata keys differ, so the metadata holds two entries however
/// it is keyed.
pub proof fn lemma_metadata_keys_differ()
    ensures
        source_key() != fetched_at_key(),
{
    reveal_strlit("source");
    reveal_strlit("fetched-at");
    assert(source_key().len() != fetched_at_key().len());
}

/// The request's `public` flag is not consulted: the stored object is
/// publicly readable and the PUT is the same whichever way the flag is set.
pub proof fn lemma_public_flag_is_not_consulted(
    context: ServiceContextView,
    request: ArchiveRequestView,
    content: FetchedContentView,
    at: Timestamp,
    public: bool,
)
    ensures
        upload_plan(context, (ArchiveRequestView { public, ..request }), content, at)
            == upload_plan(context, request, content, at),
        upload_plan(context, request, content, at).acl == acl(),
{
}

/// Constructs the PUT for fetched content. `at` is the archive time.
pub fn plan_upload(
    context: &ServiceContext,
    request: &ArchiveRequest,
    content: &FetchedContent,
    at: &Timestamp,
) -> (plan: UploadPlan)
    ensures
        plan@ == upload_plan(context@, request@, content@, *at),
{
    let mut metadata: Vec<(String, String)> = Vec::new();
    metadata.push(("source".to_owned(), request.source.clone()));
    metadata.push(("fetched-at".to_owned(), at.to_rfc3339()));
    let plan = UploadPlan {
        bucket: context.bucket_name.clone(),
        key: request.suffix.clone(),
        acl: "public-read".to_owned(),
        cache_control: "private, max-age=604800".to_owned(),
        content_length: content.content_length,
        content_type: content.content_type.clone(),
        metadata,
    };
    assert(plan@.metadata =~= metadata_of(request@.source, at.text()));
    plan
}

} // verus!
