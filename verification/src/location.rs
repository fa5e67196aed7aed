//! Location resolver: the public URL of a stored object.

use crate::context::ServiceContext;
use crate::error::ArchiveError;
use crate::request::{ArchiveResult, ArchiveResultView};
use url::Url;
use vstd::prelude::*;

verus! {

/// The serialization of the absolute URL that the `url` crate parses from
/// `input`, or `None` where it parses none.
pub uninterp spec fn parsed_url(input: Seq<char>) -> Option<Seq<char>>;

/// The serialization of the URL that the `url` crate resolves `reference` to
/// against the absolute URL `base`, or `None` where `base` does not parse or
/// the reference cannot be resolved against it.
pub uninterp spec fn joined_url(base: Seq<char>, reference: Seq<char>) -> Option<Seq<char>>;

/// The reference that is resolved against the public base URL: the bucket and
/// the key, each behind a slash.
pub open spec fn location_path(bucket: Seq<char>, suffix: Seq<char>) -> Seq<char> {
    seq!['/'] + bucket + seq!['/'] + suffix
}

/// What resolution yields once the join has been attempted: the joined URL as
/// the location, or `InvalidConfiguration` where there is none.
pub open spec fn location_of(joined: Option<Seq<char>>) -> Result<ArchiveResultView, ArchiveError> {
    match joined {
        Some(location) => Ok(ArchiveResultView { location }),
        None => Err(ArchiveError::InvalidConfiguration),
    }
}

/// The location of the object stored under `suffix` in `bucket`, for a
/// service whose public base URL is `base`.
pub open spec fn resolved_location(
    base: Seq<char>,
    bucket: Seq<char>,
    suffix: Seq<char>,
) -> Result<ArchiveResultView, ArchiveError> {
    location_of(joined_url(base, location_path(bucket, suffix)))
}

/// The mathematical value of a resolution outcome.
pub open spec fn resolution_view(outcome: Result<ArchiveResult, ArchiveError>) -> Result<
    ArchiveResultView,
    ArchiveError,
> {
    match outcome {
        Ok(result) => Ok(result@),
        Err(kind) => Err(kind),
    }
}

/// Builds the reference `/{bucket}/{suffix}`.
pub fn object_path(bucket: &str, suffix: &str) -> (path: String)
    ensures
        path@ == location_path(bucket@, suffix@),
{
    proof {
        reveal_strlit("/");
    }
    let path = "/".to_owned().concat(bucket).concat("/").concat(suffix);
    assert(path@ =~= location_path(bucket@, suffix@));
    path
}

/// Turns the outcome of the join into the outcome of the request.
pub fn location_outcome(joined: Option<String>) -> (outcome: Result<ArchiveResult, ArchiveError>)
    ensures
        resolution_view(outcome) == location_of(joined.deep_view()),
{
    match joined {
        Some(location) => Ok(ArchiveResult { location }),
        None => Err(ArchiveError::InvalidConfiguration),
    }
}

/// Composes the public URL of the object stored under `suffix`: the public
/// base URL joined with `/{bucket}/{suffix}`.
pub fn resolve_location(context: &ServiceContext, suffix: &str) -> (outcome: Result<
    ArchiveResult,
    ArchiveError,
>)
    ensures
        resolution_view(outcome) == resolved_location(
            context@.public_url,
            context@.bucket_name,
            suffix@,
        ),
{
    let path = object_path(context.bucket_name.as_str(), suffix);
    location_outcome(join_url(context.public_url.as_str(), path.as_str()))
}

/// `url::Url::parse`, with the parsed URL handed back as its serialization
/// (`String::from`). The result is `None` exactly where parsing fails;
/// otherwise it is the text that the crate serializes, which depends on the
/// input alone.
#[verifier::external_body]
pub(crate) fn parse_url(input: &str) -> (text: Option<String>)
    ensures
        text.deep_view() == parsed_url(input@),
{
    match Url::parse(input) {
        Ok(url) => Some(String::from(url)),
        Err(_) => None,
    }
}

/// `url::Url::join` on the URL that `Url::parse` reads from `base`, with the
/// joined URL handed back as its serialization. The context holds its base
/// URL as the serialization of a parsed URL, which the crate parses back to
/// that URL. The result is `None` exactly where either step fails; otherwise
/// it is the text that the crate serializes, which depends on the two inputs
/// alone.
#[verifier::external_body]
fn join_url(base: &str, reference: &str) -> (text: Option<String>)
    ensures
        text.deep_view() == joined_url(base@, reference@),
{
    match Url::parse(base) {
        Ok(url) => match url.join(reference) {
            Ok(joined) => Some(String::from(joined)),
            Err(_) => None,
        },
        Err(_) => None,
    }
}

} // verus!
