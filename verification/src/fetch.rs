//! Content fetcher: what is accepted of the answer to the GET on the source.

use crate::error::ArchiveError;
use reqwest::header::HeaderValue;
use vstd::prelude::*;

verus! {

/// The only status that a fetch succeeds with.
pub const STATUS_OK: u16 = 200;

/// Whether `byte` is a visible ASCII character, a space or a tab.
pub open spec fn is_visible_ascii(byte: u8) -> bool {
    32 <= byte < 127 || byte == 9
}

/// The text of a raw header value: its bytes read as ASCII characters where
/// all of them are visible, none otherwise.
pub open spec fn visible_text(raw: Seq<u8>) -> Option<Seq<char>> {
    if forall|i: int| 0 <= i < raw.len() ==> is_visible_ascii(#[trigger] raw[i]) {
        Some(raw.map_values(|byte: u8| byte as char))
    } else {
        None
    }
}

/// The mathematical value of a raw header value that may be absent.
pub open spec fn header_view(raw: Option<Vec<u8>>) -> Option<Seq<u8>> {
    match raw {
        Some(bytes) => Some(bytes@),
        None => None,
    }
}

/// The head of the source's answer, as the transport reports it. The body is
/// not part of it: it stays with the transport, unread.
#[derive(Clone, Debug, PartialEq, Eq)]
pub struct FetchReply {
    /// The HTTP status code.
    pub status: u16,
    /// The content length that the transport observed, if any.
    pub content_length: Option<u64>,
    /// The raw value of the `content-type` header, if the header is present.
    pub content_type: Option<Vec<u8>>,
}

/// The mathematical value of a [`FetchReply`].
pub struct FetchReplyView {
    pub status: u16,
    pub content_length: Option<u64>,
    pub content_type: Option<Seq<u8>>,
}

impl View for FetchReply {
    type V = FetchReplyView;

    open spec fn view(&self) -> FetchReplyView {
        FetchReplyView {
            status: self.status,
            content_length: self.content_length,
            content_type: header_view(self.content_type),
        }
    }
}

/// What the uploader is told of fetched content.
#[derive(Clone, Debug, PartialEq, Eq)]
pub struct FetchedContent {
    /// Passed through from the reply.
    pub content_length: Option<u64>,
    /// The `content-type` of the reply, where it is present and readable.
    pub content_type: Option<String>,
}

/// The mathematical value of a [`FetchedContent`].
pub struct FetchedContentView {
    pub content_length: Option<u64>,
    pub content_type: Option<Seq<char>>,
}

impl View for FetchedContent {
    type V = FetchedContentView;

    open spec fn view(&self) -> FetchedContentView {
        FetchedContentView {
            content_length: self.content_length,
            content_type: self.content_type.deep_view(),
        }
    }
}

/// The content type that is passed on: the header's text, and none where the
/// header is absent or is not visible ASCII.
pub open spec fn content_type_of(raw: Option<Seq<u8>>) -> Option<Seq<char>> {
    match raw {
        Some(bytes) => visible_text(bytes),
        None => None,
    }
}

/// The outcome of a fetch that was answered with `reply`: content on status
/// 200, `ContentFetchFailed` on every other status.
pub open spec fn fetched(reply: FetchReplyView) -> Result<FetchedContentView, ArchiveError> {
    if reply.status == STATUS_OK {
        Ok(
            FetchedContentView {
                content_length: reply.content_length,
                content_type: content_type_of(reply.content_type),
            },
        )
    } else {
        Err(ArchiveError::ContentFetchFailed)
    }
}

/// The mathematical value of a fetch outcome.
pub open spec fn fetch_view(outcome: Result<FetchedContent, ArchiveError>) -> Result<
    FetchedContentView,
    ArchiveError,
> {
    match outcome {
        Ok(content) => Ok(content@),
        Err(kind) => Err(kind),
    }
}

/// Reads the `content-type` header of a reply.
pub fn content_type(raw: &Option<Vec<u8>>) -> (text: Option<String>)
    ensures
        text.deep_view() == content_type_of(header_view(*raw)),
{
    match raw {
        Some(bytes) => header_text(bytes.as_slice()),
        None => None,
    }
}

/// Validates the answer of the source.
pub fn check_reply(reply: &FetchReply) -> (outcome: Result<FetchedContent, ArchiveError>)
    ensures
        fetch_view(outcome) == fetched(reply@),
{
    if reply.status == STATUS_OK {
        Ok(
            FetchedContent {
                content_length: reply.content_length,
                content_type: content_type(&reply.content_type),
            },
        )
    } else {
        Err(ArchiveError::ContentFetchFailed)
    }
}

/// `HeaderValue::to_str` on the value that `HeaderValue::from_bytes` builds
/// from `raw`. `from_bytes` refuses control bytes other than tab, and `to_str`
/// refuses every byte that is not visible ASCII, space or tab: the text comes
/// back exactly where all bytes pass, and is then those bytes, unchanged.
#[verifier::external_body]
fn header_text(raw: &[u8]) -> (text: Option<String>)
    ensures
        text.deep_view() == visible_text(raw@),
{
    match HeaderValue::from_bytes(raw) {
        Ok(value) => match value.to_str() {
            Ok(text) => Some(text.to_owned()),
            Err(_) => None,
        },
        Err(_) => None,
    }
}

} // verus!
