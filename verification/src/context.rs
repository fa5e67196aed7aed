//! The service context: what every request of one process shares.

use crate::location::{parse_url, parsed_url};
use vstd::prelude::*;

verus! {

/// Read-only state shared by all requests, fixed at startup.
#[derive(Clone, Debug, PartialEq, Eq)]
pub struct ServiceContext {
    /// The bucket that every object is written to.
    pub bucket_name: String,
    /// The secret that a bearer credential must present.
    pub bearer_token: String,
    /// The public base URL, as the serialization of the URL it parsed to.
    pub public_url: String,
}

/// The mathematical value of a [`ServiceContext`].
pub struct ServiceContextView {
    pub bucket_name: Seq<char>,
    pub bearer_token: Seq<char>,
    pub public_url: Seq<char>,
}

impl View for ServiceContext {
    type V = ServiceContextView;

    open spec fn view(&self) -> ServiceContextView {
        ServiceContextView {
            bucket_name: self.bucket_name@,
            bearer_token: self.bearer_token@,
            public_url: self.public_url@,
        }
    }
}

/// The context that the given configuration starts a service with, or `None`
/// where the public base URL does not parse.
pub open spec fn started_context(
    bucket_name: Seq<char>,
    bearer_token: Seq<char>,
    public_url: Seq<char>,
) -> Option<ServiceContextView> {
    match parsed_url(public_url) {
        Some(parsed) => Some(ServiceContextView { bucket_name, bearer_token, public_url: parsed }),
        None => None,
    }
}

impl ServiceContext {
    /// Builds the context at startup. A public base URL that does not parse
    /// as an absolute URL gives no context, and the service must not start.
    pub fn new(bucket_name: String, bearer_token: String, public_url: &str) -> (context: Option<
        ServiceContext,
    >)
        ensures
            context.deep_view() == started_context(bucket_name@, bearer_token@, public_url@),
    {
        match parse_url(public_url) {
            Some(parsed) => Some(ServiceContext { bucket_name, bearer_token, public_url: parsed }),
            None => None,
        }
    }
}

impl DeepView for ServiceContext {
    type V = ServiceContextView;

    open spec fn deep_view(&self) -> ServiceContextView {
        self@
    }
}

} // verus!
