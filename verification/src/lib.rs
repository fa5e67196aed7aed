//! Content-archiving relay behind a bearer credential: the rules by which a
//! request to archive a remote resource into an object store proceeds.
//!
//! A request passes the guard ([`auth`]), the source is fetched ([`fetch`]),
//! its content is relayed into the store ([`upload`]), and the public URL of
//! the stored object is composed ([`location`]). [`pipeline`] ties the stages
//! into a state machine that a transport drives: it performs the network
//! operations that the machine asks for and reports their outcomes. [`laws`]
//! states what holds of every run.

use vstd::prelude::*;

pub mod auth;
pub mod clock;
pub mod context;
pub mod error;
pub mod fetch;
pub mod laws;
pub mod location;
pub mod pipeline;
pub mod reply;
pub mod request;
pub mod upload;

verus! {

/// The text of the constant greeting served at the root path.
pub open spec fn greeting() -> Seq<char> {
    "Hello, world!"@
}

/// Liveness probe: the constant greeting.
pub fn index() -> (text: &'static str)
    ensures
        text@ == greeting(),
{
    "Hello, world!"
}

} // verus!
