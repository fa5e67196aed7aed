//! The archive time: an instant of the UTC clock and its RFC 3339 text.
//!
//! The library does not read the clock. Whoever drives it hands over a
//! reading as a Unix timestamp, and [`Timestamp::new`] admits the readings
//! that chrono can represent.

use chrono::{DateTime, Utc};
use vstd::prelude::*;

verus! {

/// The RFC 3339 text that chrono gives the UTC instant `seconds` whole
/// seconds and `nanos` nanoseconds after the Unix epoch, or `None` where
/// chrono has no such instant.
pub uninterp spec fn rfc3339_text(seconds: i64, nanos: u32) -> Option<Seq<char>>;

/// An instant of the UTC clock that chrono can represent, held as its Unix
/// timestamp.
#[derive(Clone, Copy, Debug, PartialEq, Eq)]
pub struct Timestamp {
    seconds: i64,
    nanos: u32,
}

impl Timestamp {
    /// Whole seconds since the Unix epoch.
    pub closed spec fn spec_seconds(&self) -> i64 {
        self.seconds
    }

    /// Nanoseconds since the last whole second.
    pub closed spec fn spec_nanos(&self) -> u32 {
        self.nanos
    }

    /// Whether chrono has this instant. It holds of every instant that
    /// executable code can get hold of.
    #[verifier::type_invariant]
    pub open spec fn is_representable(&self) -> bool {
        rfc3339_text(self.spec_seconds(), self.spec_nanos()) is Some
    }

    /// The RFC 3339 text of this instant.
    pub open spec fn text(&self) -> Seq<char> {
        rfc3339_text(self.spec_seconds(), self.spec_nanos())->0
    }

    /// The instant `seconds` whole seconds and `nanos` nanoseconds after the
    /// Unix epoch, if chrono can represent it.
    pub fn new(seconds: i64, nanos: u32) -> (instant: Option<Timestamp>)
        ensures
            instant is Some <==> rfc3339_text(seconds, nanos) is Some,
            instant matches Some(t) ==> t.spec_seconds() == seconds && t.spec_nanos() == nanos
                && t.is_representable(),
    {
        match format_rfc3339(seconds, nanos) {
            Some(_) => Some(Timestamp { seconds, nanos }),
            None => None,
        }
    }

    #[verifier::when_used_as_spec(spec_seconds)]
    pub fn seconds(&self) -> (seconds: i64)
        ensures
            seconds == self.spec_seconds(),
    {
        self.seconds
    }

    #[verifier::when_used_as_spec(spec_nanos)]
    pub fn nanos(&self) -> (nanos: u32)
        ensures
            nanos == self.spec_nanos(),
    {
        self.nanos
    }

    /// Formats the instant as RFC 3339 text.
    pub fn to_rfc3339(&self) -> (text: String)
        ensures
            text@ == self.text(),
    {
        proof {
            use_type_invariant(self);
        }
        match format_rfc3339(self.seconds, self.nanos) {
            Some(text) => text,
            None => unreached(),
        }
    }
}

/// `chrono::DateTime::<Utc>::to_rfc3339` on the instant that
/// `DateTime::from_timestamp` builds from `seconds` and `nanos`. The result
/// is `None` exactly where `from_timestamp` refuses the pair; otherwise it is
/// the text that chrono writes, which depends on the pair alone.
#[verifier::external_body]
fn format_rfc3339(seconds: i64, nanos: u32) -> (text: Option<String>)
    ensures
        text.deep_view() == rfc3339_text(seconds, nanos),
{
    match DateTime::<Utc>::from_timestamp(seconds, nanos) {
        Some(instant) => Some(instant.to_rfc3339()),
        None => None,
    }
}

} // verus!
