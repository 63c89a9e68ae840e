//! Instants in time, held as plain seconds and nanoseconds since the
//! Unix epoch, and the trusted RFC-3339 parser that produces them.

use vstd::prelude::*;

verus! {

/// A UTC instant: whole seconds since the Unix epoch plus the
/// sub-second nanoseconds.
#[derive(Clone, Copy, PartialEq, Eq, Structural, Debug)]
pub struct Timestamp {
    pub secs: i64,
    pub nanos: u32,
}

/// The Unix epoch, the default value of an item's `created` field.
pub open spec fn epoch() -> Timestamp {
    Timestamp { secs: 0, nanos: 0 }
}

impl Timestamp {
    /// The Unix epoch as an executable value.
    pub fn unix_epoch() -> (r: Timestamp)
        ensures
            r == epoch(),
    {
        Timestamp { secs: 0, nanos: 0 }
    }
}

/// The instant an RFC-3339 date-and-time text denotes, or `None` where
/// the text is not a valid RFC-3339 value; it depends on the characters
/// alone.
pub uninterp spec fn rfc3339_of(s: Seq<char>) -> Option<Timestamp>;

/// Relies on chrono's `DateTime::parse_from_rfc3339`: whether the text
/// parses, and the instant it names, are a function of the text alone.
#[verifier::external_body]
pub(crate) fn parse_rfc3339(s: &str) -> (r: Option<Timestamp>)
    ensures
        r == rfc3339_of(s@),
{
    match chrono::DateTime::parse_from_rfc3339(s) {
        Ok(t) => Some(Timestamp { secs: t.timestamp(), nanos: t.timestamp_subsec_nanos() }),
        Err(_) => None,
    }
}

} // verus!
