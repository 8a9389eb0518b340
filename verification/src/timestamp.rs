//! Trusted timestamp handling: RFC 3339 text to Unix seconds, and the
//! current wall-clock time for payloads that carry no timestamp.

use vstd::prelude::*;
use crate::json::{json_str_text, json_string_at, key_views};

verus! {

/// The Unix timestamp, in whole seconds, that an RFC 3339 date-time text
/// denotes, if it parses.
pub uninterp spec fn unix_of_rfc3339(s: Seq<char>) -> Option<int>;

/// Relies on `time::OffsetDateTime::parse` with the RFC 3339 well-known
/// format and on `OffsetDateTime::unix_timestamp`: both are pure, so the
/// seconds value is a function of the text alone.
#[verifier::external_body]
pub(crate) fn rfc3339_unix(s: &str) -> (r: Option<i64>)
    ensures
        (match r {
            Some(t) => unix_of_rfc3339(s@) == Some(t as int),
            None => unix_of_rfc3339(s@) is None,
        }),
{
    match time::OffsetDateTime::parse(s, &time::format_description::well_known::Rfc3339) {
        Ok(t) => Some(t.unix_timestamp()),
        Err(_) => None,
    }
}

/// The timestamp denoted by the RFC 3339 string at `path` of a JSON
/// document, if that member exists, is a string, and parses.
pub open spec fn spec_time_at(doc: Seq<u8>, path: Seq<Seq<char>>) -> Option<int> {
    match json_str_text(doc, path) {
        Some(t) => unix_of_rfc3339(t),
        None => None,
    }
}

/// Reads the RFC 3339 string at `path` and turns it into Unix seconds.
pub fn get_rfc3339(payload: &Vec<u8>, path: &Vec<&str>) -> (r: Option<i64>)
    ensures
        match r {
            Some(t) => spec_time_at(payload@, key_views(path@)) == Some(t as int),
            None => spec_time_at(payload@, key_views(path@)) is None,
        },
{
    match json_string_at(payload, path) {
        Some(s) => rfc3339_unix(s.as_str()),
        None => None,
    }
}

/// Relies on `time::OffsetDateTime::now_utc` and
/// `OffsetDateTime::unix_timestamp`; nothing is promised of the clock's
/// reading.
#[verifier::external_body]
pub(crate) fn now_unix() -> (r: i64) {
    time::OffsetDateTime::now_utc().unix_timestamp()
}

} // verus!
