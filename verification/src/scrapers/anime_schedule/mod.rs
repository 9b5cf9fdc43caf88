//! The airing-schedule site: series pages, today's timetable and search.
pub mod anime_details;
pub mod anime_schedule;
pub mod anime_search;

use vstd::prelude::*;
use crate::text::{replace_str, replaced};

verus! {

broadcast use vstd::string::group_string_axioms;

/// The instant `chrono::DateTime::parse_from_rfc3339` reads from `s`, as
/// UNIX seconds and the nanoseconds past them, or `None` when `s` is not an
/// RFC 3339 date and time; parsing is a function of the text alone.
pub uninterp spec fn rfc3339_instant(s: Seq<char>) -> Option<(i64, u32)>;

/// The UNIX time, in seconds, that `s` reads as in RFC 3339.
pub open spec fn rfc3339_timestamp(s: Seq<char>) -> Option<i64> {
    match rfc3339_instant(s) {
        Some(t) => Some(t.0),
        None => None,
    }
}

/// `DateTime::parse_from_rfc3339` followed by `DateTime::timestamp` and
/// `DateTime::timestamp_subsec_nanos`.
#[verifier::external_body]
pub(crate) fn parse_rfc3339(s: &str) -> (r: Option<(i64, u32)>)
    ensures
        r == rfc3339_instant(s@),
{
    match chrono::DateTime::parse_from_rfc3339(s) {
        Ok(t) => Some((t.timestamp(), t.timestamp_subsec_nanos())),
        Err(_) => None,
    }
}

/// The UNIX time, in seconds, that `s` reads as in RFC 3339.
pub(crate) fn parse_rfc3339_secs(s: &str) -> (r: Option<i64>)
    ensures
        r == rfc3339_timestamp(s@),
{
    match parse_rfc3339(s) {
        Some(t) => Some(t.0),
        None => None,
    }
}

/// The date and time a `datetime` attribute of the site holds, with its
/// escaped `+` of the offset restored (`&#43;` becomes `:00+`).
pub open spec fn release_text(attr: Seq<char>) -> Seq<char> {
    replaced(attr, "&#43;"@, ":00+"@)
}

pub fn release_text_str(attr: &str) -> (r: String)
    ensures
        r@ == release_text(attr@),
{
    proof {
        reveal_strlit("&#43;");
        reveal_strlit(":00+");
    }
    replace_str(attr, "&#43;", ":00+")
}

} // verus!
