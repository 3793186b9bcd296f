//! Instants in time, as Kratos writes them (RFC 3339).
use vstd::prelude::*;
use crate::json::{opt_view, text_of, Json, JsonValue};

verus! {

/// An instant: whole seconds since the Unix epoch and the nanoseconds past them.
#[derive(Debug, Clone, Copy, PartialEq, Eq, Structural)]
pub struct Timestamp {
    pub secs: i64,
    pub nanos: u32,
}

/// The instant that `chrono` reads from an RFC 3339 text, as seconds and nanoseconds,
/// if it reads one.
pub uninterp spec fn rfc3339_instant(text: Seq<char>) -> Option<(i64, u32)>;

/// Reads an RFC 3339 text with `chrono`'s parser for `DateTime<Utc>`
/// (`str::parse`, the parser that `chrono`'s `Deserialize` uses for strings).
/// Claimed: the result is the name `rfc3339_instant` of the text; what the parser
/// accepts is left to that name.
#[verifier::external_body]
fn parse_rfc3339(text: &str) -> (r: Option<(i64, u32)>)
    ensures
        r == rfc3339_instant(text@),
{
    match text.parse::<chrono::DateTime<chrono::Utc>>() {
        Ok(d) => Some((d.timestamp(), d.timestamp_subsec_nanos())),
        Err(_) => None,
    }
}

/// The instant of a document, when it is a string that reads as one.
pub open spec fn instant_of(j: Option<JsonValue>) -> Option<Timestamp> {
    match text_of(j) {
        Some(s) => match rfc3339_instant(s) {
            Some(p) => Some(Timestamp { secs: p.0, nanos: p.1 }),
            None => None,
        },
        None => None,
    }
}

/// The instant of a document, when it is a string that reads as one.
pub fn timestamp_in(j: Option<&Json>) -> (r: Option<Timestamp>)
    ensures
        r == instant_of(opt_view(j)),
{
    match j {
        Some(Json::Str(s)) => match parse_rfc3339(s.as_str()) {
            Some(p) => Some(Timestamp { secs: p.0, nanos: p.1 }),
            None => None,
        },
        _ => None,
    }
}

} // verus!
