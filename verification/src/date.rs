//! Instants, and the dates that HTTP headers carry.

use vstd::prelude::*;

verus! {

/// An instant: seconds since 1970-01-01T00:00:00Z, and the nanoseconds
/// within that second.
#[derive(Debug, Clone, Copy, PartialEq, Eq, Structural)]
pub struct Timestamp {
    pub secs: i64,
    pub nanos: u32,
}

/// What `chrono` makes of a date in the format of RFC 2822: the seconds and
/// nanoseconds of the instant, or the message of its parse error.
pub uninterp spec fn rfc2822_value(text: Seq<char>) -> Result<(i64, u32), Seq<char>>;

/// What [`parse_rfc2822`] returns, from what `chrono` made of the text.
pub open spec fn timestamp_of(parsed: Result<(i64, u32), Seq<char>>) -> Result<
    Timestamp,
    Seq<char>,
> {
    match parsed {
        Ok(v) => Ok(Timestamp { secs: v.0, nanos: v.1 }),
        Err(e) => Err(e),
    }
}

/// The content of a parse result.
pub open spec fn parsed_view(parsed: Result<Timestamp, String>) -> Result<Timestamp, Seq<char>> {
    match parsed {
        Ok(t) => Ok(t),
        Err(e) => Err(e@),
    }
}

/// Calls `chrono::DateTime::parse_from_rfc2822` and takes from the date it
/// returns `timestamp()` and `timestamp_subsec_nanos()`, from the error its
/// message. Trusted: the outcome is a function of the text alone, which
/// [`rfc2822_value`] names.
#[verifier::external_body]
fn rfc2822(text: &str) -> (parsed: Result<(i64, u32), String>)
    ensures
        match parsed {
            Ok(v) => rfc2822_value(text@) == Ok::<(i64, u32), Seq<char>>(v),
            Err(e) => rfc2822_value(text@) == Err::<(i64, u32), Seq<char>>(e@),
        },
{
    match chrono::DateTime::parse_from_rfc2822(text) {
        Ok(date) => Ok((date.timestamp(), date.timestamp_subsec_nanos())),
        Err(e) => Err(e.to_string()),
    }
}

/// Parses a date in the format of RFC 2822, such as
/// `Wed, 18 Feb 2015 23:16:09 GMT`.
pub fn parse_rfc2822(text: &str) -> (parsed: Result<Timestamp, String>)
    ensures
        parsed_view(parsed) == timestamp_of(rfc2822_value(text@)),
{
    match rfc2822(text) {
        Ok(v) => Ok(Timestamp { secs: v.0, nanos: v.1 }),
        Err(e) => Err(e),
    }
}

} // verus!
