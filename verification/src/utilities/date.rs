use chrono::{DateTime, Utc};
use vstd::prelude::*;

verus! {

/// The number of seconds from the epoch to the moment that `chrono` reads
/// out of a text, or nothing where it reads no moment out of it.
pub uninterp spec fn iso_epoch(text: Seq<char>) -> Option<i64>;

/// Says that a text is no date and time.
#[derive(Debug, Clone, Copy, PartialEq, Eq, Structural)]
pub struct ParseError;

/// Calls `chrono`'s `FromStr` for `DateTime<Utc>`, which reads a relaxed
/// form of RFC 3339, and then `DateTime::timestamp`. The contract only
/// names the result.
#[verifier::external_body]
fn parse_epoch(text: &str) -> (result: Option<i64>)
    ensures
        result == iso_epoch(text@),
{
    match text.parse::<DateTime<Utc>>() {
        Ok(moment) => Some(moment.timestamp()),
        Err(_) => None,
    }
}

/// Reads a date and time and returns it in seconds since the epoch; fails
/// where the text is no date and time.
pub fn from_iso_string_to_epoch(iso_string: &str) -> (result: Result<i64, ParseError>)
    ensures
        match result {
            Ok(seconds) => iso_epoch(iso_string@) == Some(seconds),
            Err(_) => iso_epoch(iso_string@) is None,
        },
{
    match parse_epoch(iso_string) {
        Some(seconds) => Ok(seconds),
        None => Err(ParseError),
    }
}

} // verus!
