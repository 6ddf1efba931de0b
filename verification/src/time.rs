//! Instants, as response headers carry them.

use vstd::prelude::*;

verus! {

/// An instant on the UTC time line.
#[derive(Debug, Clone, Copy, PartialEq, Eq, Hash, Structural)]
pub struct Timestamp {
    /// Whole non-leap seconds since 1970-01-01T00:00:00Z.
    pub secs: i64,
    /// Nanoseconds since the last second boundary.
    pub nanos: u32,
}

/// chrono's `ParseError`, the error of its parsers. It is only told apart
/// from a date that was read.
#[verifier::external_type_specification]
#[verifier::external_body]
pub struct ExParseError(chrono::ParseError);

/// The instant that chrono reads from a date in the form of RFC 2822, as
/// seconds and nanoseconds, or `None` where chrono rejects the text.
pub uninterp spec fn rfc2822_instant(text: Seq<char>) -> Option<(i64, u32)>;

/// `chrono::DateTime::parse_from_rfc2822`, with the date that it returns
/// turned into a `Timestamp` by `DateTime::timestamp` and
/// `DateTime::timestamp_subsec_nanos`. What chrono reads from a text depends
/// on the text alone; the contract only gives that result its name.
#[verifier::external_body]
fn parse_rfc2822(text: &str) -> (parsed: Result<Timestamp, chrono::ParseError>)
    ensures
        parsed is Ok <==> rfc2822_instant(text@) is Some,
        parsed matches Ok(t) ==> rfc2822_instant(text@) == Some((t.secs, t.nanos)),
{
    match chrono::DateTime::parse_from_rfc2822(text) {
        Ok(date) => Ok(
            Timestamp { secs: date.timestamp(), nanos: date.timestamp_subsec_nanos() },
        ),
        Err(error) => Err(error),
    }
}

impl Timestamp {
    /// The instant that a date in the form of RFC 2822 denotes, if it
    /// denotes one.
    pub open spec fn rfc2822(text: Seq<char>) -> Option<Timestamp> {
        match rfc2822_instant(text) {
            Some((secs, nanos)) => Some(Timestamp { secs, nanos }),
            None => None,
        }
    }

    /// Reads a date in the form of RFC 2822, such as
    /// `Wed, 01 Jan 2020 00:00:00 GMT`.
    pub fn from_rfc2822(text: &str) -> (instant: Option<Timestamp>)
        ensures
            instant == Timestamp::rfc2822(text@),
    {
        match parse_rfc2822(text) {
            Ok(instant) => Some(instant),
            Err(_) => None,
        }
    }
}

} // verus!
