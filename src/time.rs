use vstd::prelude::*;

use crate::error::Error;
use crate::text::{int_text, push_int};

verus! {

/// An instant in UTC: seconds since the Unix epoch and nanoseconds past
/// that second.
#[derive(Clone, Copy, Debug, PartialEq, Eq, Structural)]
pub struct Timestamp {
    pub seconds: i64,
    pub nanos: i32,
}

/// A half-open interval of UTC instants, `[start, end)`.
#[derive(Clone, Copy, Debug, PartialEq, Eq, Structural)]
pub struct TimeSpan {
    pub start: Timestamp,
    pub end: Timestamp,
}

/// Both endpoints present and the start strictly before the end, compared
/// to the second.
pub open spec fn range_ok(start: Option<Timestamp>, end: Option<Timestamp>) -> bool {
    start is Some && end is Some && start->Some_0.seconds < end->Some_0.seconds
}

/// What chrono reads from `text` under the strftime `format`: seconds since
/// the Unix epoch and nanoseconds past that second.
pub uninterp spec fn parsed_instant(text: Seq<char>, format: Seq<char>) -> Option<(i64, u32)>;

/// Relies on chrono's `DateTime::parse_from_str`, read back through
/// `timestamp` and `timestamp_subsec_nanos`.
#[verifier::external_body]
fn parse_instant(text: &str, format: &str) -> (r: Option<(i64, u32)>)
    ensures
        r == parsed_instant(text@, format@),
{
    chrono::DateTime::parse_from_str(text, format).ok().map(|d| (d.timestamp(), d.timestamp_subsec_nanos()))
}

/// The RFC 3339 text that chrono gives an instant, if chrono can represent it.
pub uninterp spec fn utc_text(seconds: i64, nanos: u32) -> Option<Seq<char>>;

/// Relies on chrono's `DateTime::from_timestamp` (which refuses instants
/// out of its range) and `DateTime::to_rfc3339` on the result.
#[verifier::external_body]
pub(crate) fn rfc3339_text(seconds: i64, nanos: u32) -> (r: Option<String>)
    ensures
        match r {
            Some(t) => utc_text(seconds, nanos) == Some(t@),
            None => utc_text(seconds, nanos) is None,
        },
{
    chrono::DateTime::from_timestamp(seconds, nanos).map(|d| d.to_rfc3339())
}

/// The timestamp for a reading of chrono, when its nanoseconds fit.
pub open spec fn instant_timestamp(p: Option<(i64, u32)>) -> Option<Timestamp> {
    match p {
        Some((s, n)) => if n <= i32::MAX as u32 {
            Some(Timestamp { seconds: s, nanos: n as i32 })
        } else {
            None
        },
        None => None,
    }
}

/// The timestamp that `text` denotes under `format`.
pub open spec fn timestamp_in(text: Seq<char>, format: Seq<char>) -> Option<Timestamp> {
    instant_timestamp(parsed_instant(text, format))
}

/// Text of a timestamp: RFC 3339 in UTC where chrono can represent it,
/// else its seconds in decimal followed by `s`.
pub open spec fn timestamp_text(t: Timestamp) -> Seq<char> {
    if t.nanos >= 0 && utc_text(t.seconds, t.nanos as u32) is Some {
        utc_text(t.seconds, t.nanos as u32)->Some_0
    } else {
        int_text(t.seconds as int) + "s"@
    }
}

/// The timestamp that `text` denotes under the strftime `format`.
pub fn parse_timestamp(text: &str, format: &str) -> (r: Option<Timestamp>)
    ensures
        r == timestamp_in(text@, format@),
{
    match parse_instant(text, format) {
        Some((s, n)) => if n <= i32::MAX as u32 {
            Some(Timestamp { seconds: s, nanos: n as i32 })
        } else {
            None
        },
        None => None,
    }
}

impl Timestamp {
    /// Reads `2022-12-25T15:00:00-0700`: date, time and offset from UTC.
    pub fn parse(text: &str) -> (r: Option<Timestamp>)
        ensures
            r == timestamp_in(text@, "%Y-%m-%dT%H:%M:%S%z"@),
    {
        parse_timestamp(text, "%Y-%m-%dT%H:%M:%S%z")
    }

    /// Human-readable text of the instant.
    pub fn to_text(&self) -> (r: String)
        ensures
            r@ == timestamp_text(*self),
    {
        if self.nanos >= 0 {
            match rfc3339_text(self.seconds, self.nanos as u32) {
                Some(t) => return t,
                None => {},
            }
        }
        let mut out = String::new();
        push_int(&mut out, self.seconds);
        proof {
            reveal_strlit("s");
        }
        out.append("s");
        assert(out@ =~= timestamp_text(*self));
        out
    }
}

/// The value an optional reference points at.
pub open spec fn deref_opt(t: Option<&Timestamp>) -> Option<Timestamp> {
    match t {
        Some(v) => Some(*v),
        None => None,
    }
}

/// The time window `[start, end)`, refused with `InvalidTime` when an
/// endpoint is missing or the start is not before the end.
pub fn validate_range(start: Option<&Timestamp>, end: Option<&Timestamp>) -> (r: Result<(), Error>)
    ensures
        r == (if range_ok(deref_opt(start), deref_opt(end)) {
            Ok(())
        } else {
            Err(Error::InvalidTime)
        }),
{
    match (start, end) {
        (Some(s), Some(e)) => {
            if s.seconds >= e.seconds {
                Err(Error::InvalidTime)
            } else {
                Ok(())
            }
        },
        _ => Err(Error::InvalidTime),
    }
}

/// The half-open span `[start, end)` of two present endpoints.
pub fn get_timespan(start: Option<&Timestamp>, end: Option<&Timestamp>) -> (r: TimeSpan)
    requires
        start is Some,
        end is Some,
    ensures
        r.start == *start->Some_0,
        r.end == *end->Some_0,
{
    match (start, end) {
        (Some(s), Some(e)) => TimeSpan { start: *s, end: *e },
        _ => TimeSpan { start: Timestamp { seconds: 0, nanos: 0 }, end: Timestamp { seconds: 0, nanos: 0 } },
    }
}

} // verus!
