//! Absolute points in time, read from RFC 3339 text with any offset and
//! held in UTC.

use vstd::prelude::*;
use crate::span::NANOS_PER_SEC;

verus! {

/// What `str::parse::<chrono::DateTime<chrono::Utc>>` makes of a text: the
/// Unix seconds and the nanoseconds beyond them, or nothing when the text is
/// not a date-time with an offset.
pub uninterp spec fn instant_of_text(s: Seq<char>) -> Option<(i64, u32)>;

/// The RFC 3339 text, in UTC with a `Z`, that `chrono` writes for an instant.
pub uninterp spec fn text_of_instant(secs: i64, nanos: u32) -> Seq<char>;

/// Unix seconds of 0000-01-01T00:00:00Z.
pub const FIRST_SEC: i64 = -62_167_219_200;

/// Unix seconds of 9999-12-31T23:59:59Z.
pub const LAST_SEC: i64 = 253_402_300_799;

/// An instant that `chrono::DateTime<Utc>` can hold: nanoseconds under one
/// second, or under two for a leap second at the end of a minute.
pub open spec fn chrono_instant(secs: i64, nanos: u32) -> bool {
    &&& nanos < 2 * NANOS_PER_SEC as int
    &&& nanos >= NANOS_PER_SEC ==> secs % 60 == 59
}

/// A point in time: seconds since 1970-01-01T00:00:00Z and the nanoseconds
/// beyond them.
#[derive(Clone, Copy, Debug, PartialEq, Eq, Structural)]
pub struct Timestamp {
    pub secs: i64,
    pub nanos: u32,
}

/// Relies on `FromStr for chrono::DateTime<Utc>` with `timestamp` and
/// `timestamp_subsec_nanos`; every `DateTime` keeps the nanosecond rule
/// above.
#[verifier::external_body]
fn parse_rfc3339(s: &str) -> (r: Option<(i64, u32)>)
    ensures
        r == instant_of_text(s@),
        r matches Some(p) ==> chrono_instant(p.0, p.1),
{
    s.parse::<chrono::DateTime<chrono::Utc>>().ok().map(|d| (d.timestamp(), d.timestamp_subsec_nanos()))
}

/// Relies on `chrono::DateTime::from_timestamp`, which accepts every
/// instant of the rule above, and `to_rfc3339_opts(AutoSi, true)`, whose
/// four-digit years with all needed fraction digits parse back exactly.
#[verifier::external_body]
fn format_rfc3339(secs: i64, nanos: u32) -> (r: String)
    requires
        chrono_instant(secs, nanos),
        FIRST_SEC <= secs <= LAST_SEC,
    ensures
        r@ == text_of_instant(secs, nanos),
        instant_of_text(r@) == Some((secs, nanos)),
{
    match chrono::DateTime::from_timestamp(secs, nanos) {
        Some(d) => d.to_rfc3339_opts(chrono::SecondsFormat::AutoSi, true),
        None => String::new(),
    }
}

/// The timestamp that a text denotes, when it lies in years 0 to 9999.
pub open spec fn timestamp_decode(s: Seq<char>) -> Option<Timestamp> {
    match instant_of_text(s) {
        Some(p) => if FIRST_SEC <= p.0 <= LAST_SEC {
            Some(Timestamp { secs: p.0, nanos: p.1 })
        } else {
            None
        },
        None => None,
    }
}

impl Timestamp {
    /// An instant of years 0 to 9999 that `chrono` can hold.
    pub open spec fn wf(&self) -> bool {
        &&& chrono_instant(self.secs, self.nanos)
        &&& FIRST_SEC <= self.secs <= LAST_SEC
    }

    /// Reads a date-time with an offset; `None` when the text is not one or
    /// the instant falls outside years 0 to 9999.
    pub fn from_text(s: &str) -> (r: Option<Timestamp>)
        ensures
            r == timestamp_decode(s@),
            r matches Some(t) ==> t.wf(),
    {
        match parse_rfc3339(s) {
            Some(p) => if FIRST_SEC <= p.0 && p.0 <= LAST_SEC {
                Some(Timestamp { secs: p.0, nanos: p.1 })
            } else {
                None
            },
            None => None,
        }
    }

    /// Writes the instant in RFC 3339 form; reading the text back gives the
    /// same instant.
    pub fn to_text(&self) -> (r: String)
        requires
            self.wf(),
        ensures
            r@ == text_of_instant(self.secs, self.nanos),
            timestamp_decode(r@) == Some(*self),
    {
        format_rfc3339(self.secs, self.nanos)
    }
}

} // verus!
