//! Points in time, read with the `chrono` crate.
use vstd::prelude::*;

verus! {

/// Seconds since the Unix epoch and the nanoseconds past that second, of the
/// UTC time that `s` gives when read as an RFC 3339 date and time.
pub uninterp spec fn utc_instant(s: Seq<char>) -> Option<(i64, u32)>;

/// Relies on `FromStr for chrono::DateTime<Utc>` (a relaxed RFC 3339 reader),
/// with `DateTime::timestamp` and `DateTime::timestamp_subsec_nanos` of its
/// result; the result depends on the text alone.
#[verifier::external_body]
fn parse_utc_instant(s: &str) -> (r: Option<(i64, u32)>)
    ensures
        r == utc_instant(s@),
{
    s.parse::<chrono::DateTime<chrono::Utc>>().ok().map(|d| (d.timestamp(), d.timestamp_subsec_nanos()))
}

/// A point in time, in UTC.
#[derive(Debug, PartialEq, Eq, Structural, Clone, Copy)]
pub struct Timestamp {
    /// Seconds since the Unix epoch.
    pub seconds: i64,
    /// Nanoseconds past that second.
    pub nanos: u32,
}

impl Timestamp {
    /// Reads an RFC 3339 date and time.
    pub fn parse(s: &str) -> (r: Option<Timestamp>)
        ensures
            match utc_instant(s@) {
                Some(p) => r == Some(Timestamp { seconds: p.0, nanos: p.1 }),
                None => r is None,
            },
    {
        match parse_utc_instant(s) {
            Some(p) => Some(Timestamp { seconds: p.0, nanos: p.1 }),
            None => None,
        }
    }
}

} // verus!
