//! Instants of the event feed: read from RFC 3339 text, written as UTC.
use vstd::prelude::*;

use crate::json::{Json, JsonValue};
use crate::schema::FromJson;

verus! {

/// The instant that chrono reads from a text, as whole seconds since the Unix
/// epoch and the nanoseconds past them; `None` where chrono rejects the text.
pub uninterp spec fn instant_of(text: Seq<char>) -> Option<(i64, u32)>;

/// chrono's UTC rendering of an instant; `None` where chrono has no date
/// for it.
pub uninterp spec fn utc_text(secs: i64, nanos: u32) -> Option<Seq<char>>;

/// Relies on `str::parse::<chrono::DateTime<chrono::Utc>>`, which takes a
/// relaxed RFC 3339 text with any offset, and on `timestamp` and
/// `timestamp_subsec_nanos`, which chrono documents to round-trip through
/// `DateTime::from_timestamp`.
#[verifier::external_body]
fn parse_instant(text: &str) -> (r: Option<(i64, u32)>)
    ensures
        r == instant_of(text@),
        r matches Some(p) ==> utc_text(p.0, p.1) is Some,
{
    text.parse::<chrono::DateTime<chrono::Utc>>().ok().map(
        |d| (d.timestamp(), d.timestamp_subsec_nanos()),
    )
}

/// Relies on `chrono::DateTime::from_timestamp` (`None` out of range) and on
/// the `Display` of `DateTime<Utc>`.
#[verifier::external_body]
fn format_instant(secs: i64, nanos: u32) -> (r: Option<String>)
    ensures
        r is Some <==> utc_text(secs, nanos) is Some,
        r matches Some(t) ==> utc_text(secs, nanos) == Some(t@),
{
    chrono::DateTime::from_timestamp(secs, nanos).map(|d| d.to_string())
}

/// A point in time, held as seconds since the Unix epoch and nanoseconds.
#[derive(Clone, Copy, Debug, PartialEq, Eq)]
pub struct Timestamp {
    secs: i64,
    nanos: u32,
}

impl Timestamp {
    #[verifier::type_invariant]
    spec fn inv(self) -> bool {
        utc_text(self.secs, self.nanos) is Some
    }

    pub closed spec fn spec_secs(self) -> i64 {
        self.secs
    }

    pub closed spec fn spec_nanos(self) -> u32 {
        self.nanos
    }

    /// Reads an RFC 3339 text (`2021-01-07T21:12:57.268+0100`); `None` where
    /// it is not one.
    pub fn parse(text: &str) -> (r: Option<Timestamp>)
        ensures
            r is Some <==> instant_of(text@) is Some,
            r matches Some(t) ==> instant_of(text@) == Some((t.spec_secs(), t.spec_nanos())),
    {
        match parse_instant(text) {
            Some(p) => Some(Timestamp { secs: p.0, nanos: p.1 }),
            None => None,
        }
    }

    /// Whole seconds since the Unix epoch.
    pub fn secs(&self) -> (r: i64)
        ensures
            r == self.spec_secs(),
    {
        self.secs
    }

    /// Nanoseconds past the whole second.
    pub fn subsec_nanos(&self) -> (r: u32)
        ensures
            r == self.spec_nanos(),
    {
        self.nanos
    }

    /// The instant in UTC, as `2021-01-07 20:12:57.268 UTC`.
    pub fn to_string(&self) -> (r: String)
        ensures
            utc_text(self.spec_secs(), self.spec_nanos()) == Some(r@),
    {
        proof {
            use_type_invariant(self);
        }
        match format_instant(self.secs, self.nanos) {
            Some(t) => t,
            None => String::new(),
        }
    }
}

impl FromJson for Timestamp {
    /// A string holding an RFC 3339 instant.
    open spec fn accepts(j: Json) -> bool {
        j matches Json::Str(s) && instant_of(s) is Some
    }

    open spec fn decodes(j: Json, v: Timestamp) -> bool {
        j matches Json::Str(s) && instant_of(s) == Some((v.spec_secs(), v.spec_nanos()))
    }

    fn from_json(j: &JsonValue) -> (r: Option<Timestamp>) {
        match j {
            JsonValue::Str(s) => Timestamp::parse(s.as_str()),
            _ => None,
        }
    }
}

} // verus!
