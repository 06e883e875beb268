use vstd::prelude::*;

use crate::time::{day_before, one_day_before, UtcInstant};

verus! {

/// Optional RFC 3339 bounds of a measurement range query.
pub struct TimeRangeQuery {
    pub start: Option<String>,
    pub end: Option<String>,
}

/// The UTC instant that chrono's RFC 3339 parser reads from `text`, or
/// `None` where it rejects the text.
pub uninterp spec fn rfc3339_instant(text: Seq<char>) -> Option<UtcInstant>;

/// Calls `chrono::DateTime::parse_from_rfc3339` and converts an accepted
/// timestamp to UTC seconds and nanoseconds.  What the parser accepts and
/// the instant it reads are left to chrono and named `rfc3339_instant`.
#[verifier::external_body]
fn parse_rfc3339_utc(text: &str) -> (r: Option<UtcInstant>)
    ensures
        r == rfc3339_instant(text@),
{
    match chrono::DateTime::parse_from_rfc3339(text) {
        Ok(d) => {
            let u = d.with_timezone(&chrono::Utc);
            Some(UtcInstant { secs: u.timestamp(), nanos: u.timestamp_subsec_nanos() })
        },
        Err(_) => None,
    }
}

/// The bound a query gives: its parsed text where present and accepted,
/// `fallback` otherwise.
pub open spec fn resolved_bound(text: Option<String>, fallback: UtcInstant) -> UtcInstant {
    match text {
        Some(s) => match rfc3339_instant(s@) {
            Some(t) => t,
            None => fallback,
        },
        None => fallback,
    }
}

impl TimeRangeQuery {
    /// The range a query asks for at `now`: a missing or unreadable start
    /// falls back to one day before `now`, a missing or unreadable end to
    /// `now`.
    pub fn resolve(&self, now: UtcInstant) -> (range: (UtcInstant, UtcInstant))
        requires
            now.secs >= i64::MIN + 86400,
        ensures
            range.0 == resolved_bound(self.start, one_day_before(now)),
            range.1 == resolved_bound(self.end, now),
            self.start matches Some(s) ==> (rfc3339_instant(s@) matches Some(t) ==> range.0 == t),
            self.end matches Some(s) ==> (rfc3339_instant(s@) matches Some(t) ==> range.1 == t),
            (self.start is None || rfc3339_instant(self.start->0@) is None) ==> range.0.secs
                == now.secs - 86400 && range.0.nanos == now.nanos,
            (self.end is None || rfc3339_instant(self.end->0@) is None) ==> range.1 == now,
    {
        let default_start = day_before(now);
        let start = match &self.start {
            Some(s) => match parse_rfc3339_utc(s.as_str()) {
                Some(t) => t,
                None => default_start,
            },
            None => default_start,
        };
        let end = match &self.end {
            Some(s) => match parse_rfc3339_utc(s.as_str()) {
                Some(t) => t,
                None => now,
            },
            None => now,
        };
        (start, end)
    }
}

/// A bound chrono accepts is used as given, whatever the fallback; the
/// fallback only stands in for a missing or unreadable bound.
pub proof fn law_accepted_bound_used_as_given(text: Option<String>, fallback: UtcInstant)
    ensures
        text matches Some(s) ==> (rfc3339_instant(s@) matches Some(t) ==> resolved_bound(
            text,
            fallback,
        ) == t),
        (text is None || rfc3339_instant(text->0@) is None) ==> resolved_bound(text, fallback)
            == fallback,
{
}

} // verus!
