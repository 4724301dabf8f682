//! Instants in time, held as seconds and nanoseconds since the Unix epoch.

use vstd::prelude::*;

use crate::client::opt_string_view;

verus! {

/// An instant in UTC: whole seconds since 1970-01-01T00:00:00Z and the
/// nanoseconds within that second.
#[derive(Clone, Copy, Debug, PartialEq, Eq, Structural)]
pub struct Timestamp {
    pub secs: i64,
    pub nanos: u32,
}

/// The RFC 3339 text of the instant `secs` seconds and `nanos` nanoseconds
/// after the Unix epoch in UTC, as chrono's `DateTime::<Utc>::to_rfc3339`
/// writes it; `None` where chrono's `DateTime::from_timestamp` cannot
/// represent the instant.
pub uninterp spec fn chrono_rfc3339(secs: i64, nanos: u32) -> Option<Seq<char>>;

/// The RFC 3339 text of `ts` (chrono's `DateTime::from_timestamp` and
/// `to_rfc3339`); the contract names the text and says no more of it.
#[verifier::external_body]
fn rfc3339_of(ts: Timestamp) -> (r: Option<String>)
    ensures
        opt_string_view(r) == chrono_rfc3339(ts.secs, ts.nanos),
{
    chrono::DateTime::from_timestamp(ts.secs, ts.nanos).map(|d| d.to_rfc3339())
}

/// The text the API gives for an instant: its RFC 3339 text, or nothing for
/// an instant that cannot be represented.
pub open spec fn rfc3339_text(secs: i64, nanos: u32) -> Seq<char> {
    match chrono_rfc3339(secs, nanos) {
        Some(t) => t,
        None => Seq::empty(),
    }
}

/// The text the API gives for `ts`.
pub fn to_rfc3339(ts: Timestamp) -> (s: String)
    ensures
        s@ == rfc3339_text(ts.secs, ts.nanos),
{
    match rfc3339_of(ts) {
        Some(t) => t,
        None => String::new(),
    }
}

} // verus!
