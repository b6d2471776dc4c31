//! Instants of time, and the two calls into `chrono` that produce them.

use vstd::prelude::*;

verus! {

/// An instant on the UTC time line: whole seconds since the Unix epoch and
/// the nanoseconds within that second.
///
/// Instants are ordered by `secs` first and by `nanos` second. `chrono`
/// represents a leap second as `nanos >= 1_000_000_000` within the second
/// before it, so this order is the order of the instants themselves.
#[derive(Clone, Copy, Debug, PartialEq, Eq, Structural)]
pub struct Timestamp {
    pub secs: i64,
    pub nanos: u32,
}

impl Timestamp {
    /// `self` is not later than `other`.
    pub open spec fn spec_at_or_before(&self, other: &Timestamp) -> bool {
        self.secs < other.secs || (self.secs == other.secs && self.nanos <= other.nanos)
    }

    /// `self` lies in the closed interval from `from` to `till`.
    pub open spec fn spec_within(&self, from: &Timestamp, till: &Timestamp) -> bool {
        from.spec_at_or_before(self) && self.spec_at_or_before(till)
    }

    #[verifier::when_used_as_spec(spec_at_or_before)]
    pub fn at_or_before(&self, other: &Timestamp) -> (r: bool)
        ensures
            r == self.spec_at_or_before(other),
    {
        self.secs < other.secs || (self.secs == other.secs && self.nanos <= other.nanos)
    }

    #[verifier::when_used_as_spec(spec_within)]
    pub fn within(&self, from: &Timestamp, till: &Timestamp) -> (r: bool)
        ensures
            r == self.spec_within(from, till),
    {
        from.at_or_before(self) && self.at_or_before(till)
    }
}

/// The instant that `chrono::DateTime::parse_from_rfc3339` reads from a text,
/// or `None` where it rejects the text.
pub uninterp spec fn rfc3339_instant(text: Seq<char>) -> Option<Timestamp>;

/// Calls `chrono::DateTime::parse_from_rfc3339` and reads the instant off
/// the result with `timestamp` and `timestamp_subsec_nanos`, which count
/// from the epoch in UTC whatever offset the text gave. Trusted: the result
/// is a function of the text alone, named `rfc3339_instant`.
#[verifier::external_body]
pub(crate) fn parse_rfc3339(text: &str) -> (r: Option<Timestamp>)
    ensures
        r == rfc3339_instant(text@),
{
    match chrono::DateTime::parse_from_rfc3339(text) {
        Ok(t) => Some(Timestamp { secs: t.timestamp(), nanos: t.timestamp_subsec_nanos() }),
        Err(_) => None,
    }
}

/// Calls `chrono::Utc::now` and reads the instant off the result with
/// `timestamp` and `timestamp_subsec_nanos`. Trusted: the system clock
/// decides the result; `chrono` builds it from the duration since the
/// epoch, so the seconds are not negative and the nanoseconds stay below
/// one second. Panics, as `chrono` does, where the clock is set before
/// the epoch.
#[verifier::external_body]
pub(crate) fn now() -> (t: Timestamp)
    ensures
        t.secs >= 0,
        t.nanos < 1_000_000_000,
{
    let t = chrono::Utc::now();
    Timestamp { secs: t.timestamp(), nanos: t.timestamp_subsec_nanos() }
}

} // verus!
