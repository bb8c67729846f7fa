//! Points in time, as the flows compare them.
use vstd::prelude::*;

verus! {

/// An instant in UTC: whole seconds since the Unix epoch and the nanoseconds
/// past that second (which exceed 999,999,999 only within a leap second).
/// Instants are ordered by seconds first, then by nanoseconds.
#[derive(Clone, Copy, Debug, PartialEq, Eq, Structural)]
pub struct Timestamp {
    pub secs: i64,
    pub nanos: u32,
}

impl Timestamp {
    /// `self` lies strictly before `other`.
    pub open spec fn spec_is_before(self, other: Timestamp) -> bool {
        self.secs < other.secs || (self.secs == other.secs && self.nanos < other.nanos)
    }

    /// Whether `self` lies strictly before `other`.
    pub fn is_before(&self, other: &Timestamp) -> (r: bool)
        ensures
            r == self.spec_is_before(*other),
    {
        self.secs < other.secs || (self.secs == other.secs && self.nanos < other.nanos)
    }
}

/// Calls `std::time::SystemTime::elapsed` on `UNIX_EPOCH`: the time since
/// the epoch, as whole seconds and the nanoseconds past them, or `None` where
/// the system clock lies before the epoch. The clock decides the value; the
/// nanoseconds of a `Duration` are documented to stay below one second.
#[verifier::external_body]
fn time_since_epoch() -> (r: Option<(u64, u32)>)
    ensures
        r matches Some(d) ==> d.1 < 1_000_000_000,
{
    match std::time::UNIX_EPOCH.elapsed() {
        Ok(d) => Some((d.as_secs(), d.subsec_nanos())),
        Err(_) => None,
    }
}

/// Calls `chrono::DateTime::<Utc>::from_timestamp`: `None` where the instant
/// lies outside what `chrono` represents. Where it exists, its `timestamp`
/// and `timestamp_subsec_nanos` give back the seconds and nanoseconds.
#[verifier::external_body]
fn utc_instant(secs: i64, nanos: u32) -> (r: Option<Timestamp>)
    ensures
        r matches Some(t) ==> t == (Timestamp { secs, nanos }),
{
    match chrono::DateTime::<chrono::Utc>::from_timestamp(secs, nanos) {
        Some(dt) => Some(Timestamp { secs: dt.timestamp(), nanos: dt.timestamp_subsec_nanos() }),
        None => None,
    }
}

/// The current time in UTC, as `chrono::Utc::now` builds it from the time
/// since the epoch; `None` where the clock lies before the epoch or outside
/// what `chrono` represents (where `Utc::now` would panic).
pub(crate) fn current_time() -> (r: Option<Timestamp>)
    ensures
        r matches Some(t) ==> t.secs >= 0 && t.nanos < 1_000_000_000,
{
    match time_since_epoch() {
        None => None,
        Some(d) => {
            if d.0 <= 9_223_372_036_854_775_807u64 {
                utc_instant(d.0 as i64, d.1)
            } else {
                None
            }
        },
    }
}

/// `is_before` orders instants strictly and totally: no instant lies before
/// itself, the order is transitive, and of two different instants one lies
/// before the other.
pub proof fn lemma_is_before_strict_total(a: Timestamp, b: Timestamp, c: Timestamp)
    ensures
        !a.spec_is_before(a),
        a.spec_is_before(b) && b.spec_is_before(c) ==> a.spec_is_before(c),
        a != b ==> a.spec_is_before(b) || b.spec_is_before(a),
        !(a.spec_is_before(b) && b.spec_is_before(a)),
{
}

} // verus!
