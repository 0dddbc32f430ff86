//! Timestamps and durations measured in nanoseconds since the Unix epoch.

use vstd::prelude::*;

verus! {

/// A point in time, in nanoseconds relative to the Unix epoch.
#[derive(Clone, Copy, Debug, PartialEq, Eq, Hash, Structural)]
pub struct Timestamp {
    pub unix_nanos: i128,
}

/// A signed span of time in nanoseconds.
#[derive(Clone, Copy, Debug, PartialEq, Eq, Hash, Structural)]
pub struct Span {
    pub nanos: i128,
}

pub open spec fn clamp_i128(x: int) -> i128 {
    if x > i128::MAX {
        i128::MAX
    } else if x < i128::MIN {
        i128::MIN
    } else {
        x as i128
    }
}

/// Nanoseconds in one second.
pub const NANOS_PER_SECOND: i128 = 1_000_000_000i128;

impl Span {
    pub fn from_nanos(nanos: i128) -> (r: Span)
        ensures
            r.nanos == nanos,
    {
        Span { nanos }
    }

    /// A span of whole seconds (saturating at the `i128` range).
    pub fn seconds(seconds: i64) -> (r: Span)
        ensures
            r.nanos == seconds * 1_000_000_000,
    {
        let n: i128 = (seconds as i128) * NANOS_PER_SECOND;
        Span { nanos: n }
    }

    /// A span of whole minutes.
    pub fn minutes(minutes: i64) -> (r: Span)
        ensures
            r.nanos == minutes * 60_000_000_000,
    {
        let n: i128 = (minutes as i128) * 60_000_000_000i128;
        Span { nanos: n }
    }
}

impl Timestamp {
    pub fn from_unix_nanos(unix_nanos: i128) -> (r: Timestamp)
        ensures
            r.unix_nanos == unix_nanos,
    {
        Timestamp { unix_nanos }
    }

    /// The Unix epoch.
    pub fn unix_epoch() -> (r: Timestamp)
        ensures
            r.unix_nanos == 0,
    {
        Timestamp { unix_nanos: 0 }
    }

    /// Span from `earlier` to `self`, saturating at the `i128` range.
    pub fn since(&self, earlier: &Timestamp) -> (r: Span)
        ensures
            r.nanos == clamp_i128(self.unix_nanos - earlier.unix_nanos),
    {
        let a = self.unix_nanos;
        let b = earlier.unix_nanos;
        if b >= 0 {
            if a < i128::MIN + b {
                Span { nanos: i128::MIN }
            } else {
                Span { nanos: a - b }
            }
        } else {
            if a > i128::MAX + b {
                Span { nanos: i128::MAX }
            } else {
                Span { nanos: a - b }
            }
        }
    }

    /// This timestamp moved forward by `span`, saturating at the `i128` range.
    pub fn plus(&self, span: &Span) -> (r: Timestamp)
        ensures
            r.unix_nanos == clamp_i128(self.unix_nanos + span.nanos),
    {
        let a = self.unix_nanos;
        let b = span.nanos;
        if b >= 0 {
            if a > i128::MAX - b {
                Timestamp { unix_nanos: i128::MAX }
            } else {
                Timestamp { unix_nanos: a + b }
            }
        } else {
            if a < i128::MIN - b {
                Timestamp { unix_nanos: i128::MIN }
            } else {
                Timestamp { unix_nanos: a + b }
            }
        }
    }
}

/// Reads the wall clock (`time::OffsetDateTime::now_utc`). The value depends on
/// the moment of the call, so nothing is promised about it.
#[verifier::external_body]
pub(crate) fn now_utc() -> (r: Timestamp) {
    Timestamp { unix_nanos: time::OffsetDateTime::now_utc().unix_timestamp_nanos() }
}

} // verus!
