//! Points in time and lengths of time.
use vstd::prelude::*;

use crate::error::DecodeError;
use crate::wire;

verus! {

/// Nanoseconds in one second.
pub const NANOS_PER_SECOND: i128 = 1_000_000_000;

/// Seconds in one day.
pub const SECONDS_PER_DAY: i64 = 86_400;

/// A point in time, as whole seconds since the Unix epoch and the nanoseconds
/// past that second.
#[derive(Clone, Copy, Debug, PartialEq, Eq, Structural)]
pub struct Timestamp {
    pub seconds: i64,
    pub nanos: u32,
}

/// A length of time in whole seconds.
#[derive(Clone, Copy, Debug, PartialEq, Eq, Structural)]
pub struct Duration {
    pub seconds: i64,
}

impl Timestamp {
    /// The nanosecond part is less than one second.
    pub open spec fn wf(self) -> bool {
        self.nanos < 1_000_000_000
    }

    /// Nanoseconds since the Unix epoch.
    pub open spec fn unix_nanos(self) -> int {
        self.seconds * 1_000_000_000 + self.nanos
    }

    /// The point `n` nanoseconds after the Unix epoch (before it, for a negative
    /// `n`); `None` where its whole seconds do not fit in `i64`.
    ///
    /// This range is that of the wire timestamp, and is wider than that of
    /// calendar date types limited to the years -9999 to 9999: a point far out
    /// in it may have no such calendar form.
    pub fn from_unix_timestamp_nanos(n: i128) -> (r: Option<Timestamp>)
        ensures
            r is Some <==> i64::MIN * 1_000_000_000 <= n < (i64::MAX + 1) * 1_000_000_000,
            r matches Some(t) ==> t.wf() && t.unix_nanos() == n,
    {
        if n < (i64::MIN as i128) * NANOS_PER_SECOND || n >= (i64::MAX as i128 + 1) * NANOS_PER_SECOND {
            return None;
        }
        // Counted from the earliest representable second, the nanoseconds are
        // non-negative, so that division rounds down.
        let base: i128 = (i64::MIN as i128) * NANOS_PER_SECOND;
        let shifted: i128 = n - base;
        let q: i128 = shifted / NANOS_PER_SECOND;
        let m: i128 = shifted % NANOS_PER_SECOND;
        assert(q * 1_000_000_000 + m == shifted && 0 <= m < 1_000_000_000) by (nonlinear_arith)
            requires q == shifted / 1_000_000_000, m == shifted % 1_000_000_000, shifted >= 0;
        let secs: i128 = q + i64::MIN as i128;
        assert(i64::MIN <= secs <= i64::MAX && secs * 1_000_000_000 + m == n) by (nonlinear_arith)
            requires q * 1_000_000_000 + m == shifted, 0 <= m < 1_000_000_000,
                shifted == n - i64::MIN * 1_000_000_000, secs == q + i64::MIN,
                i64::MIN * 1_000_000_000 <= n < (i64::MAX + 1) * 1_000_000_000;
        Some(Timestamp { seconds: secs as i64, nanos: m as u32 })
    }

    /// Nanoseconds since the Unix epoch.
    pub fn unix_timestamp_nanos(&self) -> (r: i128)
        ensures
            r == self.unix_nanos(),
    {
        assert(i64::MIN * 1_000_000_000 <= self.seconds * 1_000_000_000 <= i64::MAX * 1_000_000_000)
            by (nonlinear_arith);
        self.seconds as i128 * NANOS_PER_SECOND + self.nanos as i128
    }

    pub open spec fn spec_to_wire(self) -> wire::Timestamp {
        wire::Timestamp { seconds: self.seconds, nanos: self.nanos as i32 }
    }

    pub open spec fn spec_from_wire(w: wire::Timestamp) -> Result<Timestamp, DecodeError> {
        if 0 <= w.nanos < 1_000_000_000 {
            Ok(Timestamp { seconds: w.seconds, nanos: w.nanos as u32 })
        } else {
            Err(DecodeError::InvalidTimestamp)
        }
    }

    /// Encodes this point in time.
    pub fn to_wire(&self) -> (r: wire::Timestamp)
        requires
            self.wf(),
        ensures
            r == self.spec_to_wire(),
    {
        wire::Timestamp { seconds: self.seconds, nanos: self.nanos as i32 }
    }

    /// Decodes a wire timestamp; its nanoseconds must lie in `0..1_000_000_000`.
    pub fn from_wire(w: wire::Timestamp) -> (r: Result<Timestamp, DecodeError>)
        ensures
            r == Timestamp::spec_from_wire(w),
            r matches Ok(t) ==> t.wf(),
    {
        if 0 <= w.nanos && w.nanos < 1_000_000_000 {
            Ok(Timestamp { seconds: w.seconds, nanos: w.nanos as u32 })
        } else {
            Err(DecodeError::InvalidTimestamp)
        }
    }

    /// Decoding the encoding of a well-formed point in time gives it back.
    pub proof fn lemma_round_trip(self)
        requires
            self.wf(),
        ensures
            Timestamp::spec_from_wire(self.spec_to_wire()) == Ok::<Timestamp, DecodeError>(self),
    {
    }
}

impl Duration {
    /// A length of `days` days.
    pub fn days(days: i64) -> (r: Duration)
        requires
            i64::MIN <= days * 86_400 <= i64::MAX,
        ensures
            r.seconds == days * 86_400,
    {
        Duration { seconds: days * SECONDS_PER_DAY }
    }

    /// A length of `seconds` seconds.
    pub fn seconds(seconds: i64) -> (r: Duration)
        ensures
            r.seconds == seconds,
    {
        Duration { seconds }
    }

    pub open spec fn spec_to_wire(self) -> wire::Duration {
        wire::Duration { seconds: self.seconds }
    }

    pub open spec fn spec_from_wire(w: wire::Duration) -> Duration {
        Duration { seconds: w.seconds }
    }

    /// Encodes this length of time.
    pub fn to_wire(&self) -> (r: wire::Duration)
        ensures
            r == self.spec_to_wire(),
    {
        wire::Duration { seconds: self.seconds }
    }

    /// Decodes a wire duration.
    pub fn from_wire(w: wire::Duration) -> (r: Duration)
        ensures
            r == Duration::spec_from_wire(w),
    {
        Duration { seconds: w.seconds }
    }
}

/// Every point in time in `o` is well formed.
pub open spec fn opt_timestamp_wf(o: Option<Timestamp>) -> bool {
    o matches Some(t) ==> t.wf()
}

pub open spec fn spec_opt_timestamp_to_wire(o: Option<Timestamp>) -> Option<wire::Timestamp> {
    match o {
        Some(t) => Some(t.spec_to_wire()),
        None => None,
    }
}

pub open spec fn spec_opt_timestamp_from_wire(o: Option<wire::Timestamp>) -> Result<
    Option<Timestamp>,
    DecodeError,
> {
    match o {
        Some(w) => match Timestamp::spec_from_wire(w) {
            Ok(t) => Ok(Some(t)),
            Err(e) => Err(e),
        },
        None => Ok(None),
    }
}

pub open spec fn spec_opt_duration_to_wire(o: Option<Duration>) -> Option<wire::Duration> {
    match o {
        Some(d) => Some(d.spec_to_wire()),
        None => None,
    }
}

pub open spec fn spec_opt_duration_from_wire(o: Option<wire::Duration>) -> Option<Duration> {
    match o {
        Some(w) => Some(Duration::spec_from_wire(w)),
        None => None,
    }
}

/// Encodes an optional point in time.
pub fn opt_timestamp_to_wire(o: Option<Timestamp>) -> (r: Option<wire::Timestamp>)
    requires
        opt_timestamp_wf(o),
    ensures
        r == spec_opt_timestamp_to_wire(o),
{
    match o {
        Some(t) => Some(t.to_wire()),
        None => None,
    }
}

/// Decodes an optional point in time.
pub fn opt_timestamp_from_wire(o: Option<wire::Timestamp>) -> (r: Result<Option<Timestamp>, DecodeError>)
    ensures
        r == spec_opt_timestamp_from_wire(o),
        r matches Ok(t) ==> opt_timestamp_wf(t),
{
    match o {
        Some(w) => match Timestamp::from_wire(w) {
            Ok(t) => Ok(Some(t)),
            Err(e) => Err(e),
        },
        None => Ok(None),
    }
}

/// Encodes an optional length of time.
pub fn opt_duration_to_wire(o: Option<Duration>) -> (r: Option<wire::Duration>)
    ensures
        r == spec_opt_duration_to_wire(o),
{
    match o {
        Some(d) => Some(d.to_wire()),
        None => None,
    }
}

/// Decodes an optional length of time.
pub fn opt_duration_from_wire(o: Option<wire::Duration>) -> (r: Option<Duration>)
    ensures
        r == spec_opt_duration_from_wire(o),
{
    match o {
        Some(w) => Some(Duration::from_wire(w)),
        None => None,
    }
}

/// Optional points in time and lengths of time decode back from their encodings.
pub proof fn lemma_opt_time_round_trip(t: Option<Timestamp>, d: Option<Duration>)
    requires
        opt_timestamp_wf(t),
    ensures
        spec_opt_timestamp_from_wire(spec_opt_timestamp_to_wire(t)) == Ok::<
            Option<Timestamp>,
            DecodeError,
        >(t),
        spec_opt_duration_from_wire(spec_opt_duration_to_wire(d)) == d,
{
}

} // verus!
