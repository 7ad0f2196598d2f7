//! Instants as exact integer nanoseconds, and the few readings of
//! `std::time::Duration` and of the system clock that the limiter needs.

use std::time::Duration;
use vstd::prelude::*;

verus! {

/// The number of nanoseconds that a `Duration` spans: what
/// `Duration::as_nanos` returns for it.
pub uninterp spec fn duration_nanos(d: Duration) -> nat;

/// `Duration::as_nanos` returns the total number of nanoseconds in the duration.
pub assume_specification[ Duration::as_nanos ](d: &Duration) -> (r: u128)
    ensures
        r == duration_nanos(*d),
;

/// `Duration::from_secs` makes a duration of exactly that many whole seconds.
pub assume_specification[ Duration::from_secs ](secs: u64) -> (r: Duration)
    ensures
        duration_nanos(r) == secs * 1_000_000_000,
;

/// Reads the system clock through `chrono::Utc::now` and hands back the whole
/// seconds since the Unix epoch (`DateTime::timestamp`) and the nanoseconds
/// past that second (`DateTime::timestamp_subsec_nanos`). Nothing is claimed
/// about the reading. `Utc::now` itself panics if the system clock is set
/// before the epoch.
#[verifier::external_body]
fn read_utc_clock() -> (parts: (i64, u32)) {
    let now = chrono::Utc::now();
    (now.timestamp(), now.timestamp_subsec_nanos())
}

/// An instant, counted in nanoseconds from the Unix epoch. Its view is that
/// count as a mathematical integer.
#[derive(Clone, Copy, Debug, PartialEq, Eq, Structural)]
pub struct Timestamp {
    pub nanos: i128,
}

impl View for Timestamp {
    type V = int;

    open spec fn view(&self) -> int {
        self.nanos as int
    }
}

/// A signed span of nanoseconds in whole seconds, rounded toward zero.
pub open spec fn whole_seconds(nanos: int) -> int {
    if nanos >= 0 {
        nanos / 1_000_000_000
    } else {
        -((-nanos) / 1_000_000_000)
    }
}

/// Whole seconds from `earlier` to `later`, floored at zero: a clock that
/// steps backwards never yields negative time.
pub open spec fn elapsed_seconds(later: Timestamp, earlier: Timestamp) -> nat {
    if whole_seconds(later@ - earlier@) > 0 {
        whole_seconds(later@ - earlier@) as nat
    } else {
        0
    }
}

/// The instant `span` after `t`, held at the latest representable instant
/// when the sum lies beyond it.
pub open spec fn instant_after(t: Timestamp, span: nat) -> Timestamp {
    if t@ + span <= i128::MAX {
        Timestamp { nanos: (t@ + span) as i128 }
    } else {
        Timestamp { nanos: i128::MAX }
    }
}

/// The instant `secs` whole seconds and `subsec_nanos` nanoseconds after the epoch.
pub open spec fn instant_of(secs: i64, subsec_nanos: u32) -> Timestamp {
    Timestamp { nanos: (secs * 1_000_000_000 + subsec_nanos) as i128 }
}

impl Timestamp {
    /// The instant `secs` whole seconds and `subsec_nanos` nanoseconds after the epoch.
    pub fn from_parts(secs: i64, subsec_nanos: u32) -> (t: Timestamp)
        ensures
            t == instant_of(secs, subsec_nanos),
            t@ == secs * 1_000_000_000 + subsec_nanos,
    {
        let s: i128 = secs as i128;
        Timestamp { nanos: s * 1_000_000_000 + subsec_nanos as i128 }
    }

    /// The instant `secs` whole seconds after the epoch.
    pub fn from_secs(secs: i64) -> (t: Timestamp)
        ensures
            t@ == secs * 1_000_000_000,
    {
        Timestamp::from_parts(secs, 0)
    }

    /// The current instant according to the system clock: the whole seconds
    /// and the nanoseconds that the clock shows, put together as `from_parts`
    /// does. Two readings need not agree, so no more is promised about the
    /// value.
    pub fn now() -> (t: Timestamp)
        ensures
            exists|secs: i64, subsec_nanos: u32| t == #[trigger] instant_of(secs, subsec_nanos),
    {
        let parts = read_utc_clock();
        Timestamp::from_parts(parts.0, parts.1)
    }

    /// Whether this instant lies strictly before `other`.
    pub fn is_before(self, other: Timestamp) -> (b: bool)
        ensures
            b == (self@ < other@),
    {
        self.nanos < other.nanos
    }

    /// Nanoseconds from `earlier` to this instant, zero when this instant is
    /// not after `earlier`. The difference of two instants always fits.
    pub fn nanos_since(self, earlier: Timestamp) -> (n: u128)
        ensures
            n == if self@ > earlier@ {
                self@ - earlier@
            } else {
                0
            },
    {
        if self.nanos <= earlier.nanos {
            0
        } else if earlier.nanos >= 0 || self.nanos < 0 {
            (self.nanos - earlier.nanos) as u128
        } else {
            let below: u128 = (-(earlier.nanos + 1)) as u128 + 1;
            self.nanos as u128 + below
        }
    }

    /// Whole seconds from `earlier` to this instant, floored at zero.
    pub fn seconds_since(self, earlier: Timestamp) -> (s: u128)
        ensures
            s == elapsed_seconds(self, earlier),
    {
        self.nanos_since(earlier) / 1_000_000_000
    }

    /// Whether fewer than `limit` whole seconds, rounded toward zero, lie
    /// between `start` and this instant. An instant before `start` counts as
    /// zero or negative seconds.
    pub fn within_seconds_of(self, start: Timestamp, limit: u64) -> (b: bool)
        ensures
            b == (whole_seconds(self@ - start@) < limit),
    {
        if self.nanos >= start.nanos {
            self.nanos_since(start) / 1_000_000_000 < limit as u128
        } else {
            limit > 0 || start.nanos_since(self) / 1_000_000_000 >= 1
        }
    }

    /// The instant `span` later, held at the latest representable instant
    /// when the sum lies beyond it.
    pub fn saturating_add(self, span: Duration) -> (t: Timestamp)
        ensures
            t == instant_after(self, duration_nanos(span)),
    {
        let length: u128 = span.as_nanos();
        let latest = Timestamp { nanos: i128::MAX };
        if self.nanos >= 0 {
            let room: u128 = (i128::MAX - self.nanos) as u128;
            if length > room {
                latest
            } else {
                Timestamp { nanos: self.nanos + length as i128 }
            }
        } else {
            let below: u128 = (-(self.nanos + 1)) as u128 + 1;
            if length == below {
                Timestamp { nanos: 0 }
            } else if length < below {
                Timestamp { nanos: self.nanos + length as i128 }
            } else {
                let rest: u128 = length - below;
                if rest > i128::MAX as u128 {
                    latest
                } else {
                    Timestamp { nanos: rest as i128 }
                }
            }
        }
    }
}

} // verus!
