//! Monotonic clock: nanosecond readings anchored to a single
//! process-lifetime epoch.
//!
//! A `Clock` is built once at process startup; every component that needs
//! timestamps receives a handle derived from that one value, so the
//! single-epoch guarantee is a construction-time invariant rather than a
//! runtime race. Readings carry no absolute meaning and must only ever be
//! subtracted from other readings of the same process.

use vstd::prelude::*;
use vstd::arithmetic::div_mod::lemma_div_is_ordered;

verus! {

#[verifier::external_type_specification]
#[verifier::external_body]
pub struct ExInstant(std::time::Instant);

/// Relies on `std::time::Instant`'s derived `Clone`, which copies the
/// opaque instant unchanged (`Instant` is `Copy`).
pub assume_specification[ <std::time::Instant as Clone>::clone ](v: &std::time::Instant) -> (r:
    std::time::Instant)
    ensures
        r == *v,
;

/// A handle on the process-wide monotonic epoch. Each handle remembers
/// its own latest reading, so consecutive readings through one handle are
/// provably non-decreasing.
#[derive(Clone)]
pub struct Clock {
    epoch: std::time::Instant,
    last_ns: i64,
}

/// Uptime in whole seconds for a monotonic reading of `ns` nanoseconds.
pub open spec fn uptime_of(ns: int) -> int {
    ns / 1_000_000_000
}

impl Clock {
    /// The latest reading this handle has handed out (zero before the
    /// first reading).
    pub closed spec fn last_spec(&self) -> int {
        self.last_ns as int
    }

    /// Relies on `std::time::Instant::now` to capture the epoch that all
    /// readings of this clock are measured from.
    #[verifier::external_body]
    pub fn new() -> (r: Clock)
        ensures
            r.last_spec() == 0,
    {
        Clock { epoch: std::time::Instant::now(), last_ns: 0 }
    }

    /// Nanoseconds since the epoch. Relies on `std::time::Instant::elapsed`,
    /// which std documents as measuring from `self` with a monotonic,
    /// never-decreasing `Instant::now`; a reading beyond the `i64` range
    /// (centuries of uptime) saturates, which keeps the sequence of
    /// readings non-decreasing.
    #[verifier::external_body]
    pub fn now_ns(&mut self) -> (r: i64)
        ensures
            r >= 0,
            r >= old(self).last_spec(),
            final(self).last_spec() == r,
    {
        let r = i64::try_from(self.epoch.elapsed().as_nanos()).unwrap_or(i64::MAX);
        self.last_ns = r;
        r
    }
}

/// Whole seconds of uptime for a monotonic reading.
pub fn uptime_seconds(now_ns: i64) -> (r: i64)
    requires
        now_ns >= 0,
    ensures
        r == uptime_of(now_ns as int),
        r >= 0,
{
    ((now_ns as u64) / 1_000_000_000) as i64
}

/// Uptime never decreases: a later monotonic reading yields an uptime at
/// least as large as an earlier one.
pub proof fn lemma_uptime_non_decreasing(ns1: int, ns2: int)
    requires
        0 <= ns1 <= ns2,
    ensures
        uptime_of(ns1) <= uptime_of(ns2),
{
    lemma_div_is_ordered(ns1, ns2, 1_000_000_000);
}

} // verus!
