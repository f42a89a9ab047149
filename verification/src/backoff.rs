//! The reconnect backoff policy and the keepalive timer bounds.
//!
//! Every hangup of the registry connection schedules a reconnect after a
//! randomized delay.  The first attempt waits a short jittered interval;
//! each further consecutive failure doubles both bounds of the interval up
//! to a capped maximum; any successful open resets the policy.  All times
//! are in milliseconds.

use vstd::prelude::*;
use crate::crypto::random_in_range;

verus! {

/// Lower bound of the first backoff interval.
pub const MIN_BACKOFF_DELAY_LO_MS: u64 = 7500;

/// Upper bound of the first backoff interval.
pub const MIN_BACKOFF_DELAY_HI_MS: u64 = 15000;

/// Cap on the interval's lower bound.
pub const MAX_BACKOFF_DELAY_LO_MS: u64 = 1500000;

/// Cap on the interval's upper bound.
pub const MAX_BACKOFF_DELAY_HI_MS: u64 = 2100000;

/// Lower bound of the keepalive interval.
pub const KEEPALIVE_DELAY_LO_MS: u64 = 2700000;

/// Upper bound of the keepalive interval.
pub const KEEPALIVE_DELAY_HI_MS: u64 = 3450000;

/// The shared reconnect record: whether the connection is open, how many
/// consecutive backoffs have run, and the current interval bounds.
#[derive(Clone, Copy, PartialEq, Eq, Structural, Debug)]
pub struct Reconnect {
    pub min_backoff_delay_lo: u64,
    pub min_backoff_delay_hi: u64,
    pub max_backoff_delay_lo: u64,
    pub max_backoff_delay_hi: u64,
    pub open: bool,
    pub backoff_count: u64,
    pub backoff_delay_lo: u64,
    pub backoff_delay_hi: u64,
}

impl Reconnect {
    /// The record's invariant: ordered positive bounds with room to
    /// double, and, once a backoff has run, a current interval between the
    /// minima and the caps.
    pub open spec fn wf(self) -> bool {
        &&& 0 < self.min_backoff_delay_lo <= self.min_backoff_delay_hi
        &&& self.min_backoff_delay_lo <= self.max_backoff_delay_lo
        &&& self.min_backoff_delay_hi <= self.max_backoff_delay_hi
        &&& self.max_backoff_delay_lo <= self.max_backoff_delay_hi
        &&& self.max_backoff_delay_hi <= u64::MAX / 2
        &&& self.backoff_count > 0 ==> {
            &&& self.min_backoff_delay_lo <= self.backoff_delay_lo <= self.max_backoff_delay_lo
            &&& self.min_backoff_delay_hi <= self.backoff_delay_hi <= self.max_backoff_delay_hi
            &&& self.backoff_delay_lo <= self.backoff_delay_hi
        }
    }

    /// A fresh record: closed, no backoffs run.
    pub fn new() -> (r: Reconnect)
        ensures
            r.wf(),
            !r.open,
            r.backoff_count == 0,
    {
        Reconnect {
            min_backoff_delay_lo: MIN_BACKOFF_DELAY_LO_MS,
            min_backoff_delay_hi: MIN_BACKOFF_DELAY_HI_MS,
            max_backoff_delay_lo: MAX_BACKOFF_DELAY_LO_MS,
            max_backoff_delay_hi: MAX_BACKOFF_DELAY_HI_MS,
            open: false,
            backoff_count: 0,
            backoff_delay_lo: 0,
            backoff_delay_hi: 0,
        }
    }

    /// A successful open: mark open and reset the policy, so the next
    /// failure starts from the minimum interval again.
    pub fn note_open(&mut self)
        requires
            old(self).wf(),
        ensures
            final(self).wf(),
            final(self).open,
            final(self).backoff_count == 0,
            *final(self) == (Reconnect { open: true, backoff_count: 0, ..*old(self) }),
    {
        self.open = true;
        self.backoff_count = 0;
    }

    /// A hangup, close or error: mark closed.
    pub fn note_closed(&mut self)
        ensures
            *final(self) == (Reconnect { open: false, ..*old(self) }),
    {
        self.open = false;
    }

    /// One backoff step: choose the next interval and count the failure.
    pub fn next_backoff(&mut self)
        requires
            old(self).wf(),
            old(self).backoff_count < u64::MAX,
        ensures
            final(self).wf(),
            *final(self) == spec_next_backoff(*old(self)),
    {
        if self.backoff_count == 0 {
            self.backoff_delay_lo = self.min_backoff_delay_lo;
            self.backoff_delay_hi = self.min_backoff_delay_hi;
        } else {
            let doubled_lo = 2 * self.backoff_delay_lo;
            self.backoff_delay_lo = if self.max_backoff_delay_lo < doubled_lo {
                self.max_backoff_delay_lo
            } else {
                doubled_lo
            };
            let doubled_hi = 2 * self.backoff_delay_hi;
            self.backoff_delay_hi = if self.max_backoff_delay_hi < doubled_hi {
                self.max_backoff_delay_hi
            } else {
                doubled_hi
            };
        }
        self.backoff_count = self.backoff_count + 1;
    }

    /// Sample a delay from the current interval.  The value is random;
    /// only its bounds are known.
    pub fn sample_delay_ms(&self) -> (r: u64)
        requires
            self.wf(),
            self.backoff_count > 0,
        ensures
            self.backoff_delay_lo <= r <= self.backoff_delay_hi,
    {
        random_in_range(self.backoff_delay_lo, self.backoff_delay_hi)
    }
}

/// The backoff step: the first failure takes the minimum interval; each
/// further one doubles both bounds, capped.
pub open spec fn spec_next_backoff(s: Reconnect) -> Reconnect {
    let (lo, hi) = if s.backoff_count == 0 {
        (s.min_backoff_delay_lo, s.min_backoff_delay_hi)
    } else {
        (
            if s.max_backoff_delay_lo < 2 * s.backoff_delay_lo {
                s.max_backoff_delay_lo
            } else {
                (2 * s.backoff_delay_lo) as u64
            },
            if s.max_backoff_delay_hi < 2 * s.backoff_delay_hi {
                s.max_backoff_delay_hi
            } else {
                (2 * s.backoff_delay_hi) as u64
            },
        )
    };
    Reconnect {
        backoff_count: (s.backoff_count + 1) as u64,
        backoff_delay_lo: lo,
        backoff_delay_hi: hi,
        ..s
    }
}

/// Law: across consecutive failures the interval is monotonically
/// non-decreasing and never exceeds the cap; once a bound reaches its cap
/// it stays there; and after any successful open the policy is reset, so
/// the next failure starts from the minimum interval.
pub proof fn lemma_backoff_monotone(s: Reconnect)
    requires
        s.wf(),
        s.backoff_count < u64::MAX,
    ensures
        ({
            let s2 = spec_next_backoff(s);
            &&& s2.wf()
            &&& s.backoff_count > 0 ==> s2.backoff_delay_lo >= s.backoff_delay_lo
                && s2.backoff_delay_hi >= s.backoff_delay_hi
            &&& s2.backoff_delay_lo <= s.max_backoff_delay_lo
            &&& s2.backoff_delay_hi <= s.max_backoff_delay_hi
            &&& (s.backoff_count > 0 && s.backoff_delay_lo == s.max_backoff_delay_lo)
                ==> s2.backoff_delay_lo == s.max_backoff_delay_lo
            &&& (s.backoff_count > 0 && s.backoff_delay_hi == s.max_backoff_delay_hi)
                ==> s2.backoff_delay_hi == s.max_backoff_delay_hi
            &&& s.backoff_count == 0 ==> s2.backoff_delay_lo == s.min_backoff_delay_lo
                && s2.backoff_delay_hi == s.min_backoff_delay_hi
        }),
{
}

/// Law: resetting on open brings the count to zero, so the very next
/// failure takes the minimum interval.
pub proof fn lemma_backoff_reset(s: Reconnect)
    requires
        s.wf(),
    ensures
        ({
            let opened = Reconnect { open: true, backoff_count: 0, ..s };
            let s2 = spec_next_backoff(opened);
            s2.backoff_delay_lo == s.min_backoff_delay_lo && s2.backoff_delay_hi
                == s.min_backoff_delay_hi
        }),
{
}

/// Sample a keepalive delay: a fresh jittered interval after every
/// message, so idle connections are not silently dropped.
pub fn keepalive_delay_ms() -> (r: u64)
    ensures
        KEEPALIVE_DELAY_LO_MS <= r <= KEEPALIVE_DELAY_HI_MS,
{
    random_in_range(KEEPALIVE_DELAY_LO_MS, KEEPALIVE_DELAY_HI_MS)
}

} // verus!
