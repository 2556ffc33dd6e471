//! Dual-window rate limiting: a per-second window that is reset once it goes
//! stale, and a per-month quota that only ever grows.
use vstd::prelude::*;

verus! {

/// Most requests admitted within one second.
pub const RATE_LIMIT_PER_SECOND: u64 = 1;

/// Most requests admitted within one calendar month.
pub const RATE_LIMIT_PER_MONTH: u64 = 15000;

/// Milliseconds after which the per-second window is stale.
pub const SECOND_WINDOW_MILLIS: u64 = 1000;

/// Refusal of a request that would exceed one of the two windows.
#[derive(Clone, Copy, Debug, PartialEq, Eq, Structural)]
pub struct RateLimitExceeded;

/// The rate limiter's whole state. The month counter approximates a monthly
/// quota: it never resets within the life of one value, which a caller that
/// outlives a calendar month must account for by constructing a fresh window.
pub struct RateWindow {
    /// Requests admitted in the current one-second window.
    pub second_count: u64,
    /// Requests admitted since construction.
    pub month_count: u64,
    /// When the current one-second window was opened, in milliseconds of the
    /// caller's monotonic clock.
    pub window_start_millis: u64,
}

impl RateWindow {
    /// Whether the one-second window had gone stale by `now_millis`: strictly
    /// more than one second has passed since it was opened.
    pub open spec fn spec_stale(self, now_millis: u64) -> bool {
        now_millis - self.window_start_millis > SECOND_WINDOW_MILLIS
    }

    /// The per-second count that governs admission at `now_millis`: zero if
    /// the window is stale, else the stored count.
    pub open spec fn spec_second_count_at(self, now_millis: u64) -> u64 {
        if self.spec_stale(now_millis) {
            0
        } else {
            self.second_count
        }
    }

    /// Whether a request at `now_millis` must be refused: one of the two
    /// windows is exhausted.
    pub open spec fn spec_exhausted(self, now_millis: u64) -> bool {
        self.spec_second_count_at(now_millis) >= RATE_LIMIT_PER_SECOND
            || self.month_count >= RATE_LIMIT_PER_MONTH
    }

    /// A fresh window: both counters zero, the one-second window opened now.
    pub fn new(now_millis: u64) -> (r: RateWindow)
        ensures
            r.second_count == 0,
            r.month_count == 0,
            r.window_start_millis == now_millis,
    {
        RateWindow { second_count: 0, month_count: 0, window_start_millis: now_millis }
    }

    /// Admits or refuses one request at `now_millis`. A stale one-second
    /// window is first reset (the month counter never is); then the request
    /// is admitted, incrementing both counters, exactly when neither window
    /// is exhausted.
    pub fn check_and_consume(&mut self, now_millis: u64) -> (r: Result<(), RateLimitExceeded>)
        ensures
            final(self).window_start_millis == if old(self).spec_stale(now_millis) {
                now_millis
            } else {
                old(self).window_start_millis
            },
            r is Ok <==> !old(self).spec_exhausted(now_millis),
            r is Ok ==> {
                &&& final(self).second_count == old(self).spec_second_count_at(now_millis) + 1
                &&& final(self).month_count == old(self).month_count + 1
            },
            r is Err ==> {
                &&& final(self).second_count == old(self).spec_second_count_at(now_millis)
                &&& final(self).month_count == old(self).month_count
            },
    {
        if now_millis >= self.window_start_millis
            && now_millis - self.window_start_millis > SECOND_WINDOW_MILLIS {
            self.second_count = 0;
            self.window_start_millis = now_millis;
        }

        if self.second_count >= RATE_LIMIT_PER_SECOND || self.month_count >= RATE_LIMIT_PER_MONTH {
            return Err(RateLimitExceeded);
        }

        self.second_count = self.second_count + 1;
        self.month_count = self.month_count + 1;
        Ok(())
    }
}

} // verus!

