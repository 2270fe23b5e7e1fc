//! Session counters: the running click total and the session start time,
//! and the click-rate metric derived from them.

use vstd::prelude::*;

verus! {

/// The clicks-per-minute rate derived from a click total and an elapsed
/// session time in seconds: `clicks * 60 / elapsed`, `0` when no time has
/// elapsed, clamped to the counter's range.
pub open spec fn spec_cpm(clicks: u64, elapsed_secs: u64) -> u64 {
    if elapsed_secs == 0 {
        0u64
    } else if clicks * 60 / (elapsed_secs as int) > u64::MAX {
        u64::MAX
    } else {
        (clicks * 60 / (elapsed_secs as int)) as u64
    }
}

/// Milliseconds elapsed between two readings of the monotonic clock;
/// zero if the readings are out of order.
pub open spec fn spec_elapsed_ms(start: u64, now: u64) -> u64 {
    if now >= start {
        (now - start) as u64
    } else {
        0u64
    }
}

/// Running totals of one session: click count and session start.
/// Activation starts a fresh session; deactivation leaves the totals as
/// they stand, so they can still be inspected.
pub struct Stats {
    clicks: u64,
    session_start_ms: u64,
}

impl Stats {
    /// The click total of the current session.
    pub closed spec fn spec_clicks(self) -> u64 {
        self.clicks
    }

    /// The monotonic millisecond reading at which the session started.
    pub closed spec fn spec_session_start_ms(self) -> u64 {
        self.session_start_ms
    }

    pub fn new(now_ms: u64) -> (s: Stats)
        ensures
            s.spec_clicks() == 0,
            s.spec_session_start_ms() == now_ms,
    {
        Stats { clicks: 0, session_start_ms: now_ms }
    }

    /// Count one primary click.  The total is monotonic; it stops at the
    /// counter's ceiling instead of wrapping.
    pub fn increment_clicks(&mut self)
        ensures
            final(self).spec_clicks() == if old(self).spec_clicks() < u64::MAX {
                old(self).spec_clicks() + 1
            } else {
                u64::MAX as int
            },
            final(self).spec_session_start_ms() == old(self).spec_session_start_ms(),
    {
        self.clicks = if self.clicks < u64::MAX {
            self.clicks + 1
        } else {
            u64::MAX
        };
    }

    pub fn get_clicks(&self) -> (c: u64)
        ensures
            c == self.spec_clicks(),
    {
        self.clicks
    }

    /// Milliseconds the session has been running at the given reading.
    pub fn get_runtime_ms(&self, now_ms: u64) -> (d: u64)
        ensures
            d == spec_elapsed_ms(self.spec_session_start_ms(), now_ms),
    {
        if now_ms >= self.session_start_ms {
            now_ms - self.session_start_ms
        } else {
            0
        }
    }

    /// Clicks per minute over the session so far; `0` when the session
    /// has run for less than a second, so the rate never divides by zero.
    pub fn get_cpm(&self, now_ms: u64) -> (r: u64)
        ensures
            r == spec_cpm(
                self.spec_clicks(),
                spec_elapsed_ms(self.spec_session_start_ms(), now_ms) / 1000,
            ),
    {
        let elapsed_secs: u64 = self.get_runtime_ms(now_ms) / 1000;
        if elapsed_secs == 0 {
            0
        } else {
            let prod: u128 = (self.clicks as u128) * 60;
            let q: u128 = prod / (elapsed_secs as u128);
            if q > u64::MAX as u128 {
                u64::MAX
            } else {
                q as u64
            }
        }
    }

    /// Begin a fresh session: zero the click total and restart the clock.
    pub fn reset(&mut self, now_ms: u64)
        ensures
            final(self).spec_clicks() == 0,
            final(self).spec_session_start_ms() == now_ms,
    {
        self.clicks = 0;
        self.session_start_ms = now_ms;
    }
}

} // verus!
