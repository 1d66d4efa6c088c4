//! The frame timer: the pacing clock of the presentation loop.
//!
//! Timestamps are readings of a monotonic clock in ticks of the host's
//! choosing (nanoseconds, say). The timer keeps the reading of the last frame
//! that was presented; the time elapsed since then is the pacing input of the
//! next frame.

use vstd::prelude::*;

verus! {

/// Ticks from `last` to `now`; zero if `now` lies before `last`.
pub open spec fn elapsed_between(last: u64, now: u64) -> u64 {
    if now >= last {
        (now - last) as u64
    } else {
        0
    }
}

/// The later of two clock readings.
pub open spec fn later_of(a: u64, b: u64) -> u64 {
    if a >= b {
        a
    } else {
        b
    }
}

/// Keeps the clock reading of the last presented frame.
pub struct FrameTimer {
    last_timestamp: u64,
}

impl View for FrameTimer {
    type V = u64;

    /// The reference timestamp.
    closed spec fn view(&self) -> u64 {
        self.last_timestamp
    }
}

impl FrameTimer {
    /// A timer whose reference timestamp is `now`.
    pub fn new(now: u64) -> (timer: Self)
        ensures
            timer@ == now,
    {
        FrameTimer { last_timestamp: now }
    }

    /// The reference timestamp.
    pub fn last_timestamp(&self) -> (last: u64)
        ensures
            last == self@,
    {
        self.last_timestamp
    }

    /// Ticks elapsed from the reference timestamp to `now`. Never negative:
    /// a reading that lies before the reference counts as no time at all.
    pub fn elapsed(&self, now: u64) -> (elapsed: u64)
        ensures
            elapsed == elapsed_between(self@, now),
            now >= self@ ==> self@ + elapsed == now,
            now < self@ ==> elapsed == 0,
    {
        if now >= self.last_timestamp {
            now - self.last_timestamp
        } else {
            0
        }
    }

    /// Moves the reference timestamp forward to `now`. The reference never
    /// moves backwards: a reading that lies before it leaves it in place.
    pub fn advance(&mut self, now: u64)
        ensures
            final(self)@ == later_of(old(self)@, now),
            final(self)@ >= old(self)@,
            elapsed_between(final(self)@, now) == 0,
    {
        if now > self.last_timestamp {
            self.last_timestamp = now;
        }
    }
}

/// Elapsed time is exact when the clock moved forward, zero when it did not,
/// and advancing the reference to a reading leaves no time elapsed at that
/// reading.
pub proof fn lemma_elapsed_between(last: u64, now: u64)
    ensures
        now >= last ==> last + elapsed_between(last, now) == now,
        now <= last ==> elapsed_between(last, now) == 0,
        elapsed_between(later_of(last, now), now) == 0,
        later_of(last, now) >= last,
        later_of(last, now) >= now,
{
}

/// The longer the host waits, the more time has elapsed: elapsed time is
/// monotone in the reading and antitone in the reference.
pub proof fn lemma_elapsed_monotone(last: u64, earlier: u64, later: u64)
    requires
        earlier <= later,
    ensures
        elapsed_between(last, earlier) <= elapsed_between(last, later),
        elapsed_between(later, last) <= elapsed_between(earlier, last),
{
}

} // verus!
