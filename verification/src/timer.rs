use vstd::prelude::*;

use crate::clock::SimpleClock;

verus! {

/// The number of microseconds a timer started at reading `start` reports at
/// reading `now`: the difference, saturated to zero when the clock has moved
/// backwards.
pub open spec fn elapsed_us(start: u64, now: u64) -> u64 {
    if now >= start {
        (now - start) as u64
    } else {
        0u64
    }
}

/// Returns the time elapsed from the reading `start` to the reading `now`,
/// clamped to zero when `now` lies before `start`. Absence of elapsed time
/// is reported as zero, never as an error or an underflowed value.
pub fn elapsed_since(start: u64, now: u64) -> (r: u64)
    ensures
        r == elapsed_us(start, now),
{
    now.saturating_sub(start)
}

/// A stopwatch over a borrowed clock: it measures the time elapsed since its
/// construction or since the last [`ElapsedTimer::restart`].
///
/// The timer is always running; there is no stop or pause state.
pub struct ElapsedTimer<'a, T> {
    clock: &'a T,
    start: u64,
}

impl<'a, T: SimpleClock> ElapsedTimer<'a, T> {
    /// The clock reading captured at construction or at the last restart.
    pub closed spec fn start_us(&self) -> u64 {
        self.start
    }

    /// The clock this timer borrows.
    pub closed spec fn clock_view(&self) -> T {
        *self.clock
    }

    /// Creates a timer backed by the given clock, positioned at zero elapsed
    /// time: the baseline is the clock reading sampled here.
    pub fn new(clock: &'a T) -> (timer: Self)
        ensures
            timer.clock_view() == *clock,
    {
        Self { clock, start: clock.now_us() }
    }

    /// Returns the number of microseconds elapsed since this timer was
    /// started (or last restarted): the saturated difference between a fresh
    /// clock reading and the stored baseline.
    pub fn elapsed(&self) -> (r: u64)
        ensures
            exists|now: u64| r == elapsed_us(self.start_us(), now),
    {
        let now = self.clock.now_us();
        let r = elapsed_since(self.start, now);
        proof {
            // Exhibits the reading just taken as the witness for the
            // postcondition's existential.
            assert(r == elapsed_us(self.start_us(), now));
        }
        r
    }

    /// Restarts the timer and returns the number of microseconds elapsed
    /// since it was started: the value a call of [`ElapsedTimer::elapsed`]
    /// at the same clock reading would have returned. The baseline is then
    /// re-sampled, so an immediately following `elapsed` measures from this
    /// restart.
    pub fn restart(&mut self) -> (r: u64)
        ensures
            final(self).clock_view() == old(self).clock_view(),
            exists|now: u64| r == elapsed_us(old(self).start_us(), now),
    {
        let r = self.elapsed();
        self.start = self.clock.now_us();
        r
    }
}

/// A timer whose baseline equals the current clock reading reports exactly
/// zero elapsed time. This holds immediately after construction and, once
/// `restart` has re-sampled the baseline, immediately after a restart.
pub proof fn lemma_fresh_baseline_elapsed_zero(n: u64)
    ensures
        elapsed_us(n, n) == 0,
{
}

/// On a well-behaved clock the timer is exact: started at reading `a` and
/// sampled at a later (or equal) reading `b`, it reports precisely `b - a`
/// microseconds.
pub proof fn lemma_elapsed_exact(a: u64, b: u64)
    requires
        a <= b,
    ensures
        elapsed_us(a, b) == b - a,
{
}

/// When the clock regresses below the baseline, the timer saturates: it
/// reports exactly zero, never an underflowed or wrapped value.
pub proof fn lemma_elapsed_saturates(a: u64, b: u64)
    requires
        b < a,
    ensures
        elapsed_us(a, b) == 0,
{
}

} // verus!
