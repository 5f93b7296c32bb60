use vstd::prelude::*;

use crate::clock::SimpleClock;

verus! {

/// The absolute expiry instant of a deadline armed with `timeout`
/// microseconds at clock reading `now`: the sum, saturated to `u64::MAX`.
/// A deadline that would expire past the end of the counter's range is
/// pinned to the last representable instant and is therefore never reached.
pub open spec fn saturating_expiry(now: u64, timeout: u64) -> u64 {
    if now + timeout > u64::MAX {
        u64::MAX
    } else {
        (now + timeout) as u64
    }
}

/// Whether a deadline with the absolute expiry instant `expiry` counts as
/// reached at clock reading `now`. The boundary is inclusive: at the exact
/// expiry instant the deadline is still within budget.
pub open spec fn reached_at(now: u64, expiry: u64) -> bool {
    now > expiry
}

/// The deadline has been reached.
#[derive(Debug, Clone, Copy, PartialEq, Eq)]
pub struct DeadlineReached(());

/// Computes the absolute expiry instant for a deadline armed with `timeout`
/// microseconds at clock reading `now`, saturating instead of wrapping when
/// the sum would overflow the counter's range.
pub fn expiry_after(now: u64, timeout: u64) -> (r: u64)
    ensures
        r == saturating_expiry(now, timeout),
        r >= timeout,
{
    now.saturating_add(timeout)
}

/// Decides a deadline with the absolute expiry instant `expiry` at clock
/// reading `now`: `Ok` while `now <= expiry` (the expiry instant itself
/// still counts as within budget), and the `DeadlineReached` signal exactly
/// when `now > expiry`.
pub fn check_reached(now: u64, expiry: u64) -> (r: Result<(), DeadlineReached>)
    ensures
        r is Err <==> reached_at(now, expiry),
{
    if now > expiry {
        Err(DeadlineReached(()))
    } else {
        Ok(())
    }
}

/// A fixed future instant over a borrowed clock, polled to detect timeout.
///
/// The expiry instant is computed once, at construction, and never changes;
/// the value is read-only afterwards.
#[derive(Debug)]
pub struct Deadline<'a, C: SimpleClock> {
    clock: &'a C,
    expiry: u64,
}

impl<'a, C: SimpleClock> Deadline<'a, C> {
    /// The absolute expiry instant, in microseconds of the clock's counter.
    pub closed spec fn expiry_us(&self) -> u64 {
        self.expiry
    }

    /// The clock this deadline borrows.
    pub closed spec fn clock_view(&self) -> C {
        *self.clock
    }

    /// Creates a deadline that expires `timeout` microseconds after the
    /// clock reading sampled here. The expiry instant saturates at
    /// `u64::MAX` instead of wrapping, so it is never below `timeout`.
    pub fn new(clock: &'a C, timeout: u64) -> (d: Self)
        ensures
            d.clock_view() == *clock,
            exists|now: u64| d.expiry_us() == saturating_expiry(now, timeout),
            d.expiry_us() >= timeout,
    {
        let now = clock.now_us();
        let expiry = expiry_after(now, timeout);
        proof {
            // Exhibits the reading just taken as the witness for the
            // postcondition's existential.
            assert(expiry == saturating_expiry(now, timeout));
        }
        Self { clock, expiry }
    }

    /// Polls the deadline: `Ok` while the current clock reading has not
    /// passed the expiry instant (the instant itself still counts as within
    /// budget), and the `DeadlineReached` signal once a reading lies
    /// strictly beyond it. A deadline whose expiry saturated at `u64::MAX`
    /// is never reached.
    pub fn reached(&self) -> (r: Result<(), DeadlineReached>)
        ensures
            exists|now: u64| (r is Err <==> reached_at(now, self.expiry_us())),
            self.expiry_us() == u64::MAX ==> r is Ok,
    {
        let now = self.clock.now_us();
        let r = check_reached(now, self.expiry);
        proof {
            // Exhibits the reading just taken as the witness for the
            // postcondition's existential.
            assert(r is Err <==> reached_at(now, self.expiry_us()));
        }
        r
    }
}

/// The full timeout window of a deadline armed with `timeout` microseconds
/// at clock reading `t0`: it is reached at a reading `now` exactly when
/// `now` lies strictly beyond `t0 + timeout`, so every reading in the
/// inclusive window `[t0, t0 + timeout]` is still within budget.
pub proof fn lemma_deadline_window(t0: u64, timeout: u64, now: u64)
    ensures
        reached_at(now, saturating_expiry(t0, timeout)) <==> now > t0 + timeout,
{
}

} // verus!
