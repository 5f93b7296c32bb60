use std::cell::Cell;

use simple_clock::deadline::check_reached;
use simple_clock::deadline::expiry_after;
use simple_clock::timer::elapsed_since;
use simple_clock::Deadline;
use simple_clock::DeadlineReached;
use simple_clock::ElapsedTimer;
use simple_clock::SimpleClock;

/// A clock whose reading is set by hand, so each test controls exactly what
/// the library sees.
struct SimClock {
    reading: Cell<u64>,
}

impl SimClock {
    fn at(reading: u64) -> Self {
        Self { reading: Cell::new(reading) }
    }

    fn set(&self, reading: u64) {
        self.reading.set(reading);
    }
}

impl SimpleClock for SimClock {
    fn now_us(&self) -> u64 {
        self.reading.get()
    }
}

#[test]
fn elapsed_zero_immediately_after_construction() {
    let clock = SimClock::at(41_000);
    let timer = ElapsedTimer::new(&clock);
    let e: u64 = timer.elapsed();
    assert_eq!(e, 0);
}

#[test]
fn elapsed_exact_difference() {
    let clock = SimClock::at(1_000);
    let timer = ElapsedTimer::new(&clock);
    clock.set(4_500);
    let e: u64 = timer.elapsed();
    assert_eq!(e, 3_500);
}

#[test]
fn elapsed_saturates_on_clock_regression() {
    let clock = SimClock::at(4_500);
    let timer = ElapsedTimer::new(&clock);
    clock.set(1_000);
    let e: u64 = timer.elapsed();
    assert_eq!(e, 0);
}

#[test]
fn restart_returns_pending_elapsed_and_resets() {
    let clock = SimClock::at(100);
    let mut timer = ElapsedTimer::new(&clock);
    clock.set(350);
    let before: u64 = timer.elapsed();
    assert_eq!(before, 250);
    let returned: u64 = timer.restart();
    assert_eq!(returned, before);
    let after: u64 = timer.elapsed();
    assert_eq!(after, 0);
    clock.set(400);
    let later: u64 = timer.elapsed();
    assert_eq!(later, 50);
}

#[test]
fn deadline_ok_through_window_reached_after() {
    let clock = SimClock::at(7);
    let deadline = Deadline::new(&clock, 100);
    assert!(deadline.reached().is_ok());
    clock.set(57);
    assert!(deadline.reached().is_ok());
    clock.set(107);
    assert!(deadline.reached().is_ok());
    clock.set(108);
    assert!(deadline.reached().is_err());
    clock.set(u64::MAX);
    assert!(deadline.reached().is_err());
}

#[test]
fn deadline_boundary_at_expiry() {
    let clock = SimClock::at(0);
    let deadline = Deadline::new(&clock, 50_000);
    clock.set(50_000);
    let ok: Result<(), DeadlineReached> = deadline.reached();
    assert!(ok.is_ok());
    clock.set(50_001);
    let err: Result<(), DeadlineReached> = deadline.reached();
    assert!(err.is_err());
}

#[test]
fn deadline_saturates_near_counter_end() {
    let clock = SimClock::at(u64::MAX - 10);
    let deadline = Deadline::new(&clock, 100);
    clock.set(u64::MAX);
    assert!(deadline.reached().is_ok());
}

#[test]
fn elapsed_since_exact_values() {
    assert_eq!(elapsed_since(1_000, 4_500), 3_500);
    assert_eq!(elapsed_since(4_500, 1_000), 0);
    assert_eq!(elapsed_since(0, 0), 0);
    assert_eq!(elapsed_since(0, u64::MAX), u64::MAX);
}

#[test]
fn expiry_after_exact_values() {
    assert_eq!(expiry_after(0, 50_000), 50_000);
    assert_eq!(expiry_after(123, 877), 1_000);
    assert_eq!(expiry_after(u64::MAX - 5, 10), u64::MAX);
    assert_eq!(expiry_after(u64::MAX, u64::MAX), u64::MAX);
}

#[test]
fn check_reached_boundary_and_signal() {
    assert!(check_reached(49_999, 50_000).is_ok());
    assert!(check_reached(50_000, 50_000).is_ok());
    let signal: Result<(), DeadlineReached> = check_reached(50_001, 50_000);
    match signal {
        Err(e) => assert_eq!(e, e),
        Ok(()) => panic!("the reading lies beyond the expiry instant"),
    }
}
