//! Minimal time-measurement utilities for platforms that expose nothing more
//! than a free-running microsecond counter.
//!
//! The embedding application supplies the counter by implementing
//! [`SimpleClock`]. On top of that single capability the crate offers two
//! small tools: [`ElapsedTimer`], a stopwatch that measures time since its
//! construction or last restart, and [`Deadline`], a fixed expiry instant
//! that can be polled for timeout.

pub mod clock;
pub mod deadline;
pub mod timer;

pub use clock::SimpleClock;
pub use deadline::Deadline;
pub use deadline::DeadlineReached;
pub use timer::ElapsedTimer;
