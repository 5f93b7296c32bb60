use vstd::prelude::*;

verus! {

/// The clock capability: a hardware-specific source of a free-running
/// microsecond counter.
///
/// The epoch is arbitrary but fixed for the lifetime of the value; readings
/// are expected to be monotonically non-decreasing, and the call can neither
/// block nor fail. Nothing is promised here about any single reading: each
/// call may return any counter value, and everything built on top of this
/// trait is verified for every value a reading can take.
pub trait SimpleClock {
    /// Returns the current instant, in microseconds since the clock's epoch.
    fn now_us(&self) -> u64;
}

} // verus!
