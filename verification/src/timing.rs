//! Timing constants derived from the core clock. The clock frequency is a
//! configuration value, not a hard-coded constant: every delay scales with
//! it.

use vstd::prelude::*;

verus! {

/// The assumed core clock, in MHz. All busy-wait intervals and the
/// sampling period are derived from it.
#[derive(Clone, Copy, PartialEq, Eq, Structural, Debug)]
pub struct ClockConfig {
    pub mhz: u32,
}

impl ClockConfig {
    pub fn new(mhz: u32) -> (c: ClockConfig)
        ensures
            c.mhz == mhz,
    {
        ClockConfig { mhz }
    }

    /// Cycles of the read settle interval (about 160 microseconds).
    pub fn cycles_160us(&self) -> (r: u32)
        requires
            self.mhz * 160 <= u32::MAX,
        ensures
            r == self.mhz * 160,
    {
        self.mhz * 160
    }

    /// Cycles of the power-up settle interval (about 50 milliseconds).
    pub fn cycles_50ms(&self) -> (r: u32)
        requires
            self.mhz * 50000 <= u32::MAX,
        ensures
            r == self.mhz * 50000,
    {
        self.mhz * 50000
    }

    /// Cycles of the sampling period (about 1 millisecond).
    pub fn read_period(&self) -> (r: u32)
        requires
            self.mhz * 1000 <= u32::MAX,
        ensures
            r == self.mhz * 1000,
    {
        self.mhz * 1000
    }
}

} // verus!
