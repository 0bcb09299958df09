//! Model of the clock-tree configuration and the blocking delay primitive.
//!
//! The clock tree and the delay are external collaborators of the bring-up
//! core; here they are modeled over plain values: freezing a configuration
//! realizes the requested system clock frequency, and a delay advances a
//! simulated millisecond clock by exactly the requested amount.

use vstd::prelude::*;

verus! {

/// A clock-tree configuration: the target system clock frequency in hertz.
#[derive(Clone, Copy, PartialEq, Eq, Structural, Debug)]
pub struct Cfgr {
    pub sysclk: Option<u32>,
}

/// An immutable descriptor of the realized clock tree.
#[derive(Clone, Copy, PartialEq, Eq, Structural, Debug)]
pub struct Clocks {
    pub sysclk_hz: u32,
}

impl Cfgr {
    /// Commits the configuration to a frozen clock tree. The realized system
    /// clock is the requested one; what the collaborator realizes when no
    /// frequency is requested is left unspecified, so this model covers only
    /// an explicit request.
    pub fn freeze(self) -> (c: Clocks)
        requires
            self.sysclk is Some,
        ensures
            self.sysclk == Some(c.sysclk_hz),
    {
        match self.sysclk {
            Some(hz) => Clocks { sysclk_hz: hz },
            None => vstd::pervasive::unreached(),
        }
    }
}

/// Model of the blocking millisecond delay primitive, constructed from the
/// realized clock tree so that milliseconds are scaled to the actual core
/// clock. Simulated time stands still except across `delay_ms`, which models
/// that the single thread is fully suspended for the requested duration.
#[derive(Clone, Copy, PartialEq, Eq, Structural, Debug)]
pub struct Delay {
    pub sysclk_hz: u32,
    pub now_ms: u64,
}

impl Delay {
    /// Builds the delay primitive from the frozen clock tree, at simulated
    /// time zero.
    pub fn new(clocks: Clocks) -> (d: Delay)
        ensures
            d.sysclk_hz == clocks.sysclk_hz,
            d.now_ms == 0,
    {
        Delay { sysclk_hz: clocks.sysclk_hz, now_ms: 0 }
    }

    /// Blocks for exactly `ms` milliseconds: simulated time advances by `ms`
    /// and nothing else happens.
    pub fn delay_ms(&mut self, ms: u16)
        requires
            old(self).now_ms + ms <= u64::MAX,
        ensures
            final(self).now_ms == old(self).now_ms + ms,
            final(self).sysclk_hz == old(self).sysclk_hz,
    {
        self.now_ms = self.now_ms + (ms as u64);
    }
}

} // verus!
