//! Start-of-day: the one-time hardware ownership mechanism and the
//! initialization that hands the delay primitive, the device registers and a
//! fresh bring-up sequencer to the caller.

use vstd::prelude::*;

use crate::bringup::{Action, Sequencer};
use crate::clock::{Cfgr, Clocks, Delay};
use crate::device::Device;

verus! {

/// The target system clock frequency the core requests, in hertz.
pub const SYSCLK_HZ: u32 = 24_000_000;

/// The one-time hardware ownership mechanism: it hands out exclusive access
/// to the device's register blocks at most once per process lifetime. Once
/// taken, it can never later be taken again: taking is its only operation,
/// and taking leaves it taken.
pub struct OwnershipGate {
    taken: bool,
}

impl OwnershipGate {
    /// Whether ownership has already been handed out.
    pub closed spec fn spec_taken(self) -> bool {
        self.taken
    }

    /// The mechanism as it stands at the start of a process: nothing taken
    /// yet.
    pub fn new() -> (g: OwnershipGate)
        ensures
            !g.spec_taken(),
    {
        OwnershipGate { taken: false }
    }

    /// Whether ownership has already been handed out.
    pub fn is_taken(&self) -> (b: bool)
        ensures
            b == self.spec_taken(),
    {
        self.taken
    }

    /// The one-time take: the first call yields the device at its reset
    /// state; every call after ownership was taken fails, and ownership
    /// stays taken forever, so a second call can never later succeed.
    pub fn take(&mut self) -> (r: Option<Device>)
        ensures
            final(self).spec_taken(),
            old(self).spec_taken() ==> r is None,
            !old(self).spec_taken() ==> r == Some(Device::reset_spec()),
    {
        if self.taken {
            None
        } else {
            self.taken = true;
            Some(Device::reset())
        }
    }
}

/// Start-of-day initialization: takes hardware ownership exactly once,
/// freezes the clock tree at the requested system clock frequency, and
/// builds the delay primitive from it; returns the delay at simulated time
/// zero, the device at its reset state, and a bring-up sequencer at its
/// first phase with an empty trace. Calling it with ownership already taken
/// is the one non-recoverable condition, so it is ruled out here.
pub fn init(gate: &mut OwnershipGate) -> (r: (Delay, Device, Sequencer))
    requires
        !old(gate).spec_taken(),
    ensures
        final(gate).spec_taken(),
        r.0.sysclk_hz == SYSCLK_HZ,
        r.0.now_ms == 0,
        r.1 == Device::reset_spec(),
        r.2.phase is ConfigurePin10,
        r.2.trace@ == Seq::<Action>::empty(),
        r.2.wf(),
        r.2.dev_inv(r.1),
{
    let dev = match gate.take() {
        Some(d) => d,
        None => vstd::pervasive::unreached(),
    };
    let clocks: Clocks = (Cfgr { sysclk: Some(SYSCLK_HZ) }).freeze();
    let delay = Delay::new(clocks);
    let seq = Sequencer::new();
    (delay, dev, seq)
}

} // verus!
