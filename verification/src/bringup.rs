//! The bring-up sequencer: the ordered register writes and polled wait
//! conditions that move the chip from reset defaults to "both managed pins
//! ready as digital outputs, GPIO subsystem clocked".
//!
//! The sequencer performs exactly one register access per step and records a
//! ghost trace of those accesses. The ordering laws of the sequence — the
//! power domain is observed on before the clock gate is written, the clock
//! load is observed done before the outputs are enabled — are proved over
//! that trace.

use vstd::prelude::*;

use crate::device::{
    bit_set, pin_is_gpio_output_max, Device, CLK_EN_BIT, LED1_MASK, LED2_MASK, PIN_LED1, PIN_LED2,
};

verus! {

/// Where the sequencer stands: each variant names the register access it
/// performs next. The two polling phases repeat until their status bit reads
/// set; there is no timeout, so an unresponsive domain keeps the sequencer in
/// its polling phase forever.
#[derive(Clone, Copy, PartialEq, Eq, Structural, Debug)]
pub enum Phase {
    ConfigurePin10,
    ConfigurePin15,
    RequestPower,
    WaitPowerOn,
    EnableClockGate,
    RequestClockLoad,
    WaitLoadDone,
    EnableOutputs,
    Done,
}

/// One recorded register access of the bring-up sequence.
#[derive(Clone, Copy, PartialEq, Eq, Structural, Debug)]
pub enum Action {
    WrotePinConfig(u32),
    WrotePowerOnRequest,
    PolledPowerStatus(bool),
    WroteClockGateEnable,
    WroteClockLoadRequest,
    PolledClockLoadDone(bool),
    WroteOutputEnable,
}

/// How far along the bring-up sequence a phase stands.
pub open spec fn phase_index(p: Phase) -> int {
    match p {
        Phase::ConfigurePin10 => 0,
        Phase::ConfigurePin15 => 1,
        Phase::RequestPower => 2,
        Phase::WaitPowerOn => 3,
        Phase::EnableClockGate => 4,
        Phase::RequestClockLoad => 5,
        Phase::WaitLoadDone => 6,
        Phase::EnableOutputs => 7,
        Phase::Done => 8,
    }
}

/// Phases the sequencer can only have reached after observing the power
/// domain's status bit set.
pub open spec fn power_observed_phase(p: Phase) -> bool {
    phase_index(p) >= 4
}

/// Phases the sequencer can only have reached after observing the clock-load
/// "done" status bit set.
pub open spec fn load_done_observed_phase(p: Phase) -> bool {
    phase_index(p) >= 7
}

/// The trace holds an observation of the power domain's status reading "on".
pub open spec fn observed_power_on(tr: Seq<Action>) -> bool {
    exists|j: int| 0 <= j < tr.len() && tr[j] == Action::PolledPowerStatus(true)
}

/// The trace holds an observation of the clock-load "done" status reading set.
pub open spec fn observed_load_done(tr: Seq<Action>) -> bool {
    exists|j: int| 0 <= j < tr.len() && tr[j] == Action::PolledClockLoadDone(true)
}

/// Before position `i`, the trace holds an observation of the power domain's
/// status reading "on".
pub open spec fn power_observed_by(tr: Seq<Action>, i: int) -> bool {
    exists|j: int| 0 <= j < i && j < tr.len() && tr[j] == Action::PolledPowerStatus(true)
}

/// Before position `i`, the trace holds an observation of the clock-load
/// "done" status reading set.
pub open spec fn load_done_observed_by(tr: Seq<Action>, i: int) -> bool {
    exists|j: int| 0 <= j < i && j < tr.len() && tr[j] == Action::PolledClockLoadDone(true)
}

/// The two ordering invariants of the bring-up sequence, stated over a
/// register-access trace: the clock gate is written only after the power
/// domain was observed on, and the output enables are written only after the
/// clock load was observed done.
pub open spec fn trace_ordered(tr: Seq<Action>) -> bool {
    &&& (forall|i: int|
        0 <= i < tr.len() && #[trigger] tr[i] == Action::WroteClockGateEnable
            ==> power_observed_by(tr, i))
    &&& (forall|i: int|
        0 <= i < tr.len() && #[trigger] tr[i] == Action::WroteOutputEnable
            ==> load_done_observed_by(tr, i))
}

/// Extending an ordered trace keeps it ordered, provided a clock-gate write
/// comes only after power was observed and an output-enable write only after
/// the load was observed done; and what the extended trace has observed is
/// what the old one had, plus the new action.
proof fn lemma_push_keeps_order(tr: Seq<Action>, a: Action)
    requires
        trace_ordered(tr),
        a == Action::WroteClockGateEnable ==> observed_power_on(tr),
        a == Action::WroteOutputEnable ==> observed_load_done(tr),
    ensures
        trace_ordered(tr.push(a)),
        observed_power_on(tr.push(a)) == (observed_power_on(tr)
            || a == Action::PolledPowerStatus(true)),
        observed_load_done(tr.push(a)) == (observed_load_done(tr)
            || a == Action::PolledClockLoadDone(true)),
{
    let tr2 = tr.push(a);
    assert(tr2.len() == tr.len() + 1);
    assert(forall|j: int| 0 <= j < tr.len() ==> tr2[j] == tr[j]);
    assert(tr2[tr.len() as int] == a);

    assert forall|i: int|
        0 <= i < tr2.len() && #[trigger] tr2[i] == Action::WroteClockGateEnable
            implies power_observed_by(tr2, i) by {
        if i < tr.len() {
            assert(tr[i] == Action::WroteClockGateEnable);
            let j = choose|j: int|
                0 <= j < i && j < tr.len() && tr[j] == Action::PolledPowerStatus(true);
            assert(tr2[j] == Action::PolledPowerStatus(true));
        } else {
            let j = choose|j: int| 0 <= j < tr.len() && tr[j] == Action::PolledPowerStatus(true);
            assert(tr2[j] == Action::PolledPowerStatus(true));
        }
    }
    assert forall|i: int|
        0 <= i < tr2.len() && #[trigger] tr2[i] == Action::WroteOutputEnable
            implies load_done_observed_by(tr2, i) by {
        if i < tr.len() {
            assert(tr[i] == Action::WroteOutputEnable);
            let j = choose|j: int|
                0 <= j < i && j < tr.len() && tr[j] == Action::PolledClockLoadDone(true);
            assert(tr2[j] == Action::PolledClockLoadDone(true));
        } else {
            let j = choose|j: int| 0 <= j < tr.len() && tr[j] == Action::PolledClockLoadDone(true);
            assert(tr2[j] == Action::PolledClockLoadDone(true));
        }
    }

    if observed_power_on(tr) {
        let j = choose|j: int| 0 <= j < tr.len() && tr[j] == Action::PolledPowerStatus(true);
        assert(tr2[j] == Action::PolledPowerStatus(true));
    }
    if a == Action::PolledPowerStatus(true) {
        assert(tr2[tr.len() as int] == Action::PolledPowerStatus(true));
    }
    if observed_power_on(tr2) && !observed_power_on(tr) && a != Action::PolledPowerStatus(true) {
        let j = choose|j: int| 0 <= j < tr2.len() && tr2[j] == Action::PolledPowerStatus(true);
        assert(j < tr.len() ==> tr[j] == Action::PolledPowerStatus(true));
        assert(false);
    }

    if observed_load_done(tr) {
        let j = choose|j: int| 0 <= j < tr.len() && tr[j] == Action::PolledClockLoadDone(true);
        assert(tr2[j] == Action::PolledClockLoadDone(true));
    }
    if a == Action::PolledClockLoadDone(true) {
        assert(tr2[tr.len() as int] == Action::PolledClockLoadDone(true));
    }
    if observed_load_done(tr2) && !observed_load_done(tr)
        && a != Action::PolledClockLoadDone(true) {
        let j = choose|j: int| 0 <= j < tr2.len() && tr2[j] == Action::PolledClockLoadDone(true);
        assert(j < tr.len() ==> tr[j] == Action::PolledClockLoadDone(true));
        assert(false);
    }
}

/// The phase the sequencer stands in after one step taken at phase `p` with
/// the device reading `d`: polling phases advance only when their status bit
/// reads set, every other phase advances unconditionally.
pub open spec fn step_phase(p: Phase, d: Device) -> Phase {
    match p {
        Phase::ConfigurePin10 => Phase::ConfigurePin15,
        Phase::ConfigurePin15 => Phase::RequestPower,
        Phase::RequestPower => Phase::WaitPowerOn,
        Phase::WaitPowerOn => if d.pdstat0_periph_on {
            Phase::EnableClockGate
        } else {
            Phase::WaitPowerOn
        },
        Phase::EnableClockGate => Phase::RequestClockLoad,
        Phase::RequestClockLoad => Phase::WaitLoadDone,
        Phase::WaitLoadDone => if d.clkloadctl_load_done {
            Phase::EnableOutputs
        } else {
            Phase::WaitLoadDone
        },
        Phase::EnableOutputs => Phase::Done,
        Phase::Done => Phase::Done,
    }
}

/// The register access a step taken at phase `p` performs, with the device
/// reading `d`. At `Done` the sequencer performs none.
pub open spec fn step_action(p: Phase, d: Device) -> Action {
    match p {
        Phase::ConfigurePin10 => Action::WrotePinConfig(PIN_LED1),
        Phase::ConfigurePin15 => Action::WrotePinConfig(PIN_LED2),
        Phase::RequestPower => Action::WrotePowerOnRequest,
        Phase::WaitPowerOn => Action::PolledPowerStatus(d.pdstat0_periph_on),
        Phase::EnableClockGate => Action::WroteClockGateEnable,
        Phase::RequestClockLoad => Action::WroteClockLoadRequest,
        Phase::WaitLoadDone => Action::PolledClockLoadDone(d.clkloadctl_load_done),
        Phase::EnableOutputs => Action::WroteOutputEnable,
        Phase::Done => Action::PolledPowerStatus(false),
    }
}

/// The device state after one step taken at phase `p` on device `d`.
pub open spec fn step_device(p: Phase, d: Device) -> Device {
    match p {
        Phase::ConfigurePin10 => Device {
            iocfg10: crate::device::PinConfig {
                port_id: crate::device::GPIO_PORT_ID,
                input_enable: false,
                drive_strength: crate::device::DriveStrength::Max,
            },
            ..d
        },
        Phase::ConfigurePin15 => Device {
            iocfg15: crate::device::PinConfig {
                port_id: crate::device::GPIO_PORT_ID,
                input_enable: false,
                drive_strength: crate::device::DriveStrength::Max,
            },
            ..d
        },
        Phase::RequestPower => Device { pdctl0_periph_on: true, ..d },
        Phase::WaitPowerOn => d,
        Phase::EnableClockGate => Device { gpioclkgr: CLK_EN_BIT, ..d },
        Phase::RequestClockLoad => Device { clkloadctl_load: true, ..d },
        Phase::WaitLoadDone => d,
        Phase::EnableOutputs => Device { doe31_0: d.doe31_0 | (LED1_MASK | LED2_MASK), ..d },
        Phase::Done => d,
    }
}

/// The bring-up sequencer: the current phase, and a ghost trace of every
/// register access performed so far.
pub struct Sequencer {
    pub phase: Phase,
    pub trace: Ghost<Seq<Action>>,
}

impl Sequencer {
    /// Well-formedness: the trace satisfies the ordering invariants, and the
    /// phase agrees with the trace on which status observations have been
    /// made. Established by [`Sequencer::new`] and preserved by every step.
    pub open spec fn wf(self) -> bool {
        &&& trace_ordered(self.trace@)
        &&& (power_observed_phase(self.phase) <==> observed_power_on(self.trace@))
        &&& (load_done_observed_phase(self.phase) <==> observed_load_done(self.trace@))
    }

    /// What the sequencer has established on the device by the time it stands
    /// in its phase: each register write it has performed still reads back,
    /// and each status bit it has observed set still reads set. Preserved by
    /// every step and by the hardware's own responses.
    pub open spec fn dev_inv(self, d: Device) -> bool {
        let n = phase_index(self.phase);
        &&& (n >= 1 ==> pin_is_gpio_output_max(d.iocfg10))
        &&& (n >= 2 ==> pin_is_gpio_output_max(d.iocfg15))
        &&& (n >= 3 ==> d.pdctl0_periph_on)
        &&& (n >= 4 ==> d.pdstat0_periph_on)
        &&& (n >= 5 ==> bit_set(d.gpioclkgr, CLK_EN_BIT))
        &&& (n >= 6 ==> d.clkloadctl_load)
        &&& (n >= 7 ==> d.clkloadctl_load_done)
        &&& (n >= 8 ==> bit_set(d.doe31_0, LED1_MASK) && bit_set(d.doe31_0, LED2_MASK))
    }

    /// A sequencer at the start of bring-up, with an empty trace.
    pub fn new() -> (s: Sequencer)
        ensures
            s.phase is ConfigurePin10,
            s.trace@ == Seq::<Action>::empty(),
            s.wf(),
            forall|d: Device| s.dev_inv(d),
    {
        let s = Sequencer { phase: Phase::ConfigurePin10, trace: Ghost(Seq::empty()) };
        proof {
            assert(!observed_power_on(s.trace@));
            assert(!observed_load_done(s.trace@));
        }
        s
    }

    /// Whether bring-up has completed.
    pub fn is_done(&self) -> (b: bool)
        ensures
            b == (self.phase is Done),
    {
        match self.phase {
            Phase::Done => true,
            _ => false,
        }
    }

    /// Performs the next register access of the bring-up sequence on the
    /// device, records it in the trace, and advances the phase; a polling
    /// phase advances only on a status bit reading set. Well-formedness and
    /// the device invariant are preserved.
    pub fn step(&mut self, dev: &mut Device) -> (a: Action)
        requires
            !(old(self).phase is Done),
        ensures
            a == step_action(old(self).phase, *old(dev)),
            final(self).phase == step_phase(old(self).phase, *old(dev)),
            *final(dev) == step_device(old(self).phase, *old(dev)),
            final(self).trace@ == old(self).trace@.push(a),
            old(self).wf() ==> final(self).wf(),
            old(self).wf() && old(self).dev_inv(*old(dev)) ==> final(self).dev_inv(*final(dev)),
    {
        let p = self.phase;
        let a: Action = match p {
            Phase::ConfigurePin10 => {
                dev.configure_pin_gpio_output_max(PIN_LED1);
                self.phase = Phase::ConfigurePin15;
                Action::WrotePinConfig(PIN_LED1)
            },
            Phase::ConfigurePin15 => {
                dev.configure_pin_gpio_output_max(PIN_LED2);
                self.phase = Phase::RequestPower;
                Action::WrotePinConfig(PIN_LED2)
            },
            Phase::RequestPower => {
                dev.request_periph_power_on();
                self.phase = Phase::WaitPowerOn;
                Action::WrotePowerOnRequest
            },
            Phase::WaitPowerOn => {
                let on = dev.read_periph_power_status();
                if on {
                    self.phase = Phase::EnableClockGate;
                }
                Action::PolledPowerStatus(on)
            },
            Phase::EnableClockGate => {
                dev.enable_gpio_clock_gate();
                self.phase = Phase::RequestClockLoad;
                Action::WroteClockGateEnable
            },
            Phase::RequestClockLoad => {
                dev.request_clock_load();
                self.phase = Phase::WaitLoadDone;
                Action::WroteClockLoadRequest
            },
            Phase::WaitLoadDone => {
                let done = dev.read_clock_load_done();
                if done {
                    self.phase = Phase::EnableOutputs;
                }
                Action::PolledClockLoadDone(done)
            },
            Phase::EnableOutputs => {
                dev.enable_led_outputs();
                self.phase = Phase::Done;
                Action::WroteOutputEnable
            },
            Phase::Done => vstd::pervasive::unreached(),
        };
        proof {
            if old(self).wf() {
                lemma_push_keeps_order(old(self).trace@, a);
            }
            if old(self).phase is EnableOutputs {
                let x = old(dev).doe31_0;
                assert((x | (LED1_MASK | LED2_MASK)) & LED1_MASK == LED1_MASK) by (bit_vector);
                assert((x | (LED1_MASK | LED2_MASK)) & LED2_MASK == LED2_MASK) by (bit_vector);
            }
            if old(self).phase is EnableClockGate {
                assert(CLK_EN_BIT & CLK_EN_BIT == CLK_EN_BIT) by (bit_vector);
            }
        }
        self.trace = Ghost(self.trace@.push(a));
        a
    }
}

/// Law: in any well-formed run of the sequencer, a clock-gate-enable write
/// stands in the trace only after an observation of the power domain's
/// status reading "on".
pub proof fn lemma_power_observed_before_clock_gate(s: Sequencer, i: int)
    requires
        s.wf(),
        0 <= i < s.trace@.len(),
        s.trace@[i] == Action::WroteClockGateEnable,
    ensures
        exists|j: int| 0 <= j < i && s.trace@[j] == Action::PolledPowerStatus(true),
{
    assert(power_observed_by(s.trace@, i));
    let j = choose|j: int|
        0 <= j < i && j < s.trace@.len() && s.trace@[j] == Action::PolledPowerStatus(true);
    assert(0 <= j < i && s.trace@[j] == Action::PolledPowerStatus(true));
}

/// Law: in any well-formed run of the sequencer, an output-enable write
/// stands in the trace only after an observation of the clock-load "done"
/// status reading set.
pub proof fn lemma_load_done_observed_before_output_enable(s: Sequencer, i: int)
    requires
        s.wf(),
        0 <= i < s.trace@.len(),
        s.trace@[i] == Action::WroteOutputEnable,
    ensures
        exists|j: int| 0 <= j < i && s.trace@[j] == Action::PolledClockLoadDone(true),
{
    assert(load_done_observed_by(s.trace@, i));
    let j = choose|j: int|
        0 <= j < i && j < s.trace@.len() && s.trace@[j] == Action::PolledClockLoadDone(true);
    assert(0 <= j < i && s.trace@[j] == Action::PolledClockLoadDone(true));
}

/// Law: while the power domain's status was never observed "on", the
/// sequencer has never issued the clock-gate-enable write and has not
/// completed: it stands at or before its power poll.
pub proof fn lemma_unpowered_never_reaches_clock_gate(s: Sequencer)
    requires
        s.wf(),
        forall|j: int| 0 <= j < s.trace@.len() ==> s.trace@[j] != Action::PolledPowerStatus(true),
    ensures
        forall|i: int| 0 <= i < s.trace@.len() ==> s.trace@[i] != Action::WroteClockGateEnable,
        !(s.phase is Done),
        phase_index(s.phase) <= 3,
{
    assert(!observed_power_on(s.trace@));
    assert forall|i: int| 0 <= i < s.trace@.len()
        implies s.trace@[i] != Action::WroteClockGateEnable by {
        if s.trace@[i] == Action::WroteClockGateEnable {
            lemma_power_observed_before_clock_gate(s, i);
        }
    }
}

/// Law: when bring-up has completed, both managed pins are routed as
/// general-purpose I/O outputs at maximum drive strength with input buffers
/// disabled, both their output-enable bits read as set, the peripheral power
/// domain is requested and its status reads on, the GPIO clock gate is
/// enabled, and the clock load was requested and reads done.
pub proof fn lemma_done_device_state(s: Sequencer, d: Device)
    requires
        s.dev_inv(d),
        s.phase is Done,
    ensures
        pin_is_gpio_output_max(d.iocfg10),
        pin_is_gpio_output_max(d.iocfg15),
        bit_set(d.doe31_0, LED1_MASK),
        bit_set(d.doe31_0, LED2_MASK),
        d.pdctl0_periph_on,
        d.pdstat0_periph_on,
        bit_set(d.gpioclkgr, CLK_EN_BIT),
        d.clkloadctl_load,
        d.clkloadctl_load_done,
{
}

/// Law: the hardware's own responses — status bits following their request
/// bits — preserve what the sequencer has established on the device.
pub proof fn lemma_hw_tick_preserves_dev_inv(s: Sequencer, d0: Device, d1: Device)
    requires
        s.dev_inv(d0),
        crate::device::hw_tick_rel(d0, d1),
    ensures
        s.dev_inv(d1),
{
}

} // verus!
