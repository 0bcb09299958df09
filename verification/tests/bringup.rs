use blinky::bringup::{Action, Phase, Sequencer};
use blinky::device::Device;
use blinky::startup::{init, OwnershipGate, SYSCLK_HZ};

/// Runs the sequencer to completion against a chip that responds after every
/// step, collecting the register-access trace.
fn run_full_bring_up(seq: &mut Sequencer, dev: &mut Device) -> Vec<Action> {
    let mut trace = Vec::new();
    while !seq.is_done() {
        trace.push(seq.step(dev));
        dev.hw_tick();
    }
    trace
}

#[test]
fn full_bring_up_trace() {
    let mut gate = OwnershipGate::new();
    let (delay, mut dev, mut seq) = init(&mut gate);
    assert_eq!(delay.sysclk_hz, SYSCLK_HZ);
    assert_eq!(delay.now_ms, 0);
    let trace = run_full_bring_up(&mut seq, &mut dev);
    assert_eq!(
        trace,
        vec![
            Action::WrotePinConfig(10),
            Action::WrotePinConfig(15),
            Action::WrotePowerOnRequest,
            Action::PolledPowerStatus(true),
            Action::WroteClockGateEnable,
            Action::WroteClockLoadRequest,
            Action::PolledClockLoadDone(true),
            Action::WroteOutputEnable,
        ]
    );
    assert!(seq.is_done());
}

#[test]
fn power_observed_before_clock_gate() {
    let mut gate = OwnershipGate::new();
    let (_delay, mut dev, mut seq) = init(&mut gate);
    let trace = run_full_bring_up(&mut seq, &mut dev);
    let gate_write = trace
        .iter()
        .position(|a| *a == Action::WroteClockGateEnable)
        .expect("clock gate write missing from trace");
    let power_on_seen = trace
        .iter()
        .position(|a| *a == Action::PolledPowerStatus(true))
        .expect("power-on observation missing from trace");
    assert!(power_on_seen < gate_write);
}

#[test]
fn load_done_observed_before_output_enable() {
    let mut gate = OwnershipGate::new();
    let (_delay, mut dev, mut seq) = init(&mut gate);
    let trace = run_full_bring_up(&mut seq, &mut dev);
    let output_write = trace
        .iter()
        .position(|a| *a == Action::WroteOutputEnable)
        .expect("output-enable write missing from trace");
    let load_done_seen = trace
        .iter()
        .position(|a| *a == Action::PolledClockLoadDone(true))
        .expect("load-done observation missing from trace");
    assert!(load_done_seen < output_write);
}

#[test]
fn done_state_reads_back() {
    let mut gate = OwnershipGate::new();
    let (_delay, mut dev, mut seq) = init(&mut gate);
    run_full_bring_up(&mut seq, &mut dev);
    // both pins routed as GPIO, input buffers off, maximum drive strength
    assert_eq!(dev.iocfg10.port_id, blinky::device::GPIO_PORT_ID);
    assert!(!dev.iocfg10.input_enable);
    assert_eq!(dev.iocfg10.drive_strength, blinky::device::DriveStrength::Max);
    assert_eq!(dev.iocfg15.port_id, blinky::device::GPIO_PORT_ID);
    assert!(!dev.iocfg15.input_enable);
    assert_eq!(dev.iocfg15.drive_strength, blinky::device::DriveStrength::Max);
    // both output-enable bits set, nothing else touched
    assert_eq!(dev.doe31_0, 0x8400);
    // power domain requested and observed, clock gated on, load done
    assert!(dev.pdctl0_periph_on);
    assert!(dev.pdstat0_periph_on);
    assert_eq!(dev.gpioclkgr, blinky::device::CLK_EN_BIT);
    assert!(dev.clkloadctl_load);
    assert!(dev.clkloadctl_load_done);
    // outputs start de-asserted
    assert_eq!(dev.dout31_0, 0);
    assert!(!dev.read_led1());
}

#[test]
fn slow_chip_is_polled_until_its_status_reads_set() {
    let mut gate = OwnershipGate::new();
    let (_delay, mut dev, mut seq) = init(&mut gate);
    let mut trace = Vec::new();
    // the chip answers nothing for a while: the power poll repeats
    for _ in 0..6 {
        trace.push(seq.step(&mut dev));
    }
    assert_eq!(trace[3], Action::PolledPowerStatus(false));
    assert_eq!(trace[4], Action::PolledPowerStatus(false));
    assert_eq!(trace[5], Action::PolledPowerStatus(false));
    dev.hw_tick();
    assert_eq!(seq.step(&mut dev), Action::PolledPowerStatus(true));
    assert_eq!(seq.step(&mut dev), Action::WroteClockGateEnable);
    assert_eq!(seq.step(&mut dev), Action::WroteClockLoadRequest);
    // likewise for the clock-load commit
    assert_eq!(seq.step(&mut dev), Action::PolledClockLoadDone(false));
    assert_eq!(seq.step(&mut dev), Action::PolledClockLoadDone(false));
    dev.hw_tick();
    assert_eq!(seq.step(&mut dev), Action::PolledClockLoadDone(true));
    assert_eq!(seq.step(&mut dev), Action::WroteOutputEnable);
    assert!(seq.is_done());
}

#[test]
fn output_enable_preserves_other_pins() {
    let mut dev = Device::reset();
    dev.doe31_0 = 0x0001;
    dev.enable_led_outputs();
    assert_eq!(dev.doe31_0, 0x8401);
}

#[test]
fn unresponsive_power_domain_never_reaches_clock_gate() {
    let mut gate = OwnershipGate::new();
    let (_delay, mut dev, mut seq) = init(&mut gate);
    // the simulated power-domain status never becomes "on": no hw_tick
    let mut trace = Vec::new();
    for _ in 0..100 {
        assert!(!seq.is_done());
        trace.push(seq.step(&mut dev));
    }
    assert!(!seq.is_done());
    assert!(trace.iter().all(|a| *a != Action::WroteClockGateEnable));
    assert!(trace.iter().all(|a| *a != Action::WroteOutputEnable));
    // the sequencer is stuck in its power poll
    assert_eq!(trace[3], Action::PolledPowerStatus(false));
    assert_eq!(trace[99], Action::PolledPowerStatus(false));
    assert_eq!(seq.phase, Phase::WaitPowerOn);
}

#[test]
fn clock_gate_write_clears_other_gate_bits() {
    let mut dev = Device::reset();
    dev.gpioclkgr = 0xff00;
    dev.enable_gpio_clock_gate();
    // a whole-register write: every other bit of that register is zero
    assert_eq!(dev.gpioclkgr, blinky::device::CLK_EN_BIT);
}

#[test]
fn hw_tick_follows_requests() {
    let mut dev = Device::reset();
    dev.hw_tick();
    assert!(!dev.pdstat0_periph_on);
    assert!(!dev.clkloadctl_load_done);
    dev.request_periph_power_on();
    dev.hw_tick();
    assert!(dev.pdstat0_periph_on);
    assert!(!dev.clkloadctl_load_done);
    dev.request_clock_load();
    dev.hw_tick();
    assert!(dev.pdstat0_periph_on);
    assert!(dev.clkloadctl_load_done);
}
