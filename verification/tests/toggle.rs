use blinky::blink::run_toggle_phases;
use blinky::clock::{Cfgr, Clocks, Delay};
use blinky::device::Device;
use blinky::startup::{init, OwnershipGate};

fn bring_up() -> (Delay, Device) {
    let mut gate = OwnershipGate::new();
    let (delay, mut dev, mut seq) = init(&mut gate);
    while !seq.is_done() {
        seq.step(&mut dev);
        dev.hw_tick();
    }
    (delay, dev)
}

#[test]
fn square_wave_1hz_50_percent_duty() {
    let (mut delay, mut dev) = bring_up();
    // half period 500 ms; the pin starts low at t = 0
    assert!(!dev.read_led1());
    assert_eq!(delay.now_ms, 0);
    let ts = run_toggle_phases(&mut dev, &mut delay, 500, 4);
    assert_eq!(
        ts,
        vec![(0, true), (500, false), (1000, true), (1500, false)]
    );
    assert_eq!(delay.now_ms, 2000);
}

#[test]
fn phases_strictly_alternate_and_are_evenly_spaced() {
    let (mut delay, mut dev) = bring_up();
    let ts = run_toggle_phases(&mut dev, &mut delay, 250, 9);
    assert_eq!(ts.len(), 9);
    for k in 0..8 {
        assert_eq!(ts[k + 1].1, !ts[k].1);
        assert_eq!(ts[k + 1].0 - ts[k].0, 250);
    }
    // 9 phases from low: the pin ends asserted
    assert!(dev.read_led1());
}

#[test]
fn companion_pin_bit_is_not_disturbed() {
    let (mut delay, mut dev) = bring_up();
    // pretend something drove the second LED's pin high
    dev.dout31_0 |= 0x8000;
    run_toggle_phases(&mut dev, &mut delay, 500, 5);
    assert_eq!(dev.dout31_0 & 0x8000, 0x8000);
    // and only the driven pin's bit ever changed
    assert_eq!(dev.dout31_0 & !0x0400, 0x8000);
}

#[test]
fn set_clear_led_bit() {
    let mut dev = Device::reset();
    dev.set_led1_high();
    assert_eq!(dev.dout31_0, 0x0400);
    assert!(dev.read_led1());
    dev.set_led1_high();
    assert_eq!(dev.dout31_0, 0x0400);
    dev.set_led1_low();
    assert_eq!(dev.dout31_0, 0);
    assert!(!dev.read_led1());
}

#[test]
fn delay_accumulates_exactly() {
    let clocks = Cfgr { sysclk: Some(48_000_000) }.freeze();
    assert_eq!(clocks, Clocks { sysclk_hz: 48_000_000 });
    let mut delay = Delay::new(clocks);
    assert_eq!(delay.now_ms, 0);
    delay.delay_ms(500);
    delay.delay_ms(500);
    assert_eq!(delay.now_ms, 1000);
    delay.delay_ms(1);
    assert_eq!(delay.now_ms, 1001);
    assert_eq!(delay.sysclk_hz, 48_000_000);
}

#[test]
fn zero_phases_change_nothing() {
    let (mut delay, mut dev) = bring_up();
    let before = dev;
    let ts = run_toggle_phases(&mut dev, &mut delay, 500, 0);
    assert!(ts.is_empty());
    assert_eq!(dev, before);
    assert_eq!(delay.now_ms, 0);
}
