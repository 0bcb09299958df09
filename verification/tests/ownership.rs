use blinky::device::Device;
use blinky::startup::{init, OwnershipGate, SYSCLK_HZ};

#[test]
fn first_take_yields_device_at_reset() {
    let mut gate = OwnershipGate::new();
    assert!(!gate.is_taken());
    let dev = gate.take().expect("first take must succeed");
    assert!(gate.is_taken());
    assert_eq!(dev, Device::reset());
}

#[test]
fn take_fails_forever_after_the_first() {
    let mut gate = OwnershipGate::new();
    assert!(gate.take().is_some());
    // not merely the second call: it can never later succeed
    for _ in 0..10 {
        assert!(gate.take().is_none());
        assert!(gate.is_taken());
    }
}

#[test]
fn init_takes_ownership_once() {
    let mut gate = OwnershipGate::new();
    let (delay, dev, seq) = init(&mut gate);
    assert!(gate.is_taken());
    assert!(gate.take().is_none());
    assert_eq!(delay.sysclk_hz, SYSCLK_HZ);
    assert_eq!(delay.now_ms, 0);
    assert_eq!(dev, Device::reset());
    assert!(!seq.is_done());
}
