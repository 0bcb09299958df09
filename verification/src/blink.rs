//! The steady-state toggle loop: after bring-up, one managed pin alternates
//! between asserted and de-asserted, each level held for a fixed half period
//! by the blocking delay primitive.
//!
//! One phase is one level written and one half period waited. The schedule of
//! transitions — strict alternation, consecutive transitions exactly one half
//! period apart — is stated over [`nth_level`] and [`toggle_time`] and proved
//! both of the schedule and of the executable loop.

use vstd::prelude::*;

use crate::clock::Delay;
use crate::device::{same_but_dout, Device, LED1_MASK};

verus! {

/// The level the pin holds after `k` phases, starting from `start`: each
/// phase flips it.
pub open spec fn nth_level(start: bool, k: int) -> bool {
    if k % 2 == 0 {
        start
    } else {
        !start
    }
}

/// The simulated time of the `k`-th transition, with transitions one half
/// period apart from `t0`.
pub open spec fn toggle_time(t0: int, half: int, k: int) -> int {
    t0 + k * half
}

/// Law: the toggle schedule strictly alternates — no phase is skipped or
/// repeated — and consecutive transitions lie exactly one half period apart.
pub proof fn lemma_toggle_alternation(start: bool, t0: int, half: int, k: int)
    ensures
        nth_level(start, k + 1) == !nth_level(start, k),
        toggle_time(t0, half, k + 1) == toggle_time(t0, half, k) + half,
{
    assert((k + 1) * half == k * half + half) by (nonlinear_arith);
}

/// One phase of the toggle loop: drives the first LED's pin to `level` with a
/// set or clear of its bit alone, then blocks for the half period. The
/// companion pin's bit and every other register are untouched.
pub fn drive_led1(dev: &mut Device, delay: &mut Delay, level: bool, half_period_ms: u16)
    requires
        old(delay).now_ms + half_period_ms <= u64::MAX,
    ensures
        final(dev).led1_on() == level,
        final(dev).dout31_0 == (if level {
            old(dev).dout31_0 | LED1_MASK
        } else {
            old(dev).dout31_0 & !LED1_MASK
        }),
        final(dev).dout31_0 & !LED1_MASK == old(dev).dout31_0 & !LED1_MASK,
        same_but_dout(*old(dev), *final(dev)),
        final(delay).now_ms == old(delay).now_ms + half_period_ms,
        final(delay).sysclk_hz == old(delay).sysclk_hz,
{
    if level {
        dev.set_led1_high();
    } else {
        dev.set_led1_low();
    }
    delay.delay_ms(half_period_ms);
}

/// Runs `n` phases of the toggle loop, starting by flipping the pin away from
/// its current level, and returns the transitions as (simulated time, level
/// written) pairs: transition `k` happens at `k` half periods past the start
/// and writes level `nth_level(!start, k)`, so the waveform is a square wave
/// with half-period duty. Only the driven pin's output bit changes.
pub fn run_toggle_phases(dev: &mut Device, delay: &mut Delay, half_period_ms: u16, n: u32) -> (ts:
    Vec<(u64, bool)>)
    requires
        old(delay).now_ms + (n as int) * (half_period_ms as int) <= u64::MAX,
    ensures
        ts@.len() == n as int,
        forall|k: int|
            0 <= k < n as int ==> #[trigger] ts@[k] == (
                (toggle_time(old(delay).now_ms as int, half_period_ms as int, k) as u64),
                nth_level(!old(dev).led1_on(), k),
            ),
        final(delay).now_ms == toggle_time(
            old(delay).now_ms as int,
            half_period_ms as int,
            n as int,
        ),
        final(delay).sysclk_hz == old(delay).sysclk_hz,
        final(dev).led1_on() == nth_level(old(dev).led1_on(), n as int),
        final(dev).dout31_0 & !LED1_MASK == old(dev).dout31_0 & !LED1_MASK,
        same_but_dout(*old(dev), *final(dev)),
{
    let ghost t0 = old(delay).now_ms as int;
    let ghost l0 = old(dev).led1_on();
    let ghost half = half_period_ms as int;
    let ghost dev0 = *old(dev);
    let mut ts: Vec<(u64, bool)> = Vec::new();
    let mut level: bool = dev.read_led1();
    let mut k: u32 = 0;
    while k < n
        invariant
            0 <= k <= n,
            ts@.len() == k as int,
            forall|j: int|
                0 <= j < k as int ==> #[trigger] ts@[j] == (
                    (toggle_time(t0, half, j) as u64),
                    nth_level(!l0, j),
                ),
            half == half_period_ms as int,
            t0 + (n as int) * half <= u64::MAX,
            0 <= t0,
            delay.now_ms == t0 + (k as int) * half,
            delay.sysclk_hz == old(delay).sysclk_hz,
            dev.led1_on() == nth_level(l0, k as int),
            level == dev.led1_on(),
            dev.dout31_0 & !LED1_MASK == dev0.dout31_0 & !LED1_MASK,
            same_but_dout(dev0, *dev),
            dev0 == *old(dev),
        decreases n - k,
    {
        proof {
            vstd::arithmetic::mul::lemma_mul_inequality(k as int + 1, n as int, half);
            assert((k as int + 1) * half == (k as int) * half + half) by (nonlinear_arith);
            vstd::arithmetic::mul::lemma_mul_inequality(0, k as int, half);
        }
        let t: u64 = delay.now_ms;
        level = !level;
        drive_led1(dev, delay, level, half_period_ms);
        ts.push((t, level));
        proof {
            let kk = k as int;
            assert(nth_level(!l0, kk) == !nth_level(l0, kk));
            assert forall|j: int| 0 <= j < kk + 1 implies #[trigger] ts@[j] == (
                (toggle_time(t0, half, j) as u64),
                nth_level(!l0, j),
            ) by {
                if j < kk {
                    assert(ts@[j] == ts@.subrange(0, kk)[j]);
                }
            }
        }
        k = k + 1;
    }
    ts
}

} // verus!
