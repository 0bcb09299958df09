//! Model of the chip's memory-mapped register state.
//!
//! Every register field that the bring-up sequence or the toggle loop reads
//! or writes is held here as a plain value, and every method mirrors one
//! hardware register access with an exact contract.

use vstd::prelude::*;

verus! {

/// Routing port id that maps a pin to the general-purpose I/O peripheral.
pub const GPIO_PORT_ID: u32 = 0;

/// The pin driving the first LED (DIO10).
pub const PIN_LED1: u32 = 10;

/// The pin driving the second LED (DIO15).
pub const PIN_LED2: u32 = 15;

/// Bit mask of the first LED's pin in the GPIO data and direction registers.
pub const LED1_MASK: u32 = 0x0400;

/// Bit mask of the second LED's pin in the GPIO data and direction registers.
pub const LED2_MASK: u32 = 0x8000;

/// CLK_EN bit in the GPIO clock gate register.
pub const CLK_EN_BIT: u32 = 0x1;

/// Drive strength setting of an I/O pin.
#[derive(Clone, Copy, PartialEq, Eq, Structural, Debug)]
pub enum DriveStrength {
    Auto,
    Min,
    Med,
    Max,
}

/// Configuration of one I/O pin in the I/O controller: the routing port id,
/// the input-buffer enable flag, and the drive strength.
#[derive(Clone, Copy, PartialEq, Eq, Structural, Debug)]
pub struct PinConfig {
    pub port_id: u32,
    pub input_enable: bool,
    pub drive_strength: DriveStrength,
}

/// The chip's register state, as far as the bring-up sequence and the toggle
/// loop touch it. Status fields (`pdstat0_periph_on`, `clkloadctl_load_done`)
/// are driven by the hardware, modeled by [`Device::hw_tick`].
#[derive(Clone, Copy, PartialEq, Eq, Structural, Debug)]
pub struct Device {
    /// I/O controller configuration of the first LED pin.
    pub iocfg10: PinConfig,
    /// I/O controller configuration of the second LED pin.
    pub iocfg15: PinConfig,
    /// Power-on request bit for the peripheral power domain.
    pub pdctl0_periph_on: bool,
    /// Status read-back of the peripheral power domain; distinct from the
    /// request bit, and set only by the hardware.
    pub pdstat0_periph_on: bool,
    /// The GPIO clock gate register, as a whole word; bit [`CLK_EN_BIT`]
    /// enables the GPIO clock.
    pub gpioclkgr: u32,
    /// Clock-load request bit.
    pub clkloadctl_load: bool,
    /// Clock-load "done" status bit; set only by the hardware.
    pub clkloadctl_load_done: bool,
    /// Per-pin output-enable bits.
    pub doe31_0: u32,
    /// Per-pin output levels.
    pub dout31_0: u32,
}

/// True when every bit of `mask` is set in `x`.
pub open spec fn bit_set(x: u32, mask: u32) -> bool {
    x & mask == mask
}

/// A pin routed as general-purpose I/O, output-only, at maximum drive
/// strength: the configuration both managed pins get during bring-up.
pub open spec fn pin_is_gpio_output_max(c: PinConfig) -> bool {
    &&& c.port_id == GPIO_PORT_ID
    &&& !c.input_enable
    &&& c.drive_strength == DriveStrength::Max
}

/// The hardware's own response between software steps: a status bit becomes
/// set once the matching request bit is set, and once set it stays set;
/// nothing else changes.
pub open spec fn hw_tick_rel(d0: Device, d1: Device) -> bool {
    &&& d1.pdstat0_periph_on == (d0.pdstat0_periph_on || d0.pdctl0_periph_on)
    &&& d1.clkloadctl_load_done == (d0.clkloadctl_load_done || d0.clkloadctl_load)
    &&& d1 == (Device {
        pdstat0_periph_on: d1.pdstat0_periph_on,
        clkloadctl_load_done: d1.clkloadctl_load_done,
        ..d0
    })
}

/// `d1` differs from `d0` at most in the output-level register.
pub open spec fn same_but_dout(d0: Device, d1: Device) -> bool {
    d1 == (Device { dout31_0: d1.dout31_0, ..d0 })
}

impl Device {
    /// The register state at power-on reset: pins routed as general-purpose
    /// I/O with their input buffers enabled, everything else off and low.
    pub open spec fn reset_spec() -> Device {
        Device {
            iocfg10: PinConfig {
                port_id: GPIO_PORT_ID,
                input_enable: true,
                drive_strength: DriveStrength::Auto,
            },
            iocfg15: PinConfig {
                port_id: GPIO_PORT_ID,
                input_enable: true,
                drive_strength: DriveStrength::Auto,
            },
            pdctl0_periph_on: false,
            pdstat0_periph_on: false,
            gpioclkgr: 0,
            clkloadctl_load: false,
            clkloadctl_load_done: false,
            doe31_0: 0,
            dout31_0: 0,
        }
    }

    /// Builds the register state at power-on reset.
    pub fn reset() -> (d: Device)
        ensures
            d == Device::reset_spec(),
    {
        Device {
            iocfg10: PinConfig {
                port_id: GPIO_PORT_ID,
                input_enable: true,
                drive_strength: DriveStrength::Auto,
            },
            iocfg15: PinConfig {
                port_id: GPIO_PORT_ID,
                input_enable: true,
                drive_strength: DriveStrength::Auto,
            },
            pdctl0_periph_on: false,
            pdstat0_periph_on: false,
            gpioclkgr: 0,
            clkloadctl_load: false,
            clkloadctl_load_done: false,
            doe31_0: 0,
            dout31_0: 0,
        }
    }

    /// The output level of the first LED's pin.
    pub open spec fn led1_on(self) -> bool {
        self.dout31_0 & LED1_MASK != 0
    }

    /// Reads the output level of the first LED's pin.
    pub fn read_led1(&self) -> (b: bool)
        ensures
            b == self.led1_on(),
    {
        self.dout31_0 & LED1_MASK != 0
    }

    /// Writes one managed pin's I/O configuration: route it as
    /// general-purpose I/O, disable its input buffer, and set maximum drive
    /// strength. Mirrors a read-modify-write of that pin's configuration
    /// register alone.
    pub fn configure_pin_gpio_output_max(&mut self, pin: u32)
        requires
            pin == PIN_LED1 || pin == PIN_LED2,
        ensures
            pin == PIN_LED1 ==> *final(self) == (Device {
                iocfg10: PinConfig {
                    port_id: GPIO_PORT_ID,
                    input_enable: false,
                    drive_strength: DriveStrength::Max,
                },
                ..*old(self)
            }),
            pin == PIN_LED2 ==> *final(self) == (Device {
                iocfg15: PinConfig {
                    port_id: GPIO_PORT_ID,
                    input_enable: false,
                    drive_strength: DriveStrength::Max,
                },
                ..*old(self)
            }),
    {
        let cfg = PinConfig {
            port_id: GPIO_PORT_ID,
            input_enable: false,
            drive_strength: DriveStrength::Max,
        };
        if pin == PIN_LED1 {
            self.iocfg10 = cfg;
        } else {
            self.iocfg15 = cfg;
        }
    }

    /// Sets the power-on request bit of the peripheral power domain. This is
    /// only the request: the domain counts as powered when its status bit
    /// reads back set.
    pub fn request_periph_power_on(&mut self)
        ensures
            *final(self) == (Device { pdctl0_periph_on: true, ..*old(self) }),
    {
        self.pdctl0_periph_on = true;
    }

    /// Reads the power domain's status bit.
    pub fn read_periph_power_status(&self) -> (on: bool)
        ensures
            on == self.pdstat0_periph_on,
    {
        self.pdstat0_periph_on
    }

    /// Enables the GPIO clock gate with a whole-register write: every other
    /// bit of that register is left zero by this write, a documented side
    /// effect of not using read-modify-write here.
    pub fn enable_gpio_clock_gate(&mut self)
        ensures
            *final(self) == (Device { gpioclkgr: CLK_EN_BIT, ..*old(self) }),
    {
        self.gpioclkgr = CLK_EN_BIT;
    }

    /// Sets the clock-load request bit. The new clock gating takes effect
    /// only once the "load done" status bit reads back set.
    pub fn request_clock_load(&mut self)
        ensures
            *final(self) == (Device { clkloadctl_load: true, ..*old(self) }),
    {
        self.clkloadctl_load = true;
    }

    /// Reads the clock-load "done" status bit.
    pub fn read_clock_load_done(&self) -> (done: bool)
        ensures
            done == self.clkloadctl_load_done,
    {
        self.clkloadctl_load_done
    }

    /// Sets the output-enable bits of both managed pins in one combined
    /// read-modify-write, preserving every other pin's bit.
    pub fn enable_led_outputs(&mut self)
        ensures
            *final(self) == (Device {
                doe31_0: old(self).doe31_0 | (LED1_MASK | LED2_MASK),
                ..*old(self)
            }),
    {
        self.doe31_0 = self.doe31_0 | (LED1_MASK | LED2_MASK);
    }

    /// Asserts the first LED's pin with a set of its bit alone, leaving the
    /// companion pin's bit untouched.
    pub fn set_led1_high(&mut self)
        ensures
            *final(self) == (Device { dout31_0: old(self).dout31_0 | LED1_MASK, ..*old(self) }),
            final(self).led1_on(),
            final(self).dout31_0 & !LED1_MASK == old(self).dout31_0 & !LED1_MASK,
    {
        self.dout31_0 = self.dout31_0 | LED1_MASK;
        proof {
            let x = old(self).dout31_0;
            assert((x | LED1_MASK) & LED1_MASK != 0) by (bit_vector);
            assert((x | LED1_MASK) & !LED1_MASK == x & !LED1_MASK) by (bit_vector);
        }
    }

    /// De-asserts the first LED's pin with a clear of its bit alone, leaving
    /// the companion pin's bit untouched.
    pub fn set_led1_low(&mut self)
        ensures
            *final(self) == (Device { dout31_0: old(self).dout31_0 & !LED1_MASK, ..*old(self) }),
            !final(self).led1_on(),
            final(self).dout31_0 & !LED1_MASK == old(self).dout31_0 & !LED1_MASK,
    {
        self.dout31_0 = self.dout31_0 & !LED1_MASK;
        proof {
            let x = old(self).dout31_0;
            assert((x & !LED1_MASK) & LED1_MASK == 0) by (bit_vector);
            assert((x & !LED1_MASK) & !LED1_MASK == x & !LED1_MASK) by (bit_vector);
        }
    }

    /// One response step of the simulated hardware: each status bit whose
    /// request bit is set becomes set, and once set it stays set. A chip
    /// whose power domain never comes up is simulated by never calling this.
    pub fn hw_tick(&mut self)
        ensures
            hw_tick_rel(*old(self), *final(self)),
    {
        self.pdstat0_periph_on = self.pdstat0_periph_on || self.pdctl0_periph_on;
        self.clkloadctl_load_done = self.clkloadctl_load_done || self.clkloadctl_load;
    }
}

} // verus!
