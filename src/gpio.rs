//! The registers of one GPIO port, with named single-pin operations.
use vstd::prelude::*;
use crate::bits::{bit_set, pin_mask, same_except, set_pin, toggle_pin, REGISTER_BITS};

verus! {

/// Number of pins of a port.
pub const PORT_PINS: u32 = 8;

/// The registers of one GPIO port.
#[derive(Clone, Copy, Debug, PartialEq, Eq, Structural)]
pub struct GpioPort {
    /// Clock gate of the port.
    pub clock_enabled: bool,
    /// Direction register: a set bit makes the pin an output.
    pub dir: u32,
    /// Digital-enable register.
    pub den: u32,
    /// Data register.
    pub data: u32,
}

impl GpioPort {
    /// Pin `pin` drives its data bit out.
    pub open spec fn is_output(self, pin: u32) -> bool {
        self.clock_enabled && bit_set(self.dir, pin) && bit_set(self.den, pin)
    }

    /// The registers at reset, with the data register as given.
    pub fn reset(data: u32) -> (r: GpioPort)
        ensures
            r == (GpioPort { clock_enabled: false, dir: 0, den: 0, data }),
    {
        GpioPort { clock_enabled: false, dir: 0, den: 0, data }
    }

    /// Turns the port's clock gate on.
    pub fn power_up(&mut self)
        ensures
            *final(self) == (GpioPort { clock_enabled: true, ..*old(self) }),
    {
        self.clock_enabled = true;
    }

    /// Makes `pin` a digital output; the other pins keep their settings.
    pub fn set_direction_output(&mut self, pin: u32)
        requires
            pin < PORT_PINS,
        ensures
            final(self).dir == old(self).dir | pin_mask(pin),
            final(self).den == old(self).den | pin_mask(pin),
            final(self).clock_enabled == old(self).clock_enabled,
            final(self).data == old(self).data,
            bit_set(final(self).dir, pin) && bit_set(final(self).den, pin),
            same_except(final(self).dir, old(self).dir, pin),
            same_except(final(self).den, old(self).den, pin),
    {
        self.dir = set_pin(self.dir, pin);
        self.den = set_pin(self.den, pin);
    }

    /// Inverts the data bit of `pin`; the other pins keep their state.
    pub fn toggle(&mut self, pin: u32)
        requires
            pin < PORT_PINS,
        ensures
            *final(self) == (GpioPort { data: old(self).data ^ pin_mask(pin), ..*old(self) }),
            bit_set(final(self).data, pin) == !bit_set(old(self).data, pin),
            same_except(final(self).data, old(self).data, pin),
    {
        self.data = toggle_pin(self.data, pin);
    }
}

} // verus!
