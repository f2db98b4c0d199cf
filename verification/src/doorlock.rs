//! The door lock: the one piece of domain state, and how it drives the pin.
//!
//! `open`, `close` and `toggle` always update the boolean state. Each takes
//! the hardware handles as optional values: with both present the matching
//! controller operation is issued as well; with either absent the state
//! still changes and no hardware is touched. The absent case is what lets
//! the dispatch logic run without hardware or elevated permissions.

use vstd::prelude::*;

use crate::gpio::GpioController;
use crate::gpio::GpioOutputPin;
use crate::gpio::set_high_effect;
use crate::gpio::set_low_effect;

verus! {

/// Both hardware handles are present and well formed.
pub open spec fn hardware_present(
    gpio_controller: Option<GpioController>,
    gpio_output_pin: Option<GpioOutputPin>,
) -> bool {
    gpio_controller is Some && gpio_output_pin is Some
}

/// The handles that are present are well formed.
pub open spec fn hardware_wf(
    gpio_controller: Option<GpioController>,
    gpio_output_pin: Option<GpioOutputPin>,
) -> bool {
    &&& gpio_controller is Some ==> gpio_controller->Some_0.wf()
    &&& gpio_output_pin is Some ==> gpio_output_pin->Some_0.wf()
}

/// What driving the door pin does to the hardware handles: with both
/// present, the controller takes the set (high) or clear (low) operation for
/// the output pin and the pin handle is untouched; with either absent,
/// everything is untouched.
pub open spec fn hardware_drive_effect(
    ctrl0: Option<GpioController>,
    ctrl1: Option<GpioController>,
    pin0: Option<GpioOutputPin>,
    pin1: Option<GpioOutputPin>,
    high: bool,
) -> bool {
    if hardware_present(ctrl0, pin0) {
        &&& ctrl1 is Some
        &&& if high {
            set_high_effect(ctrl0->Some_0, ctrl1->Some_0, pin0->Some_0.number() as int)
        } else {
            set_low_effect(ctrl0->Some_0, ctrl1->Some_0, pin0->Some_0.number() as int)
        }
        &&& pin1 == pin0
    } else {
        &&& ctrl1 == ctrl0
        &&& pin1 == pin0
    }
}

/// The lock of the door: open when `is_open` holds.
pub struct DoorLock {
    pub is_open: bool,
}

impl DoorLock {
    /// A lock that starts closed.
    pub fn new() -> (r: DoorLock)
        ensures
            !r.is_open,
    {
        DoorLock { is_open: false }
    }

    /// Open the lock: the state becomes open, and with both hardware handles
    /// present the pin is driven high.
    pub fn open(
        &mut self,
        gpio_controller: &mut Option<GpioController>,
        gpio_output_pin: &mut Option<GpioOutputPin>,
    )
        requires
            hardware_wf(*old(gpio_controller), *old(gpio_output_pin)),
        ensures
            final(self).is_open,
            hardware_wf(*final(gpio_controller), *final(gpio_output_pin)),
            hardware_drive_effect(
                *old(gpio_controller),
                *final(gpio_controller),
                *old(gpio_output_pin),
                *final(gpio_output_pin),
                true,
            ),
    {
        self.is_open = true;
        match gpio_controller {
            Some(gc) => match gpio_output_pin {
                Some(gop) => gc.set_high(gop),
                _ => {},
            },
            _ => {},
        }
    }

    /// Close the lock: the state becomes closed, and with both hardware
    /// handles present the pin is driven low. Closing an already closed lock
    /// issues the clear operation again; driving low is idempotent.
    pub fn close(
        &mut self,
        gpio_controller: &mut Option<GpioController>,
        gpio_output_pin: &mut Option<GpioOutputPin>,
    )
        requires
            hardware_wf(*old(gpio_controller), *old(gpio_output_pin)),
        ensures
            !final(self).is_open,
            hardware_wf(*final(gpio_controller), *final(gpio_output_pin)),
            hardware_drive_effect(
                *old(gpio_controller),
                *final(gpio_controller),
                *old(gpio_output_pin),
                *final(gpio_output_pin),
                false,
            ),
    {
        self.is_open = false;
        match gpio_controller {
            Some(gc) => match gpio_output_pin {
                Some(gop) => gc.set_low(gop),
                _ => {},
            },
            _ => {},
        }
    }

    /// Toggle the lock: open it when closed, close it when open. The pin is
    /// driven towards the new state when both hardware handles are present.
    pub fn toggle(
        &mut self,
        gpio_controller: &mut Option<GpioController>,
        gpio_output_pin: &mut Option<GpioOutputPin>,
    )
        requires
            hardware_wf(*old(gpio_controller), *old(gpio_output_pin)),
        ensures
            final(self).is_open == !old(self).is_open,
            hardware_wf(*final(gpio_controller), *final(gpio_output_pin)),
            hardware_drive_effect(
                *old(gpio_controller),
                *final(gpio_controller),
                *old(gpio_output_pin),
                *final(gpio_output_pin),
                !old(self).is_open,
            ),
    {
        if self.is_open {
            self.close(gpio_controller, gpio_output_pin);
        } else {
            self.open(gpio_controller, gpio_output_pin);
        }
    }
}

} // verus!
