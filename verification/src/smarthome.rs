//! The smart home: the dispatcher state and the routing of events.
//!
//! `SmartHome` holds the one door lock and, when hardware is attached, the
//! controller and the output pin that drive the actuator. The dispatcher
//! loop around it polls the input sources and hands each fetched event to
//! [`SmartHome::process_event`], the sole writer of door and hardware state.
//! `routed_open` is the routing table: what the door state becomes for each
//! event. It does not depend on whether hardware is attached, so the
//! fake-mode instance of [`SmartHome::new_fake`] routes exactly as the
//! hardware one.

use vstd::prelude::*;

use crate::doorlock::DoorLock;
use crate::doorlock::hardware_drive_effect;
use crate::doorlock::hardware_wf;
use crate::event::Event;
use crate::gpio::GpioController;
use crate::gpio::GpioOutputPin;
use crate::gpio::GpioPin;
use crate::gpio::GpioPinAvailable;
use crate::ownership::ControllerSlot;
use crate::ownership::PinAllocator;
use crate::ownership::ResourceConflict;
use crate::registers::fsel_index;
use crate::registers::output_mode_op;
use crate::registers::with_output_mode;
use crate::registers::GPFSEL_WORD_COUNT;
use crate::registers::GPIO_PIN_COUNT;
use crate::registers::RegisterOp;

verus! {

/// The byte of the character `'1'`: a network client asking for a toggle.
pub const TCP_TOGGLE_BYTE: u8 = 49;
/// The byte of the character `'0'`: a network client asking for open.
pub const TCP_OPEN_BYTE: u8 = 48;

/// The vendor (BCM) number of the pin wired to the door-lock actuator.
pub open spec fn door_lock_pin() -> int {
    GpioPinAvailable::Gpio21.bcm_number() as int
}

/// The drive an event asks of the door pin, given the current door state:
/// `Some(true)` drives it high (open), `Some(false)` low (closed), `None`
/// leaves the hardware alone. A keyboard line or the byte `'1'` asks for the
/// opposite of the current state; the byte `'0'` asks for open; everything
/// else — no event, connection notices, an empty read, any other byte —
/// asks for nothing.
pub open spec fn event_drive(is_open: bool, event: Event) -> Option<bool> {
    match event {
        Event::KeyPressed => Some(!is_open),
        Event::TcpRead(size, bytes) => if size == 0 {
            None
        } else if bytes@[0] == TCP_TOGGLE_BYTE {
            Some(!is_open)
        } else if bytes@[0] == TCP_OPEN_BYTE {
            Some(true)
        } else {
            None
        },
        _ => None,
    }
}

/// The routing table: the door state after an event. The state follows the
/// drive the event asks for, and stays put when the event asks for nothing.
/// Whether hardware is attached plays no part.
pub open spec fn routed_open(is_open: bool, event: Event) -> bool {
    match event_drive(is_open, event) {
        Some(high) => high,
        None => is_open,
    }
}

/// Law: fake mode reproduces the routing. The door state an event leads to
/// is `routed_open` of the prior state and the event alone — the routing
/// table takes no hardware handles — so a dispatcher whose handles are
/// absent moves its door state exactly as one whose handles are present,
/// over any event.
pub proof fn lemma_fake_mode_routes_alike(
    with_hardware: SmartHome,
    without_hardware: SmartHome,
    event: Event,
)
    requires
        without_hardware.gpio_controller is None,
        without_hardware.gpio_output_pin is None,
        with_hardware.doorlock.is_open == without_hardware.doorlock.is_open,
    ensures
        routed_open(with_hardware.doorlock.is_open, event) == routed_open(
            without_hardware.doorlock.is_open,
            event,
        ),
{
}

/// The dispatcher state: the door lock, and the hardware handles when
/// hardware is attached. Both handles absent is the fake mode used for
/// testing without hardware.
pub struct SmartHome {
    pub gpio_controller: Option<GpioController>,
    pub gpio_output_pin: Option<GpioOutputPin>,
    pub doorlock: DoorLock,
}

impl SmartHome {
    /// The hardware handles that are present are well formed.
    pub open spec fn wf(&self) -> bool {
        hardware_wf(self.gpio_controller, self.gpio_output_pin)
    }

    /// Set up the hardware-backed dispatcher state: claim the controller
    /// singleton, acquire the door pin and configure it as an output, with
    /// the lock starting closed. Fails while another controller is live or
    /// while the pin is allocated, leaving both registries as they were —
    /// the controller claim is given back when the pin is not free.
    pub fn new(slot: &mut ControllerSlot, allocator: &mut PinAllocator) -> (r: Result<
        SmartHome,
        ResourceConflict,
    >)
        requires
            old(allocator).wf(),
        ensures
            final(allocator).wf(),
            r is Ok <==> (!old(slot).is_taken() && !old(allocator)@[door_lock_pin()]),
            old(slot).is_taken() ==> final(slot).is_taken() && final(allocator)@ == old(
                allocator,
            )@ && r->Err_0 == ResourceConflict::ControllerAlreadyLive,
            !old(slot).is_taken() && old(allocator)@[door_lock_pin()] ==> !final(slot).is_taken()
                && final(allocator)@ == old(allocator)@ && r->Err_0
                == ResourceConflict::PinAlreadyTaken,
            r is Ok ==> ({
                let home = r->Ok_0;
                let ctrl = home.gpio_controller->Some_0;
                &&& final(slot).is_taken()
                &&& final(allocator)@ == old(allocator)@.update(door_lock_pin(), true)
                &&& home.wf()
                &&& home.gpio_controller is Some
                &&& home.gpio_output_pin is Some
                &&& home.gpio_output_pin->Some_0.number() == door_lock_pin()
                &&& !home.doorlock.is_open
                &&& ctrl.journal() == Seq::<RegisterOp>::empty().push(
                    output_mode_op(door_lock_pin()),
                )
                &&& forall|i: int|
                    0 <= i < GPFSEL_WORD_COUNT ==> ctrl.fsel()[i] == (if i == fsel_index(
                        door_lock_pin(),
                    ) {
                        with_output_mode(0u32, door_lock_pin())
                    } else {
                        0u32
                    })
                &&& forall|i: int| 0 <= i < GPIO_PIN_COUNT ==> !ctrl.levels()[i]
            }),
    {
        let mut gpio_controller = match GpioController::get_the_gpio_controller(slot) {
            Ok(c) => c,
            Err(e) => {
                return Err(e);
            },
        };
        let gpio_pin = match GpioPin::new(&GpioPinAvailable::Gpio21, allocator) {
            Ok(p) => p,
            Err(e) => {
                let _ = gpio_controller.release(slot);
                return Err(e);
            },
        };
        let gpio_output_pin = GpioOutputPin::new(gpio_pin, &mut gpio_controller);
        Ok(
            SmartHome {
                gpio_controller: Some(gpio_controller),
                gpio_output_pin: Some(gpio_output_pin),
                doorlock: DoorLock::new(),
            },
        )
    }

    /// The fake-mode dispatcher state: no hardware handles, the lock
    /// starting closed. Events route exactly as in hardware mode; no
    /// registry is touched and no operation is journalled.
    pub fn new_fake() -> (r: SmartHome)
        ensures
            r.wf(),
            r.gpio_controller is None,
            r.gpio_output_pin is None,
            !r.doorlock.is_open,
    {
        SmartHome {
            gpio_controller: None,
            gpio_output_pin: None,
            doorlock: DoorLock::new(),
        }
    }

    /// Route one event to its door-lock effect. The door state becomes
    /// `routed_open` of the old state and the event — with or without
    /// hardware attached — and with hardware attached the controller takes
    /// exactly the drive operation the event asks for, or none. Connection
    /// notices and the end of a connection change nothing here; the loop
    /// around the dispatcher may log them. An empty read is ignored: the
    /// buffer is not touched.
    pub fn process_event(&mut self, event: Event)
        requires
            old(self).wf(),
            event.wf(),
        ensures
            final(self).wf(),
            final(self).doorlock.is_open == routed_open(old(self).doorlock.is_open, event),
            final(self).gpio_output_pin == old(self).gpio_output_pin,
            ({
                let drive = event_drive(old(self).doorlock.is_open, event);
                match drive {
                    Some(high) => hardware_drive_effect(
                        old(self).gpio_controller,
                        final(self).gpio_controller,
                        old(self).gpio_output_pin,
                        final(self).gpio_output_pin,
                        high,
                    ),
                    None => final(self).gpio_controller == old(self).gpio_controller,
                }
            }),
    {
        match event {
            Event::KeyPressed => {
                self.doorlock.toggle(&mut self.gpio_controller, &mut self.gpio_output_pin);
            },
            Event::TcpRead(size, bytes) => {
                if size == 0 {
                    return ;
                }
                if bytes[0] == TCP_TOGGLE_BYTE {
                    self.doorlock.toggle(&mut self.gpio_controller, &mut self.gpio_output_pin);
                } else if bytes[0] == TCP_OPEN_BYTE {
                    self.doorlock.open(&mut self.gpio_controller, &mut self.gpio_output_pin);
                }
            },
            _ => {},
        }
    }
}

} // verus!
