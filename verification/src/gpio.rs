//! Pin handles and the GPIO controller.
//!
//! `GpioPinAvailable` names every pin the board offers to this crate, in the
//! vendor (BCM) numbering. `GpioPin` is the scoped handle of one allocation
//! in the [`PinAllocator`] table; `GpioOutputPin` combines an allocation with
//! the fact that the pin is configured as an output. Exactly one handle may
//! exist per pin at a time, and releasing the handle frees the allocation.
//!
//! `GpioController` is the single owner of the register block. It keeps the
//! verified model of the hardware it drives — the function-select shadow,
//! the level each pin is driven to — and a journal of the word operations
//! the register block must receive. The unverified hardware layer drains the
//! journal with [`GpioController::take_pending`] and applies each operation
//! to the mapped device registers; in test mode nothing drains it and no
//! hardware is touched. Set and clear go through write-1 stores, so driving
//! a pin never needs a read-modify-write and cannot race another pin's bit;
//! the mode configuration is a masked read-modify-write, so it preserves the
//! fields of the other pins whatever the device held.
//!
//! At most one controller is live per process: construction claims the
//! [`ControllerSlot`] flag and fails with a `ResourceConflict` while another
//! instance holds it. The single live controller is in turn driven by a
//! single loop, which is what makes the shadow faithful to the device.

use vstd::prelude::*;

use crate::ownership::ControllerSlot;
use crate::ownership::PinAllocator;
use crate::ownership::ResourceConflict;
use crate::ownership::pin_acquire_ok;
use crate::ownership::pin_acquire_post;
use crate::ownership::pin_release_ok;
use crate::ownership::pin_release_post;
use crate::ownership::slot_acquire_ok;
use crate::ownership::slot_acquire_post;
use crate::ownership::slot_release_ok;
use crate::ownership::slot_release_post;
use crate::registers::GPFSEL0_OFFSET;
use crate::registers::GPFSEL_BITS_PER_PIN;
use crate::registers::GPFSEL_PINS_PER_REGISTER;
use crate::registers::GPFSEL_WORD_COUNT;
use crate::registers::GPCLR0_OFFSET;
use crate::registers::GPCLR_PINS_PER_REGISTER;
use crate::registers::GPIO_PIN_COUNT;
use crate::registers::GPSET0_OFFSET;
use crate::registers::GPSET_PINS_PER_REGISTER;
use crate::registers::OUTPUT_MODE_BITS;
use crate::registers::RegisterOp;
use crate::registers::fsel_index;
use crate::registers::output_mode_op;
use crate::registers::set_high_op;
use crate::registers::set_low_op;
use crate::registers::valid_pin;
use crate::registers::with_output_mode;

verus! {

/// The pins available on the board, in the vendor (BCM) numbering. Pins 0
/// and 1 are reserved for the identification EEPROM and are not offered.
#[derive(Copy, Clone)]
pub enum GpioPinAvailable {
    Gpio2,
    Gpio3,
    Gpio4,
    Gpio17,
    Gpio27,
    Gpio22,
    Gpio10,
    Gpio9,
    Gpio11,
    Gpio5,
    Gpio6,
    Gpio13,
    Gpio19,
    Gpio26,
    Gpio14,
    Gpio15,
    Gpio18,
    Gpio23,
    Gpio24,
    Gpio25,
    Gpio8,
    Gpio7,
    Gpio12,
    Gpio16,
    Gpio20,
    Gpio21,
}

impl GpioPinAvailable {
    /// The vendor (BCM) number of this pin.
    pub open spec fn bcm_number(&self) -> usize {
        match *self {
            GpioPinAvailable::Gpio2 => 2,
            GpioPinAvailable::Gpio3 => 3,
            GpioPinAvailable::Gpio4 => 4,
            GpioPinAvailable::Gpio17 => 17,
            GpioPinAvailable::Gpio27 => 27,
            GpioPinAvailable::Gpio22 => 22,
            GpioPinAvailable::Gpio10 => 10,
            GpioPinAvailable::Gpio9 => 9,
            GpioPinAvailable::Gpio11 => 11,
            GpioPinAvailable::Gpio5 => 5,
            GpioPinAvailable::Gpio6 => 6,
            GpioPinAvailable::Gpio13 => 13,
            GpioPinAvailable::Gpio19 => 19,
            GpioPinAvailable::Gpio26 => 26,
            GpioPinAvailable::Gpio14 => 14,
            GpioPinAvailable::Gpio15 => 15,
            GpioPinAvailable::Gpio18 => 18,
            GpioPinAvailable::Gpio23 => 23,
            GpioPinAvailable::Gpio24 => 24,
            GpioPinAvailable::Gpio25 => 25,
            GpioPinAvailable::Gpio8 => 8,
            GpioPinAvailable::Gpio7 => 7,
            GpioPinAvailable::Gpio12 => 12,
            GpioPinAvailable::Gpio16 => 16,
            GpioPinAvailable::Gpio20 => 20,
            GpioPinAvailable::Gpio21 => 21,
        }
    }

    /// Return the BCM GPIO pin number of this pin. Every offered pin lies in
    /// the supported range.
    pub fn to_bcm_gpio_pin_number(&self) -> (r: usize)
        ensures
            r == self.bcm_number(),
            valid_pin(r as int),
    {
        match *self {
            GpioPinAvailable::Gpio2 => 2,
            GpioPinAvailable::Gpio3 => 3,
            GpioPinAvailable::Gpio4 => 4,
            GpioPinAvailable::Gpio17 => 17,
            GpioPinAvailable::Gpio27 => 27,
            GpioPinAvailable::Gpio22 => 22,
            GpioPinAvailable::Gpio10 => 10,
            GpioPinAvailable::Gpio9 => 9,
            GpioPinAvailable::Gpio11 => 11,
            GpioPinAvailable::Gpio5 => 5,
            GpioPinAvailable::Gpio6 => 6,
            GpioPinAvailable::Gpio13 => 13,
            GpioPinAvailable::Gpio19 => 19,
            GpioPinAvailable::Gpio26 => 26,
            GpioPinAvailable::Gpio14 => 14,
            GpioPinAvailable::Gpio15 => 15,
            GpioPinAvailable::Gpio18 => 18,
            GpioPinAvailable::Gpio23 => 23,
            GpioPinAvailable::Gpio24 => 24,
            GpioPinAvailable::Gpio25 => 25,
            GpioPinAvailable::Gpio8 => 8,
            GpioPinAvailable::Gpio7 => 7,
            GpioPinAvailable::Gpio12 => 12,
            GpioPinAvailable::Gpio16 => 16,
            GpioPinAvailable::Gpio20 => 20,
            GpioPinAvailable::Gpio21 => 21,
        }
    }
}

/// The scoped handle of one pin allocation. While the handle lives, the
/// allocator keeps the pin taken and no second handle for it can be made.
pub struct GpioPin {
    pub(crate) bcm_gpio_pin_number: usize,
}

impl GpioPin {
    /// The vendor (BCM) number of the allocated pin.
    pub closed spec fn number(&self) -> usize {
        self.bcm_gpio_pin_number
    }

    /// The handle holds a supported pin number.
    pub open spec fn wf(&self) -> bool {
        valid_pin(self.number() as int)
    }

    /// Acquire the wanted pin from the allocator and return its handle, or
    /// fail while a handle for it is live, leaving the table unchanged.
    pub fn new(gpio_pin_wanted: &GpioPinAvailable, allocator: &mut PinAllocator) -> (r: Result<
        GpioPin,
        ResourceConflict,
    >)
        requires
            old(allocator).wf(),
        ensures
            final(allocator).wf(),
            r is Ok <==> pin_acquire_ok(old(allocator)@, gpio_pin_wanted.bcm_number() as int),
            final(allocator)@ == pin_acquire_post(
                old(allocator)@,
                gpio_pin_wanted.bcm_number() as int,
            ),
            r is Ok ==> r->Ok_0.wf() && r->Ok_0.number() == gpio_pin_wanted.bcm_number(),
            r is Err ==> r->Err_0 == ResourceConflict::PinAlreadyTaken,
    {
        let bcm_gpio_pin_number = gpio_pin_wanted.to_bcm_gpio_pin_number();
        match allocator.acquire(bcm_gpio_pin_number) {
            Ok(()) => Ok(GpioPin { bcm_gpio_pin_number }),
            Err(e) => Err(e),
        }
    }

    /// Give the allocation back; fail if the table already shows the pin
    /// free — a double release signals a defect.
    pub fn release(self, allocator: &mut PinAllocator) -> (r: Result<(), ResourceConflict>)
        requires
            old(allocator).wf(),
            self.wf(),
        ensures
            final(allocator).wf(),
            r is Ok <==> pin_release_ok(old(allocator)@, self.number() as int),
            final(allocator)@ == pin_release_post(old(allocator)@, self.number() as int),
            r is Err ==> r->Err_0 == ResourceConflict::PinAlreadyFree,
    {
        allocator.release(self.bcm_gpio_pin_number)
    }
}

/// An allocated pin configured as an output. The inner [`GpioPin`] is kept
/// so the allocation stays live exactly as long as this handle.
pub struct GpioOutputPin {
    pub(crate) bcm_gpio_pin_number: usize,
    gpio_pin: GpioPin,
}

impl GpioOutputPin {
    /// The vendor (BCM) number of the pin.
    pub closed spec fn number(&self) -> usize {
        self.bcm_gpio_pin_number
    }

    /// The handle holds a supported pin number, the same one as its
    /// allocation.
    pub closed spec fn wf(&self) -> bool {
        &&& valid_pin(self.number() as int)
        &&& self.gpio_pin.number() == self.number()
    }

    /// Turn an allocated pin into an output pin: configures the pin's mode
    /// field through the controller and returns the combined handle.
    pub fn new(gpio_pin: GpioPin, gpio_controller: &mut GpioController) -> (r: GpioOutputPin)
        requires
            gpio_pin.wf(),
            old(gpio_controller).wf(),
        ensures
            r.wf(),
            r.number() == gpio_pin.number(),
            final(gpio_controller).wf(),
            set_output_mode_effect(
                *old(gpio_controller),
                *final(gpio_controller),
                gpio_pin.number() as int,
            ),
    {
        let mut gpio_output_pin = GpioOutputPin {
            bcm_gpio_pin_number: gpio_pin.bcm_gpio_pin_number,
            gpio_pin,
        };
        gpio_controller.set_output_mode(&mut gpio_output_pin);
        gpio_output_pin
    }

    /// Give the pin's allocation back; fail if the table already shows the
    /// pin free — a double release signals a defect.
    pub fn release(self, allocator: &mut PinAllocator) -> (r: Result<(), ResourceConflict>)
        requires
            old(allocator).wf(),
            self.wf(),
        ensures
            final(allocator).wf(),
            r is Ok <==> pin_release_ok(old(allocator)@, self.number() as int),
            final(allocator)@ == pin_release_post(old(allocator)@, self.number() as int),
            r is Err ==> r->Err_0 == ResourceConflict::PinAlreadyFree,
    {
        self.gpio_pin.release(allocator)
    }
}


/// Controller of the GPIO register block. Holds the function-select shadow,
/// the driven level of each pin, and the journal of operations owed to the
/// device.
pub struct GpioController {
    /// Shadow of the function-select words, updated by the same masked
    /// operations the device receives.
    fsel: Vec<u32>,
    /// The level each pin is driven to, indexed by BCM number; `false` until
    /// a set operation drives the pin high.
    levels: Vec<bool>,
    /// Register operations issued but not yet applied to the device.
    pending: Vec<RegisterOp>,
}

impl GpioController {
    /// The function-select shadow.
    pub closed spec fn fsel(&self) -> Seq<u32> {
        self.fsel@
    }

    /// The driven level per pin.
    pub closed spec fn levels(&self) -> Seq<bool> {
        self.levels@
    }

    /// The operations owed to the device, oldest first.
    pub closed spec fn journal(&self) -> Seq<RegisterOp> {
        self.pending@
    }

    /// The model covers every function-select word and every pin.
    pub open spec fn wf(&self) -> bool {
        &&& self.fsel().len() == GPFSEL_WORD_COUNT
        &&& self.levels().len() == GPIO_PIN_COUNT
    }

    /// A controller as constructed: every mode field zero, no pin driven,
    /// nothing owed to the device.
    pub open spec fn is_initial(&self) -> bool {
        &&& self.wf()
        &&& forall|i: int| 0 <= i < GPFSEL_WORD_COUNT ==> self.fsel()[i] == 0u32
        &&& forall|i: int| 0 <= i < GPIO_PIN_COUNT ==> !self.levels()[i]
        &&& self.journal() == Seq::<RegisterOp>::empty()
    }

    /// Give back the singleton controller, or fail while one is live.
    ///
    /// Claims the process-wide flag; on success the flag is held until
    /// [`GpioController::release`] gives it back, and the returned controller
    /// starts from the initial model state.
    pub fn get_the_gpio_controller(slot: &mut ControllerSlot) -> (r: Result<
        GpioController,
        ResourceConflict,
    >)
        ensures
            r is Ok <==> slot_acquire_ok(old(slot).is_taken()),
            final(slot).is_taken() == slot_acquire_post(old(slot).is_taken()),
            r is Ok ==> r->Ok_0.is_initial(),
            r is Err ==> r->Err_0 == ResourceConflict::ControllerAlreadyLive,
    {
        match slot.acquire() {
            Ok(()) => Ok(GpioController::new()),
            Err(e) => Err(e),
        }
    }

    /// The initial model: zeroed shadow, no pin driven, empty journal.
    fn new() -> (r: GpioController)
        ensures
            r.is_initial(),
    {
        let mut fsel: Vec<u32> = Vec::new();
        while fsel.len() < GPFSEL_WORD_COUNT
            invariant
                fsel@.len() <= GPFSEL_WORD_COUNT,
                forall|i: int| 0 <= i < fsel@.len() ==> fsel@[i] == 0u32,
            decreases GPFSEL_WORD_COUNT - fsel.len(),
        {
            fsel.push(0u32);
        }
        let mut levels: Vec<bool> = Vec::new();
        while levels.len() < GPIO_PIN_COUNT
            invariant
                levels@.len() <= GPIO_PIN_COUNT,
                forall|i: int| 0 <= i < levels@.len() ==> !levels@[i],
            decreases GPIO_PIN_COUNT - levels.len(),
        {
            levels.push(false);
        }
        GpioController { fsel, levels, pending: Vec::new() }
    }

    /// Drive the passed output pin high: mark its level and owe the device
    /// the write-1-to-set store for exactly that pin's bit.
    pub fn set_high(&mut self, gpio_output_pin: &mut GpioOutputPin)
        requires
            old(self).wf(),
            old(gpio_output_pin).wf(),
        ensures
            final(self).wf(),
            set_high_effect(*old(self), *final(self), old(gpio_output_pin).number() as int),
            *final(gpio_output_pin) == *old(gpio_output_pin),
    {
        let n = gpio_output_pin.bcm_gpio_pin_number;
        let offset = GPSET0_OFFSET + n / GPSET_PINS_PER_REGISTER;
        let shift = (n % GPSET_PINS_PER_REGISTER) as u32;
        self.levels[n] = true;
        self.pending.push(RegisterOp::Write { offset, value: 1u32 << shift });
    }

    /// Drive the passed output pin low: mark its level and owe the device
    /// the write-1-to-clear store for exactly that pin's bit.
    pub fn set_low(&mut self, gpio_output_pin: &mut GpioOutputPin)
        requires
            old(self).wf(),
            old(gpio_output_pin).wf(),
        ensures
            final(self).wf(),
            set_low_effect(*old(self), *final(self), old(gpio_output_pin).number() as int),
            *final(gpio_output_pin) == *old(gpio_output_pin),
    {
        let n = gpio_output_pin.bcm_gpio_pin_number;
        let offset = GPCLR0_OFFSET + n / GPCLR_PINS_PER_REGISTER;
        let shift = (n % GPCLR_PINS_PER_REGISTER) as u32;
        self.levels[n] = false;
        self.pending.push(RegisterOp::Write { offset, value: 1u32 << shift });
    }

    /// Configure the passed pin as an output: a masked read-modify-write of
    /// its three-bit mode field, leaving every other pin's field unchanged.
    pub fn set_output_mode(&mut self, gpio_pin: &mut GpioOutputPin)
        requires
            old(self).wf(),
            old(gpio_pin).wf(),
        ensures
            final(self).wf(),
            set_output_mode_effect(*old(self), *final(self), old(gpio_pin).number() as int),
            *final(gpio_pin) == *old(gpio_pin),
    {
        let n = gpio_pin.bcm_gpio_pin_number;
        let index = n / GPFSEL_PINS_PER_REGISTER;
        let shift = ((n % GPFSEL_PINS_PER_REGISTER) * GPFSEL_BITS_PER_PIN) as u32;
        let mask = 0b111u32 << shift;
        let value = OUTPUT_MODE_BITS << shift;
        let reg_value = self.fsel[index];
        self.fsel[index] = (reg_value & !mask) | value;
        self.pending.push(
            RegisterOp::ReadModifyWrite { offset: GPFSEL0_OFFSET + index, mask, value },
        );
    }

    /// Hand the journal to the hardware layer: returns every operation owed
    /// so far, oldest first, and leaves the journal empty. The model state is
    /// untouched.
    pub fn take_pending(&mut self) -> (r: Vec<RegisterOp>)
        ensures
            r@ == old(self).journal(),
            final(self).journal() == Seq::<RegisterOp>::empty(),
            final(self).fsel() == old(self).fsel(),
            final(self).levels() == old(self).levels(),
    {
        let mut drained: Vec<RegisterOp> = Vec::new();
        core::mem::swap(&mut self.pending, &mut drained);
        drained
    }

    /// Tear the controller down and give the singleton flag back; fail if
    /// the flag was already free — a double release signals a defect.
    pub fn release(self, slot: &mut ControllerSlot) -> (r: Result<(), ResourceConflict>)
        ensures
            r is Ok <==> slot_release_ok(old(slot).is_taken()),
            final(slot).is_taken() == slot_release_post(old(slot).is_taken()),
            r is Err ==> r->Err_0 == ResourceConflict::ControllerAlreadyReleased,
    {
        slot.release()
    }
}

/// What a `set_high` call does to the controller: the pin's level goes high,
/// the shadow is untouched, and the journal grows by the pin's set store.
pub open spec fn set_high_effect(pre: GpioController, post: GpioController, pin: int) -> bool {
    &&& post.levels() == pre.levels().update(pin, true)
    &&& post.fsel() == pre.fsel()
    &&& post.journal() == pre.journal().push(set_high_op(pin))
}

/// What a `set_low` call does to the controller: the pin's level goes low,
/// the shadow is untouched, and the journal grows by the pin's clear store.
pub open spec fn set_low_effect(pre: GpioController, post: GpioController, pin: int) -> bool {
    &&& post.levels() == pre.levels().update(pin, false)
    &&& post.fsel() == pre.fsel()
    &&& post.journal() == pre.journal().push(set_low_op(pin))
}

/// What a `set_output_mode` call does to the controller: the pin's mode
/// field in its shadow word becomes the output configuration, levels are
/// untouched, and the journal grows by the masked read-modify-write.
pub open spec fn set_output_mode_effect(
    pre: GpioController,
    post: GpioController,
    pin: int,
) -> bool {
    &&& post.fsel() == pre.fsel().update(
        fsel_index(pin),
        with_output_mode(pre.fsel()[fsel_index(pin)], pin),
    )
    &&& post.levels() == pre.levels()
    &&& post.journal() == pre.journal().push(output_mode_op(pin))
}

} // verus!
