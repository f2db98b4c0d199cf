//! Pin numbering and the per-pin drive operations.

use smarthome::gpio::GpioController;
use smarthome::gpio::GpioOutputPin;
use smarthome::gpio::GpioPin;
use smarthome::gpio::GpioPinAvailable;
use smarthome::ownership::ControllerSlot;
use smarthome::ownership::PinAllocator;
use smarthome::registers::RegisterOp;

#[test]
fn bcm_numbers_follow_the_vendor_convention() {
    assert_eq!(GpioPinAvailable::Gpio2.to_bcm_gpio_pin_number(), 2);
    assert_eq!(GpioPinAvailable::Gpio9.to_bcm_gpio_pin_number(), 9);
    assert_eq!(GpioPinAvailable::Gpio21.to_bcm_gpio_pin_number(), 21);
    assert_eq!(GpioPinAvailable::Gpio27.to_bcm_gpio_pin_number(), 27);
}

fn output_pin(wanted: &GpioPinAvailable, controller: &mut GpioController) -> GpioOutputPin {
    let mut allocator = PinAllocator::new();
    let pin = GpioPin::new(wanted, &mut allocator).unwrap();
    GpioOutputPin::new(pin, controller)
}

#[test]
fn set_high_and_set_low_address_the_dedicated_registers() {
    let mut slot = ControllerSlot::new();
    let mut controller = GpioController::get_the_gpio_controller(&mut slot).unwrap();
    let mut output = output_pin(&GpioPinAvailable::Gpio27, &mut controller);
    controller.take_pending();
    controller.set_high(&mut output);
    controller.set_low(&mut output);
    assert_eq!(
        controller.take_pending(),
        vec![
            RegisterOp::Write { offset: 0x1c, value: 1 << 27 },
            RegisterOp::Write { offset: 0x28, value: 1 << 27 },
        ]
    );
}

#[test]
fn distinct_pins_drive_distinct_bits() {
    let mut slot = ControllerSlot::new();
    let mut controller = GpioController::get_the_gpio_controller(&mut slot).unwrap();
    let mut allocator = PinAllocator::new();
    let mut low = GpioOutputPin::new(
        GpioPin::new(&GpioPinAvailable::Gpio2, &mut allocator).unwrap(),
        &mut controller,
    );
    let mut high = GpioOutputPin::new(
        GpioPin::new(&GpioPinAvailable::Gpio3, &mut allocator).unwrap(),
        &mut controller,
    );
    controller.take_pending();
    controller.set_high(&mut low);
    controller.set_high(&mut high);
    let ops = controller.take_pending();
    assert_eq!(
        ops,
        vec![
            RegisterOp::Write { offset: 0x1c, value: 1 << 2 },
            RegisterOp::Write { offset: 0x1c, value: 1 << 3 },
        ]
    );
    // same word, disjoint bits: neither store can touch the other pin
    if let (RegisterOp::Write { value: a, .. }, RegisterOp::Write { value: b, .. }) =
        (ops[0], ops[1])
    {
        assert_eq!(a & b, 0);
    } else {
        panic!("expected two plain stores");
    }
}
