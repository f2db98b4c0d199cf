//! Ownership scenarios: pin exclusivity, acquire/release round trips, and
//! the controller singleton.

use smarthome::gpio::GpioController;
use smarthome::gpio::GpioPin;
use smarthome::gpio::GpioPinAvailable;
use smarthome::ownership::ControllerSlot;
use smarthome::ownership::PinAllocator;
use smarthome::ownership::ResourceConflict;

#[test]
fn second_acquire_of_same_pin_fails() {
    let mut allocator = PinAllocator::new();
    assert_eq!(allocator.acquire(21), Ok(()));
    assert_eq!(allocator.acquire(21), Err(ResourceConflict::PinAlreadyTaken));
}

#[test]
fn acquire_release_round_trip_succeeds_and_ends_released() {
    let mut allocator = PinAllocator::new();
    assert_eq!(allocator.acquire(17), Ok(()));
    assert_eq!(allocator.release(17), Ok(()));
    assert_eq!(allocator.acquire(17), Ok(()));
    assert_eq!(allocator.release(17), Ok(()));
    // the table ends released: the pin can be acquired once more
    assert_eq!(allocator.acquire(17), Ok(()));
}

#[test]
fn releasing_a_free_pin_fails() {
    let mut allocator = PinAllocator::new();
    assert_eq!(allocator.release(4), Err(ResourceConflict::PinAlreadyFree));
}

#[test]
fn acquires_of_distinct_pins_are_independent() {
    let mut allocator = PinAllocator::new();
    assert_eq!(allocator.acquire(20), Ok(()));
    assert_eq!(allocator.acquire(21), Ok(()));
}

#[test]
fn second_pin_handle_fails_while_first_is_live() {
    let mut allocator = PinAllocator::new();
    let first = GpioPin::new(&GpioPinAvailable::Gpio21, &mut allocator);
    assert!(first.is_ok());
    let second = GpioPin::new(&GpioPinAvailable::Gpio21, &mut allocator);
    assert!(matches!(second, Err(ResourceConflict::PinAlreadyTaken)));
    assert_eq!(first.unwrap().release(&mut allocator), Ok(()));
    let third = GpioPin::new(&GpioPinAvailable::Gpio21, &mut allocator);
    assert!(third.is_ok());
}

#[test]
fn second_controller_fails_while_first_is_live() {
    let mut slot = ControllerSlot::new();
    let first = GpioController::get_the_gpio_controller(&mut slot);
    assert!(first.is_ok());
    let second = GpioController::get_the_gpio_controller(&mut slot);
    assert!(matches!(second, Err(ResourceConflict::ControllerAlreadyLive)));
}

#[test]
fn controller_succeeds_again_after_release() {
    let mut slot = ControllerSlot::new();
    let first = GpioController::get_the_gpio_controller(&mut slot).unwrap();
    assert_eq!(first.release(&mut slot), Ok(()));
    let second = GpioController::get_the_gpio_controller(&mut slot);
    assert!(second.is_ok());
}

#[test]
fn releasing_the_controller_flag_twice_fails() {
    let mut slot = ControllerSlot::new();
    let controller = GpioController::get_the_gpio_controller(&mut slot).unwrap();
    assert_eq!(controller.release(&mut slot), Ok(()));
    assert_eq!(slot.release(), Err(ResourceConflict::ControllerAlreadyReleased));
}
