//! Hardware-mode scenarios: the same routing as fake mode, and the exact
//! register operations the controller journals for the hardware layer.

use smarthome::event::Event;
use smarthome::gpio::GpioOutputPin;
use smarthome::gpio::GpioPin;
use smarthome::gpio::GpioPinAvailable;
use smarthome::ownership::ControllerSlot;
use smarthome::ownership::PinAllocator;
use smarthome::registers::RegisterOp;
use smarthome::smarthome::SmartHome;

// The door pin is BCM 21: function-select word 21/10 = 2 with field shift
// (21%10)*3 = 3; set word 0x1c and clear word 0x28, bit 21.
const FSEL_OP_PIN21: RegisterOp = RegisterOp::ReadModifyWrite { offset: 2, mask: 0b111 << 3, value: 0b001 << 3 };
const SET_OP_PIN21: RegisterOp = RegisterOp::Write { offset: 0x1c, value: 1 << 21 };
const CLEAR_OP_PIN21: RegisterOp = RegisterOp::Write { offset: 0x28, value: 1 << 21 };

fn hardware_home() -> SmartHome {
    let mut slot = ControllerSlot::new();
    let mut allocator = PinAllocator::new();
    SmartHome::new(&mut slot, &mut allocator).unwrap()
}

fn drain(home: &mut SmartHome) -> Vec<RegisterOp> {
    home.gpio_controller.as_mut().unwrap().take_pending()
}

#[test]
fn construction_journals_the_output_mode_configuration() {
    let mut home = hardware_home();
    assert_eq!(drain(&mut home), vec![FSEL_OP_PIN21]);
    // the journal was drained: nothing is owed until the next operation
    assert_eq!(drain(&mut home), vec![]);
}

#[test]
fn construction_fails_while_a_controller_is_live() {
    let mut slot = ControllerSlot::new();
    let mut allocator = PinAllocator::new();
    let first = SmartHome::new(&mut slot, &mut allocator);
    assert!(first.is_ok());
    let second = SmartHome::new(&mut slot, &mut allocator);
    assert!(second.is_err());
}

#[test]
fn key_pressed_on_closed_door_issues_set_high() {
    let mut home = hardware_home();
    drain(&mut home);
    home.process_event(Event::KeyPressed);
    assert!(home.doorlock.is_open);
    assert_eq!(drain(&mut home), vec![SET_OP_PIN21]);
}

#[test]
fn key_pressed_on_open_door_issues_set_low() {
    let mut home = hardware_home();
    home.process_event(Event::KeyPressed);
    drain(&mut home);
    home.process_event(Event::KeyPressed);
    assert!(!home.doorlock.is_open);
    assert_eq!(drain(&mut home), vec![CLEAR_OP_PIN21]);
}

#[test]
fn tcp_one_toggles_and_journals_both_directions() {
    let mut home = hardware_home();
    drain(&mut home);
    home.process_event(Event::TcpRead(1, vec![49]));
    assert!(home.doorlock.is_open);
    home.process_event(Event::TcpRead(1, vec![49]));
    assert!(!home.doorlock.is_open);
    assert_eq!(drain(&mut home), vec![SET_OP_PIN21, CLEAR_OP_PIN21]);
}

#[test]
fn tcp_zero_forces_open_and_issues_set_high() {
    let mut home = hardware_home();
    drain(&mut home);
    home.process_event(Event::TcpRead(1, vec![48]));
    assert!(home.doorlock.is_open);
    home.process_event(Event::TcpRead(1, vec![48]));
    assert!(home.doorlock.is_open);
    // forcing open drives the pin high each time, even when already open
    assert_eq!(drain(&mut home), vec![SET_OP_PIN21, SET_OP_PIN21]);
}

#[test]
fn silent_events_journal_nothing() {
    let mut home = hardware_home();
    drain(&mut home);
    home.process_event(Event::NoEvent);
    home.process_event(Event::TcpRead(0, vec![]));
    home.process_event(Event::TcpRead(1, vec![120]));
    home.process_event(Event::TcpNewConnection(String::from("127.0.0.1:8080")));
    home.process_event(Event::TcpEnd);
    assert!(!home.doorlock.is_open);
    assert_eq!(drain(&mut home), vec![]);
}

#[test]
fn close_twice_issues_set_low_twice() {
    let mut home = hardware_home();
    drain(&mut home);
    home.doorlock.close(&mut home.gpio_controller, &mut home.gpio_output_pin);
    assert!(!home.doorlock.is_open);
    home.doorlock.close(&mut home.gpio_controller, &mut home.gpio_output_pin);
    assert!(!home.doorlock.is_open);
    assert_eq!(drain(&mut home), vec![CLEAR_OP_PIN21, CLEAR_OP_PIN21]);
}

#[test]
fn configuring_another_pin_touches_a_different_field() {
    let mut slot = ControllerSlot::new();
    let mut allocator = PinAllocator::new();
    let mut controller =
        smarthome::gpio::GpioController::get_the_gpio_controller(&mut slot).unwrap();
    let pin = GpioPin::new(&GpioPinAvailable::Gpio4, &mut allocator).unwrap();
    let _output = GpioOutputPin::new(pin, &mut controller);
    // BCM 4 sits in function-select word 0, field shift (4%10)*3 = 12
    assert_eq!(
        controller.take_pending(),
        vec![RegisterOp::ReadModifyWrite { offset: 0, mask: 0b111 << 12, value: 0b001 << 12 }]
    );
}
