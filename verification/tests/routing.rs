//! Routing scenarios in fake mode: no hardware handles, the door state
//! still follows the routing table.

use smarthome::event::Event;
use smarthome::smarthome::SmartHome;

#[test]
fn key_pressed_opens_a_closed_door() {
    let mut home = SmartHome::new_fake();
    assert!(!home.doorlock.is_open);
    home.process_event(Event::KeyPressed);
    assert!(home.doorlock.is_open);
}

#[test]
fn key_pressed_closes_an_open_door() {
    let mut home = SmartHome::new_fake();
    home.process_event(Event::KeyPressed);
    home.process_event(Event::KeyPressed);
    assert!(!home.doorlock.is_open);
}

#[test]
fn tcp_one_toggles_regardless_of_state() {
    let mut home = SmartHome::new_fake();
    home.process_event(Event::TcpRead(1, vec![49]));
    assert!(home.doorlock.is_open);
    home.process_event(Event::TcpRead(1, vec![49]));
    assert!(!home.doorlock.is_open);
}

#[test]
fn tcp_zero_forces_open() {
    let mut home = SmartHome::new_fake();
    home.process_event(Event::TcpRead(1, vec![48]));
    assert!(home.doorlock.is_open);
    // already open: stays open
    home.process_event(Event::TcpRead(1, vec![48]));
    assert!(home.doorlock.is_open);
}

#[test]
fn empty_read_changes_nothing() {
    let mut home = SmartHome::new_fake();
    home.process_event(Event::TcpRead(0, vec![]));
    assert!(!home.doorlock.is_open);
    home.process_event(Event::KeyPressed);
    home.process_event(Event::TcpRead(0, vec![]));
    assert!(home.doorlock.is_open);
}

#[test]
fn no_event_changes_nothing() {
    let mut home = SmartHome::new_fake();
    home.process_event(Event::NoEvent);
    assert!(!home.doorlock.is_open);
    home.process_event(Event::KeyPressed);
    home.process_event(Event::NoEvent);
    assert!(home.doorlock.is_open);
}

#[test]
fn other_bytes_change_nothing() {
    let mut home = SmartHome::new_fake();
    home.process_event(Event::TcpRead(1, vec![120]));
    assert!(!home.doorlock.is_open);
    home.process_event(Event::TcpRead(2, vec![50, 49]));
    assert!(!home.doorlock.is_open);
}

#[test]
fn only_the_first_byte_is_routed() {
    let mut home = SmartHome::new_fake();
    home.process_event(Event::TcpRead(2, vec![49, 48]));
    assert!(home.doorlock.is_open);
    home.process_event(Event::TcpRead(2, vec![49, 48]));
    assert!(!home.doorlock.is_open);
}

#[test]
fn connection_notices_change_nothing() {
    let mut home = SmartHome::new_fake();
    home.process_event(Event::TcpNewConnection(String::from("127.0.0.1:8080")));
    assert!(!home.doorlock.is_open);
    home.process_event(Event::TcpEnd);
    assert!(!home.doorlock.is_open);
}

#[test]
fn close_twice_keeps_the_door_closed() {
    let mut home = SmartHome::new_fake();
    home.process_event(Event::KeyPressed);
    assert!(home.doorlock.is_open);
    home.doorlock.close(&mut home.gpio_controller, &mut home.gpio_output_pin);
    assert!(!home.doorlock.is_open);
    home.doorlock.close(&mut home.gpio_controller, &mut home.gpio_output_pin);
    assert!(!home.doorlock.is_open);
}
