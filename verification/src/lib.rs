//! A verified control core for a single-board door-lock actuator.
//!
//! The crate models the memory-mapped GPIO register interface of the board,
//! enforces exclusive ownership of pins and of the controller singleton, and
//! routes input events to door-lock effects. The unverified binary around it
//! only performs the raw I/O: it maps the device registers, reads lines and
//! sockets, and applies the register operations this library computes.

pub mod doorlock;
pub mod event;
pub mod gpio;
pub mod ownership;
pub mod registers;
pub mod smarthome;
