//! The closed union of events that the input sources produce.
//!
//! Every source hands the dispatcher plain values: a keyboard line becomes
//! `KeyPressed`, a fresh network connection `TcpNewConnection` with the peer
//! address rendered as text, a socket read `TcpRead` with the number of bytes
//! read and the buffer, and a closed connection `TcpEnd`. `None` stands for
//! "nothing queued this tick" and is not an error.

use vstd::prelude::*;

verus! {

/// An event fetched from one of the input sources.
pub enum Event {
    /// No event was queued; the dispatcher does nothing this tick.
    NoEvent,
    /// A full line arrived on the keyboard source, whatever its content.
    KeyPressed,
    /// A client connected; the payload is the peer address rendered as text.
    TcpNewConnection(String),
    /// Bytes arrived on the active connection: the count read and the buffer.
    TcpRead(usize, Vec<u8>),
    /// The active connection ended.
    TcpEnd,
}

impl Event {
    /// A `TcpRead` event is well formed when a positive read count comes with
    /// a non-empty buffer, as a read from a socket always delivers. The
    /// dispatcher relies on this to index the buffer safely.
    pub open spec fn wf(&self) -> bool {
        match *self {
            Event::TcpRead(size, ref bytes) => size > 0 ==> bytes@.len() > 0,
            _ => true,
        }
    }
}

} // verus!
