//! The marks that the steps of an operation carry.

use vstd::prelude::*;

verus! {

/// Marks a step of the kind `KIND` of an operation. Only the operations of this crate make
/// one, so that a step cannot be taken before those that lead to it.
pub struct Step<const KIND: u8> {
    made_here: (),
}

impl<const KIND: u8> Step<KIND> {
    /// A new mark.
    pub(crate) fn mark() -> Step<KIND> {
        Step { made_here: () }
    }
}

// The kinds of steps of a client. No two are the same.
pub const AWAIT_PACKET: u8 = 0;

pub const CONNACK_RECEIVING: u8 = 1;

pub const CONNACK_RECORDING: u8 = 2;

pub const CONNECTING: u8 = 3;

pub const CONNECT_RECORDING: u8 = 4;

pub const CONNECT_SENDING: u8 = 5;

pub const DISCONNECTING: u8 = 6;

pub const DISCONNECT_FLUSHING: u8 = 7;

pub const DISCONNECT_RECORDING: u8 = 8;

pub const PING_RECORDING: u8 = 9;

pub const PING_SENDING: u8 = 10;

pub const PING_SENT: u8 = 11;

pub const PROCESS_RECEIVING: u8 = 12;

pub const PROCESS_RESPONDING: u8 = 13;

pub const PROCESS_SENDING: u8 = 14;

pub const RECEIVE_AGAIN: u8 = 15;

pub const REQUESTING: u8 = 16;

pub const REQUEST_RECORDING: u8 = 17;

pub const REQUEST_SENDING: u8 = 18;

pub const SERVING_END: u8 = 19;

pub const SOCKET_CONNECTING: u8 = 20;

pub const TAKE_PACKET: u8 = 21;

// The kinds of steps of the manager. No two are the same.
pub const ANNOUNCING: u8 = 22;

pub const BACKING_OFF: u8 = 23;

pub const CLIENT_CONNECTING: u8 = 24;

pub const DIALING: u8 = 25;

pub const IDLING: u8 = 26;

pub const PERFORMANCE: u8 = 27;

pub const PINGING: u8 = 28;

pub const POLLING: u8 = 29;

pub const PULLING: u8 = 30;

} // verus!
