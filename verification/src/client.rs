//! The client tunnel loop's decisions.
//!
//! A client owns one virtual interface and one WebSocket connection to
//! the server, forwarding raw packets in both directions.  The connected
//! phase is a loop over events — a frame from the server, the stream
//! ending, or a packet read from the local interface — and each event
//! maps to exactly one action below.  Whenever the loop finishes, for any
//! reason, the surrounding transport waits `RECONNECT_DELAY_SECS` seconds
//! and connects again; connectivity loss is never fatal.

use vstd::prelude::*;

verus! {

/// The fixed delay before reconnecting, in seconds.
pub const RECONNECT_DELAY_SECS: u64 = 5;

/// One event observed by the connected loop.
#[derive(Clone, Debug)]
pub enum ClientEvent {
    /// The server sent a binary frame: a whole raw IP packet.
    ServerBinary(Vec<u8>),
    /// The server sent a ping with this payload.
    ServerPing(Vec<u8>),
    /// The server sent a pong.
    ServerPong(Vec<u8>),
    /// The server sent a text frame.
    ServerText(Vec<u8>),
    /// The server sent a close frame.
    ServerClose,
    /// The frame stream ended.
    StreamEnded,
    /// The transport reported an error.
    TransportFailed,
    /// One raw packet was read from the local interface.
    TunPacket(Vec<u8>),
    /// Reading the local interface failed.
    TunFailed,
}

/// The action the loop takes for one event.
#[derive(Clone, Debug)]
pub enum ClientAction {
    /// Write these bytes, verbatim, to the local interface.
    WriteTun(Vec<u8>),
    /// Answer a ping with a pong carrying the same payload.
    SendPong(Vec<u8>),
    /// Send this packet to the server as one binary frame.
    SendBinary(Vec<u8>),
    /// Leave the connected loop cleanly and retry after the delay.
    RetryGracefully,
    /// Leave the connected loop with an error and retry after the delay.
    RetryAfterError,
    /// Nothing to do for this event.
    Ignore,
}

/// The event-to-action map: binary frames go to the interface, pings are
/// answered, a close or the stream's end retries cleanly, transport and
/// device failures retry as errors, local packets go to the server, and
/// any other frame is ignored.
pub open spec fn spec_client_step(event: ClientEvent) -> ClientAction {
    match event {
        ClientEvent::ServerBinary(b) => ClientAction::WriteTun(b),
        ClientEvent::ServerPing(p) => ClientAction::SendPong(p),
        ClientEvent::ServerPong(p) => ClientAction::Ignore,
        ClientEvent::ServerText(t) => ClientAction::Ignore,
        ClientEvent::ServerClose => ClientAction::RetryGracefully,
        ClientEvent::StreamEnded => ClientAction::RetryGracefully,
        ClientEvent::TransportFailed => ClientAction::RetryAfterError,
        ClientEvent::TunPacket(b) => ClientAction::SendBinary(b),
        ClientEvent::TunFailed => ClientAction::RetryAfterError,
    }
}

/// Decides the action for one event of the connected loop.
pub fn client_step(event: ClientEvent) -> (a: ClientAction)
    ensures
        a == spec_client_step(event),
{
    match event {
        ClientEvent::ServerBinary(b) => ClientAction::WriteTun(b),
        ClientEvent::ServerPing(p) => ClientAction::SendPong(p),
        ClientEvent::ServerPong(_) => ClientAction::Ignore,
        ClientEvent::ServerText(_) => ClientAction::Ignore,
        ClientEvent::ServerClose => ClientAction::RetryGracefully,
        ClientEvent::StreamEnded => ClientAction::RetryGracefully,
        ClientEvent::TransportFailed => ClientAction::RetryAfterError,
        ClientEvent::TunPacket(b) => ClientAction::SendBinary(b),
        ClientEvent::TunFailed => ClientAction::RetryAfterError,
    }
}

} // verus!
