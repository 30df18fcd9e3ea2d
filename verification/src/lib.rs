//! A point-to-multipoint IP tunnel carried over WebSocket connections.
//!
//! The server side owns one virtual network interface and many client
//! sessions, each bound to a fixed virtual IP address.  This crate holds the
//! verified data plane: the packet header parser, the credential directory,
//! the live client registry, the router's forwarding decisions, and the
//! per-frame decisions of the server sessions and the client tunnel loop.
//! The asynchronous I/O around it (the interface device, the WebSocket
//! transport, channels, the console) lives outside and consults these
//! functions.

pub mod auth;
pub mod client;
pub mod console;
pub mod directory;
pub mod net;
pub mod registry;
pub mod router;
pub mod session;
