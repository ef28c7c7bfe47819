//! A client-side engine for the Discord gateway: shard assignment, the wire
//! envelope, typed events, and the session state machine that sequences the
//! handshake, heartbeats and dispatch delivery.
//!
//! Everything here is pure: the caller owns the socket and the timers, feeds
//! received frames in, and carries out the reactions that come back.

pub mod client;
pub mod dataclasses;
pub mod decimal;
pub mod error;
pub mod gateway;
pub mod http;
pub mod json;
pub mod macros;
pub mod utils;

pub use client::{Client, Outcome};
pub use error::GatewayError;
pub use gateway::{Gateway, GatewayEvent, Intents, RawGatewayEvent};
