//! The session core of a client for the Hiven gateway: the handshake state machine, the
//! socket pump's and the heartbeat ticker's decisions, and the rule that joins their results.

pub mod client;
pub mod error;
pub mod frame;
pub mod gatekeeper;
pub mod heartbeat;
pub mod laws;
pub mod outside;
pub mod pump;
pub mod session;

pub use client::Client;
pub use error::{CloseReason, Error};
pub use frame::{Event, EventTag, Frame};
pub use gatekeeper::{Directive, GateKeeper, Input, State, QUEUE_CAPACITY};
pub use heartbeat::{Beat, Heartbeat, Pulse};
pub use pump::{pump, Action, Arrival, EgressItem, Inbound};
