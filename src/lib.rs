//! A bridge between a callback-driven audio server and a plugin, together
//! with a zero-cost way to stack "context" capabilities around each other.

pub mod bridge;
pub mod context;
pub mod event;
pub mod host;
pub mod ports;
