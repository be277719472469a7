//! Verified core of a terminal client for a message-oriented chat daemon.
//!
//! The crate covers the protocol codec (JSON payloads to domain events and
//! domain commands to wire requests), the connection-session state machine,
//! and the application state machine that reacts to domain events and user
//! intents.  Terminal rendering and the actual socket I/O live outside the
//! library and only exchange plain values with it.

pub mod app;
pub mod clock;
pub mod codec;
pub mod conn;
pub mod json;
pub mod laws;
pub mod strutil;
pub mod text;
pub mod types;
