//! A real-time chat relay: a registry of connected users that fans events out
//! to their sessions, and the per-connection session that keeps a socket
//! alive and hands decoded frames to the registry.
//!
//! The library decides and does nothing else. The registry
//! ([`actors::server`]) and the session ([`actors::session`]) take what has
//! happened and return what is to be done; sockets, clocks and stores belong
//! to the program around them. The frames on the wire are read and written in
//! [`wire`], on top of [`json`] and [`ids`]. What the request handlers of the
//! surrounding service decide is in [`handlers`] and [`utils`].
//!
//! Every function is verified against its contract with Verus. The few
//! places that rest on another crate or on the standard library state what
//! they take on trust.

pub mod actors;
pub mod handlers;
pub mod ids;
pub mod json;
pub mod models;
pub mod text;
pub mod utils;
pub mod wire;
