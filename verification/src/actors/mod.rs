//! The two units of the relay: the registry and the per-connection session.

pub mod server;
pub mod session;
