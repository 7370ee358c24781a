//! What the request handlers around the relay decide. The handlers
//! themselves talk to the network and to the stores; the decisions are made
//! here.

pub mod auth_handler;
pub mod media_handler;
pub mod qr_auth_handler;
pub mod ws_handler;
