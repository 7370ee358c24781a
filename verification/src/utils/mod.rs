//! Credentials: what a token claims, and where a request carries its token.

pub mod auth_middleware;
pub mod jwt;
