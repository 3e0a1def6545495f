//! Cookie-carried, token-backed authentication for a small to-do API.
//!
//! The crate holds the rules of the service: how a session token is issued and
//! validated, how the request guard decides between forwarding and rejecting,
//! and what each handler answers for each outcome of its store queries.
//! Sockets, the database and the clock are the caller's business: they reach
//! the functions here as plain values.

pub mod authmiddleware;
pub mod claims;
pub mod errors;
pub mod models;
pub mod password;
pub mod routes;
pub mod token;
pub mod wire;
