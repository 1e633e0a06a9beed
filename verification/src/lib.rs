//! A smart-home resource API: a single house owning rooms, each room owning
//! devices, with a store that enforces the ownership hierarchy, handlers that
//! map outcomes to HTTP status codes, and a client-side decision table that
//! interprets responses.

pub mod client;
pub mod domain;
pub mod error;
pub mod handlers;
pub mod ids;
pub mod laws;
pub mod store;
