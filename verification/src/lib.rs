//! Client-side binding for the HashGate user-pool gateway.

pub mod client;
pub mod config;
pub mod error;
pub mod guid;
pub mod http;
pub mod operations;
pub mod session;
pub mod types;
