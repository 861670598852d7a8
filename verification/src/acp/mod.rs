//! The client protocol: what a session owes its client, and what it answers.
pub mod commands;
pub mod error;
pub mod event_pump;
pub mod laws;
pub mod mcp_servers;
pub mod methods;
pub mod operations;
pub mod options;
pub mod pending;
pub mod prompt;
pub mod requests;
pub mod restore;
pub mod server;
pub mod session;
pub mod updates;
