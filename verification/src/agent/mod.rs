//! The agent: one turn after another, what it asks the model, and how it runs the tools that the
//! model calls.
pub mod catalog;
pub mod dispatch;
pub mod events;
pub mod hooks;
pub mod isolated_turn;
pub mod laws;
pub mod modes;
pub mod native;
pub mod routes;
pub mod run;
pub mod streaming;
pub mod tool_calls;
