//! Makima's session machinery: the actor that serialises a session's work, the agent's turn
//! decisions, the command layer and the client protocol's request bookkeeping.
pub mod acp;
pub mod actor;
pub mod agent;
pub mod command;
pub mod json;
pub mod promises;
pub mod text;
pub mod text_map;
pub mod types;
