//! What each operation owes to whoever calls it, said of what goes in and what comes out.
pub mod actor;
pub mod calls;
pub mod commands;
pub mod keeping;
pub mod messages;
pub mod options;
pub mod pending;
pub mod prompts;
pub mod pump;
pub mod queue;
pub mod replies;
pub mod routing;
pub mod serving;
pub mod sessions;
pub mod texts;
pub mod tools;
pub mod turns;
