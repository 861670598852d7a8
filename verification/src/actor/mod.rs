//! One actor per session: a queue of work that is executed strictly in order.
pub mod error;
pub mod handle;
pub mod inner;
pub mod laws;
pub mod queue;
pub mod runner;
pub mod tickets;
pub mod work;
