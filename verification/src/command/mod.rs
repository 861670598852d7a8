//! Commands: those built in, those of the user, and what each asks of its host.
pub mod builtin;
pub mod custom;
pub mod frontmatter;
pub mod host;
pub mod registration;
pub mod wording;
