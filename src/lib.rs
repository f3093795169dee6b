//! Command dispatch for a chat bot: a registry maps a normalized command
//! name to a handler, and each handler turns its argument into at most one
//! outbound reply.

pub mod commands;
pub mod registry;
pub mod reply;
pub mod text;
pub mod whereis;

pub use commands::{Changelog, Ping, Unknown, CHANGELOG_LINK, FAQ, FAQ_LINK, PONG};
pub use registry::{Command, Handler};
pub use reply::{Payload, Reply};
pub use whereis::{WhereIs, NOT_FOUND};
