//! A small client library for a chat-bot REST API, centered on a command
//! router: a registry that maps command names such as `!ping` to handlers,
//! parses incoming text into a command token and an argument remainder, and
//! dispatches to the registered handler.

pub mod arguments;
pub mod bodies;
pub mod client;
pub mod encode;
pub mod endpoints;
pub mod error;
pub mod permissions;
pub mod registration;
pub mod router;

pub use arguments::parse_arguments;
pub use arguments::split_command;
pub use error::CustomError;
pub use router::Command;
pub use router::CommandRouter;
