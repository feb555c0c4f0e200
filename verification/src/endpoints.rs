//! Request targets of the REST surface: one verified URL builder per
//! operation, stating exactly the text the operation addresses. Sending the
//! requests is the host's business.

pub mod channel;
pub mod embed;
pub mod error;
pub mod guild;
pub mod guild_scheduled_event;
pub mod message;
pub mod permissions;
pub mod poll;
pub mod role;
pub mod sticker;
pub mod user;
pub mod webhook;
