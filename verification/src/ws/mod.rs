//! Streaming (WebSocket) protocol types and the decisions of the
//! streaming client: channels, commands, messages.

pub mod message;
pub mod channel;
pub mod command;
pub mod json;
pub mod protocol;
pub mod session;
pub mod client;
pub mod config;
pub mod health;
pub mod request_handler;
