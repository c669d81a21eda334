//! A relay library that turns on-chain transfer webhooks into chat
//! notifications: it decodes transfer events, resolves a display name and a
//! notify target for the addresses involved, builds a block-explorer link,
//! formats a structured message, and decides where the message is delivered,
//! degrading to an error channel when decoding or resolution fails.

pub mod event;
pub mod link;
pub mod message;
pub mod pipeline;
pub mod resolver;
pub mod text;
