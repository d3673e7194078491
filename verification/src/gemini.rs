//! Gemini: request and response framing, document lines and links.

pub mod client;
pub mod link;
pub mod parser;
