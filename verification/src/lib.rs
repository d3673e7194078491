//! Fetch-and-navigate engine for the Gemini, Gopher and Finger protocols:
//! address resolution, request and response framing, the Gemini status
//! line, the line parsers for documents and links, and the navigation
//! history.

pub mod absolute;
pub mod address;
pub mod client;
pub mod dispatch;
pub mod draw;
pub mod finger;
pub mod gemini;
pub mod gopher;
pub mod history;
pub mod protocols;
pub mod settings;
pub mod status;
pub mod text;
