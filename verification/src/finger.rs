//! Finger: resolver, request and response.

pub mod absolute;
pub mod client;
pub mod parser;
