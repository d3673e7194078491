//! Gopher: resolver, request, menu lines and links.

pub mod absolute;
pub mod client;
pub mod link;
pub mod parser;
