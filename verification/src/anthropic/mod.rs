//! Anthropic Messages adapter.

pub mod client;
pub mod decode;
pub mod error_body;
pub mod errors;
pub mod events;
pub mod request;
pub mod stream;
