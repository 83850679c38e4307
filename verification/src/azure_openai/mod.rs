//! Azure OpenAI Chat Completions adapter.

pub mod caching_provider;
pub mod client;
pub mod decode;
pub mod error_body;
pub mod errors;
pub mod events;
pub mod request;
pub mod stream;
