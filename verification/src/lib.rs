//! Building blocks for LLM agent loops.

use vstd::prelude::*;

pub mod anthropic;
pub mod azure_openai;
pub mod compaction;
pub mod config;
pub mod context_manager;
pub mod duration;
pub mod history_store;
pub mod http;
pub mod ids;
pub mod json;
pub mod laws;
pub mod mcp;
pub mod message;
pub mod middleware;
pub mod persist;
pub mod prompt;
pub mod provider_error;
pub mod record;
pub mod request;
pub mod retry;
pub mod snapshot;
pub mod stream;
pub mod testing;
pub mod text;
pub mod tokenizer;
pub mod tool_macro;

verus! {

} // verus!
