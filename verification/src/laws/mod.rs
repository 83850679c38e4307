//! What holds of the library as a whole: how results follow from what was put in, stated over the
//! data itself.

pub mod accounts;
pub mod anthropic_decode;
pub mod anthropic_errors;
pub mod anthropic_request;
pub mod anthropic_stream;
pub mod azure_decode;
pub mod azure_errors;
pub mod azure_request;
pub mod azure_stream;
pub mod calls;
pub mod changes;
pub mod chunks;
pub mod histories;
pub mod messages;
pub mod prompts;
pub mod readback;
pub mod records;
pub mod retries;
pub mod servers;
pub mod stored;
pub mod texts;
pub mod tools;
pub mod wire;
