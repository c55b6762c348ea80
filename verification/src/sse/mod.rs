//! Streamed chat completions.
pub mod chat_completions;
pub mod chunk;
pub mod header_laws;
pub mod response_headers;
pub mod step_laws;
pub mod stream_laws;
