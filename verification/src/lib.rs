//! A bridge between the Responses format and the Chat Completions format.
//!
//! On the way out, `convert` turns the items of a conversation, its
//! instructions and its tool definitions into a chat completion request. On
//! the way in, `sse` turns the chunks of a streamed chat completion into
//! response events.
pub mod common;
pub mod convert;
pub mod json;
pub mod models;
pub mod sse;
pub mod text;
pub mod text_laws;
pub mod view_laws;
