//! Conversions from the Responses format to the Chat Completions format.
pub mod chat_messages;
pub mod chat_request;
pub mod chat_tools;
pub mod item_laws;
pub mod message_laws;
pub mod request_laws;
pub mod tool_laws;
