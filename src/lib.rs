//! A client library for a chat-completion service: it builds the request for a
//! prompt, classifies what the service answered, decodes the JSON payloads and
//! picks the answer text, and reads the provider settings.

pub mod json;
pub mod messages;
pub mod trace;
pub mod request;
pub mod settings;
pub mod toml_doc;
pub mod pipeline;
pub mod debug_logger;
