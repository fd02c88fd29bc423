//! A local chat-completions server core: one resident model at a time,
//! load on demand, and a streaming wire format for generated tokens.

pub mod chat;
pub mod executor;
pub mod message;
pub mod ollama;
pub mod pipeline;
pub mod registry;
pub mod text;
pub mod utils;

pub use message::{
    Content, ContentPart, ImageUrl, Message, ModelProgress, OpenAiError, ProcessMessages, Role,
    ShutdownMessages,
};
