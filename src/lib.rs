//! An OpenAI-compatible chat-completion front end for the Yuanbao chat service:
//! model catalog, prompt composition, upstream request construction, and the
//! classification of the upstream event stream into completion events.
pub mod catalog;
pub mod error;
pub mod json;
pub mod pipeline;
pub mod prompt;
pub mod service;
pub mod stream;
pub mod text;
pub mod upstream;
