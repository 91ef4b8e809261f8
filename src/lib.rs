//! Request pipeline of a small gateway in front of a language-model provider
//! and a vector store: the response envelope, request validation, the
//! credential check, status classification, configuration assembly and the
//! conversion of JSON values into the vector store's structured values.

pub mod completion;
pub mod config;
pub mod envelope;
pub mod error;
pub mod handlers;
pub mod middleware;
pub mod payload;
pub mod request;
