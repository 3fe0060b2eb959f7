//! Backend connection resolution for a desktop meeting assistant: which
//! language-model or speech-to-text endpoint to talk to, given the account's
//! subscription, the free-trial window, the user's custom endpoint settings
//! and the state of the local inference server.

pub mod clock;
pub mod connection;
pub mod endpoint;
pub mod error;
pub mod gitee_ai;
pub mod json;
pub mod local_llm;
pub mod local_server;
pub mod models;
pub mod resolver;
pub mod settings;
pub mod store;
pub mod text;
