//! Command framework for a chat bot: tokenizing of command lines, an ordered,
//! short-circuiting chain of handlers, and a typed per-guild configuration
//! layer over a key-value store.

pub mod error;
pub mod tokenizer;
pub mod text;
pub mod command;
pub mod store;
pub mod module;
pub mod mention;
pub mod setting;
pub mod configure;
pub mod plug;
pub mod configuration;
pub mod reply;
pub mod comfort;
