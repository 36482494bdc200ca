//! The conversation lifecycle of an assistant-chat session.
//!
//! A session holds any number of stored conversations and one pending
//! conversation under composition. Submitting the pending conversation's
//! first message promotes it into the store under a fresh identifier;
//! every submission dispatches one asynchronous gateway call whose
//! result is later delivered to the conversation it was bound to,
//! whatever the user did in the meantime.

pub mod assistant;
pub mod chat;
pub mod error;
pub mod list;
pub mod session;
pub mod store;

pub use chat::{Chat, ChatMessage, Sender};
