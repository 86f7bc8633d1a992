//! Persistent storage of chat sessions and messages.
pub mod database;
