//! Application configuration.
pub mod settings;
