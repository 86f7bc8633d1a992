//! Content creation helpers.
pub mod outline;
pub mod workflow;
