pub mod config;
pub mod content;
pub mod engine;
pub mod deps;
pub mod models;
pub mod storage;
pub mod text;
