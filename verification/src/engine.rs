//! Core services: errors, configuration checks, content sources, SEO
//! analysis, generation back ends and their bookkeeping.
pub mod config;
pub mod content_generator;
pub mod content_source;
pub mod embedding;
pub mod error;
pub mod image_gen;
pub mod llm;
pub mod model_manager;
pub mod rag;
pub mod seo;
pub mod status;
pub mod tts;
pub mod video_gen;
pub mod volc;
