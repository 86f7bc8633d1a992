//! The parts of the application settings that hold no floating-point
//! values, with their defaults. The language-model part, whose sampling
//! parameters are floats, and the whole settings record live with the
//! application.
use vstd::prelude::*;

use crate::text::owned;

verus! {

/// Where the server listens.
#[derive(Debug, Clone)]
pub struct ServerSettings {
    pub host: String,
    pub port: u16,
}

/// Which embedding model to use.
#[derive(Debug, Clone)]
pub struct EmbeddingSettings {
    pub model_name: String,
}

/// Retrieval settings: where documents are read from and how they are cut.
#[derive(Debug, Clone)]
pub struct RagSettings {
    pub knowledge_dir: String,
    pub chunk_size: usize,
    pub chunk_overlap: usize,
    pub top_k: usize,
}

/// Where the database file is.
#[derive(Debug, Clone)]
pub struct DatabaseSettings {
    pub path: String,
}

impl Default for ServerSettings {
    /// Local host, port 8080.
    fn default() -> (s: Self)
        ensures
            s.host@ == "127.0.0.1"@,
            s.port == 8080,
    {
        ServerSettings { host: owned("127.0.0.1"), port: 8080 }
    }
}

impl Default for EmbeddingSettings {
    /// The small English BGE model.
    fn default() -> (s: Self)
        ensures
            s.model_name@ == "BAAI/bge-small-en-v1.5"@,
    {
        EmbeddingSettings { model_name: owned("BAAI/bge-small-en-v1.5") }
    }
}

impl Default for RagSettings {
    /// Documents under `./context`, chunks of 512 with an overlap of 50,
    /// the five best kept.
    fn default() -> (s: Self)
        ensures
            s.knowledge_dir@ == "./context"@,
            s.chunk_size == 512,
            s.chunk_overlap == 50,
            s.top_k == 5,
    {
        RagSettings { knowledge_dir: owned("./context"), chunk_size: 512, chunk_overlap: 50, top_k: 5 }
    }
}

impl Default for DatabaseSettings {
    /// `./data/assistant.db`.
    fn default() -> (s: Self)
        ensures
            s.path@ == "./data/assistant.db"@,
    {
        DatabaseSettings { path: owned("./data/assistant.db") }
    }
}

} // verus!
