//! The text-embedding engine's configuration and its single slot.
use vstd::prelude::*;

use crate::text::owned;

verus! {

/// The embedding engine; the model handle is still to come, so it only
/// records that it was set up.
pub struct EmbeddingEngine {
    pub initialized: bool,
}

/// Which embedding model to use.
pub struct EmbeddingConfig {
    pub model_name: String,
}

impl Default for EmbeddingConfig {
    fn default() -> (c: Self)
        ensures
            c.model_name@ == "BAAI/bge-small-en-v1.5"@,
    {
        EmbeddingConfig { model_name: owned("BAAI/bge-small-en-v1.5") }
    }
}

/// Initialize the embedding model: the slot gets an engine unless it holds
/// one already, which stays.
pub fn init_model(slot: &mut Option<EmbeddingEngine>) -> (r: Result<(), String>)
    ensures
        r is Ok,
        *final(slot) matches Some(e) && (match *old(slot) {
            Some(o) => e == o,
            None => e.initialized,
        }),
{
    if slot.is_none() {
        *slot = Some(EmbeddingEngine { initialized: true });
    }
    Ok(())
}

/// Check if the embedding model is initialized
pub fn is_initialized(slot: &Option<EmbeddingEngine>) -> (b: bool)
    ensures
        b == slot is Some,
{
    slot.is_some()
}

/// The length of the vectors the engine produces (bge-small's 384).
pub fn embedding_dimensions() -> (n: usize)
    ensures
        n == 384,
{
    384
}

} // verus!
