//! Model information: the catalogue of models the assistant offers and
//! the state of each in the local cache.
use vstd::prelude::*;
use crate::text::owned;

verus! {

/// Status of a model
#[derive(Clone, Copy, Debug, PartialEq, Eq, Structural)]
pub enum ModelStatus {
    Available,
    Loading,
    Active,
    NotDownloaded,
    Error,
}

impl Default for ModelStatus {
    fn default() -> (d: Self)
        ensures
            d == ModelStatus::Available,
    {
        ModelStatus::Available
    }
}

/// Model types
#[derive(Clone, Copy, Debug, PartialEq, Eq, Structural)]
pub enum ModelType {
    Language,
    ImageGeneration,
    Embedding,
    Audio,
    Multimodal,
}

/// Information about an available model
#[derive(Clone, Debug, PartialEq)]
pub struct ModelInfo {
    /// Unique identifier for the model
    pub id: String,
    /// Display name
    pub name: String,
    /// Model size string (e.g. "1.5B")
    pub size: String,
    /// Memory requirement description
    pub memory_required: String,
    /// Current status
    pub status: ModelStatus,
    /// Description of the model's capabilities
    pub description: String,
    pub model_type: ModelType,
    pub size_mb: Option<u64>,
    pub is_cached: bool,
    pub cache_path: Option<String>,
}

impl ModelInfo {
    pub fn new(id: &str, name: &str, size: &str, memory: &str, description: &str) -> (m: Self)
        ensures
            m.id@ == id@,
            m.name@ == name@,
            m.size@ == size@,
            m.memory_required@ == memory@,
            m.status == ModelStatus::Available,
            m.description@ == description@,
            m.model_type == ModelType::Language,
            m.size_mb is None,
            !m.is_cached,
            m.cache_path is None,
    {
        ModelInfo {
            id: owned(id),
            name: owned(name),
            size: owned(size),
            memory_required: owned(memory),
            status: ModelStatus::Available,
            description: owned(description),
            model_type: ModelType::Language,
            size_mb: None,
            is_cached: false,
            cache_path: None,
        }
    }
}

/// Cache information structure
#[derive(Clone, Debug)]
pub struct CacheInfo {
    pub path: String,
    pub total_size_mb: u64,
    pub model_count: usize,
}

/// Id, name, size, memory requirement, description, type and size in MB of
/// catalogue entry `i`.
pub open spec fn catalogue_entry(i: int) -> (Seq<char>, Seq<char>, Seq<char>, Seq<char>, Seq<char>, ModelType, u64) {
    if i == 0 {
        ("Qwen/Qwen2.5-1.5B-Instruct"@, "Qwen 2.5 1.5B"@, "1.5B"@, "4-6GB"@, "Lightweight Chinese/English LLM"@, ModelType::Language, 3040)
    } else if i == 1 {
        ("Qwen/Qwen2.5-3B-Instruct"@, "Qwen 2.5 3B"@, "3B"@, "6-8GB"@, "Medium Chinese/English LLM"@, ModelType::Language, 6100)
    } else if i == 2 {
        ("Qwen/Qwen2.5-7B-Instruct"@, "Qwen 2.5 7B"@, "7B"@, "10-12GB"@, "Large Chinese/English LLM"@, ModelType::Language, 14700)
    } else if i == 3 {
        ("black-forest-labs/FLUX.1-schnell"@, "FLUX.1 Schnell"@, "12B"@, "16GB+"@, "Fast image generation model"@, ModelType::ImageGeneration, 12420)
    } else if i == 4 {
        ("BAAI/bge-large-zh-v1.5"@, "BGE Large Chinese"@, "300M"@, "2GB"@, "Chinese text embeddings"@, ModelType::Embedding, 1340)
    } else {
        ("meta-llama/Llama-3.2-3B-Instruct"@, "Llama 3.2 3B"@, "3B"@, "6-8GB"@, "Meta's latest small model"@, ModelType::Language, 6000)
    }
}

/// `m` is catalogue entry `i`, available and not cached.
pub open spec fn is_catalogue_entry(m: ModelInfo, i: int) -> bool {
    let e = catalogue_entry(i);
    &&& m.id@ == e.0
    &&& m.name@ == e.1
    &&& m.size@ == e.2
    &&& m.memory_required@ == e.3
    &&& m.description@ == e.4
    &&& m.model_type == e.5
    &&& m.size_mb == Some(e.6)
    &&& m.status == ModelStatus::Available
    &&& !m.is_cached
    &&& m.cache_path is None
}

/// One catalogue entry.
fn catalogue_model(id: &str, name: &str, size: &str, memory: &str, description: &str, model_type: ModelType, size_mb: u64) -> (m: ModelInfo)
    ensures
        m.id@ == id@,
        m.name@ == name@,
        m.size@ == size@,
        m.memory_required@ == memory@,
        m.description@ == description@,
        m.model_type == model_type,
        m.size_mb == Some(size_mb),
        m.status == ModelStatus::Available,
        !m.is_cached,
        m.cache_path is None,
{
    ModelInfo {
        id: owned(id),
        name: owned(name),
        size: owned(size),
        memory_required: owned(memory),
        status: ModelStatus::Available,
        description: owned(description),
        model_type,
        size_mb: Some(size_mb),
        is_cached: false,
        cache_path: None,
    }
}

/// Get the list of available models
pub fn get_available_models() -> (ms: Vec<ModelInfo>)
    ensures
        ms@.len() == 6,
        forall|i: int| 0 <= i < 6 ==> is_catalogue_entry(#[trigger] ms@[i], i),
{
    let ms = vec![
        catalogue_model("Qwen/Qwen2.5-1.5B-Instruct", "Qwen 2.5 1.5B", "1.5B", "4-6GB", "Lightweight Chinese/English LLM", ModelType::Language, 3040),
        catalogue_model("Qwen/Qwen2.5-3B-Instruct", "Qwen 2.5 3B", "3B", "6-8GB", "Medium Chinese/English LLM", ModelType::Language, 6100),
        catalogue_model("Qwen/Qwen2.5-7B-Instruct", "Qwen 2.5 7B", "7B", "10-12GB", "Large Chinese/English LLM", ModelType::Language, 14700),
        catalogue_model("black-forest-labs/FLUX.1-schnell", "FLUX.1 Schnell", "12B", "16GB+", "Fast image generation model", ModelType::ImageGeneration, 12420),
        catalogue_model("BAAI/bge-large-zh-v1.5", "BGE Large Chinese", "300M", "2GB", "Chinese text embeddings", ModelType::Embedding, 1340),
        catalogue_model("meta-llama/Llama-3.2-3B-Instruct", "Llama 3.2 3B", "3B", "6-8GB", "Meta's latest small model", ModelType::Language, 6000),
    ];
    ms
}

/// The badge a model type is shown with: its style class and its label.
pub open spec fn badge_of(t: ModelType) -> (Seq<char>, Seq<char>) {
    match t {
        ModelType::Language => ("badge badge-primary"@, "LLM"@),
        ModelType::ImageGeneration => ("badge badge-success"@, "Image"@),
        ModelType::Embedding => ("badge badge-info"@, "Embedding"@),
        ModelType::Audio => ("badge badge-warning"@, "Audio"@),
        ModelType::Multimodal => ("badge badge-secondary"@, "Multimodal"@),
    }
}

/// The badge a model type is shown with.
pub fn model_type_badge(t: ModelType) -> (b: (&'static str, &'static str))
    ensures
        (b.0@, b.1@) == badge_of(t),
{
    match t {
        ModelType::Language => ("badge badge-primary", "LLM"),
        ModelType::ImageGeneration => ("badge badge-success", "Image"),
        ModelType::Embedding => ("badge badge-info", "Embedding"),
        ModelType::Audio => ("badge badge-warning", "Audio"),
        ModelType::Multimodal => ("badge badge-secondary", "Multimodal"),
    }
}

/// The language models among `ms`, in order.
pub open spec fn language_only(ms: Seq<ModelInfo>) -> Seq<ModelInfo>
    decreases ms.len(),
{
    if ms.len() == 0 {
        Seq::empty()
    } else {
        let rest = language_only(ms.drop_last());
        if ms.last().model_type == ModelType::Language {
            rest.push(ms.last())
        } else {
            rest
        }
    }
}

/// The language models of a model list, in order (the models the chat can
/// switch between).
pub fn language_models(models: Vec<ModelInfo>) -> (ls: Vec<ModelInfo>)
    ensures
        ls@ == language_only(models@),
{
    let ghost all = models@;
    let mut rest = models;
    let mut ls: Vec<ModelInfo> = Vec::new();
    let mut i: usize = 0;
    let n = rest.len();
    while i < n
        invariant
            n == all.len(),
            i <= n,
            rest@ == all.skip(i as int),
            ls@ == language_only(all.take(i as int)),
        decreases n - i,
    {
        let m = rest.remove(0);
        assert(m == all[i as int]);
        assert(all.skip(i + 1) =~= all.skip(i as int).drop_first());
        assert(all.take(i + 1).drop_last() == all.take(i as int));
        if m.model_type == ModelType::Language {
            ls.push(m);
        }
        i += 1;
    }
    assert(all.take(n as int) == all);
    ls
}

} // verus!
