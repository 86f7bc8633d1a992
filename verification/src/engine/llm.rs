//! The chat model's bookkeeping: which model is loaded, whether a chat
//! session exists, and the rules for loading and switching models. Loading
//! itself is done by the caller, which reports back here.
use vstd::prelude::*;

use crate::models::model_info::{catalogue_entry, get_available_models, is_catalogue_entry};
use crate::models::{ModelInfo, ModelStatus};
use crate::text::{owned, push_all};

verus! {

/// The model used when none was chosen.
pub open spec fn default_model_id() -> Seq<char> {
    "qwen-2.5-1.5b"@
}

/// The weights a model id is loaded from.
#[derive(Clone, Copy, Debug, PartialEq, Eq, Structural)]
pub enum LlamaSourceId {
    Qwen25_1_5bInstruct,
    Qwen25_7bInstruct,
    Qwen25_3bInstruct,
    Llama32_3bChat,
}

/// The weights for a model id, if the id is known.
pub open spec fn model_source(id: Seq<char>) -> Option<LlamaSourceId> {
    if id == "qwen-2.5-1.5b"@ {
        Some(LlamaSourceId::Qwen25_1_5bInstruct)
    } else if id == "qwen-2.5-7b"@ {
        Some(LlamaSourceId::Qwen25_7bInstruct)
    } else if id == "qwen-2.5-3b"@ {
        Some(LlamaSourceId::Qwen25_3bInstruct)
    } else if id == "llama-3.2-3b"@ {
        Some(LlamaSourceId::Llama32_3bChat)
    } else {
        None
    }
}

/// The error for an unknown model id.
pub open spec fn unknown_model_message(id: Seq<char>) -> Seq<char> {
    "Unknown model ID: "@ + id
}

/// Get the weights for a given model ID
pub fn get_model_source(model_id: &str) -> (r: Result<LlamaSourceId, String>)
    ensures
        match model_source(model_id@) {
            Some(s) => r == Ok::<LlamaSourceId, String>(s),
            None => r matches Err(e) && e@ == unknown_model_message(model_id@),
        },
{
    let id = owned(model_id);
    if id == owned("qwen-2.5-1.5b") {
        Ok(LlamaSourceId::Qwen25_1_5bInstruct)
    } else if id == owned("qwen-2.5-7b") {
        Ok(LlamaSourceId::Qwen25_7bInstruct)
    } else if id == owned("qwen-2.5-3b") {
        Ok(LlamaSourceId::Qwen25_3bInstruct)
    } else if id == owned("llama-3.2-3b") {
        Ok(LlamaSourceId::Llama32_3bChat)
    } else {
        let mut e = owned("Unknown model ID: ");
        push_all(&mut e, model_id);
        Err(e)
    }
}

/// The chat model's state: the current model id, whether a model is held,
/// whether a chat session exists, and whether a switch is under way.
pub struct LlmState {
    pub current_model_id: String,
    pub model_loaded: bool,
    pub session_ready: bool,
    pub switching: bool,
}

/// A state as plain values.
pub open spec fn llm_view(s: LlmState) -> (Seq<char>, bool, bool, bool) {
    (s.current_model_id@, s.model_loaded, s.session_ready, s.switching)
}

/// What to do to get a model ready.
#[derive(Clone, Copy, Debug, PartialEq, Eq, Structural)]
pub enum LoadPlan {
    /// The model is already serving the chat session.
    AlreadyLoaded,
    /// Build the model from these weights and start a session with it.
    Load(LlamaSourceId),
}

/// What a switch asks of the caller.
#[derive(Clone, Copy, Debug, PartialEq, Eq, Structural)]
pub enum SwitchPlan {
    /// The requested model is the current one: nothing to do.
    AlreadyLoaded,
    /// No session exists yet: load the model as at start-up.
    FullLoad(LlamaSourceId),
    /// Build the model and replace the running session's model with it.
    Replace(LlamaSourceId),
}

/// The plan a switch request gets, if it is not refused: `None` when a
/// switch is already under way.
pub open spec fn switch_plan(s: (Seq<char>, bool, bool, bool), id: Seq<char>) -> Option<Result<SwitchPlan, Seq<char>>> {
    if s.3 {
        None
    } else if s.0 == id {
        Some(Ok(SwitchPlan::AlreadyLoaded))
    } else {
        match model_source(id) {
            None => Some(Err(unknown_model_message(id))),
            Some(src) => if s.2 {
                Some(Ok(SwitchPlan::Replace(src)))
            } else {
                Some(Ok(SwitchPlan::FullLoad(src)))
            },
        }
    }
}

impl LlmState {
    /// Nothing loaded; the current id is the default model's.
    pub fn new() -> (s: Self)
        ensures
            llm_view(s) == (default_model_id(), false, false, false),
    {
        LlmState { current_model_id: owned("qwen-2.5-1.5b"), model_loaded: false, session_ready: false, switching: false }
    }

    /// Decide how to initialize the model `model_id`: nothing to do when a
    /// session runs with that model, else load its weights (an unknown id
    /// is an error).
    pub fn init_chat_model_with_id(&self, model_id: &str) -> (r: Result<LoadPlan, String>)
        ensures
            self.session_ready && self.current_model_id@ == model_id@ ==> r == Ok::<LoadPlan, String>(LoadPlan::AlreadyLoaded),
            !(self.session_ready && self.current_model_id@ == model_id@) ==> match model_source(model_id@) {
                Some(src) => r == Ok::<LoadPlan, String>(LoadPlan::Load(src)),
                None => r matches Err(e) && e@ == unknown_model_message(model_id@),
            },
    {
        if self.session_ready && self.current_model_id == owned(model_id) {
            return Ok(LoadPlan::AlreadyLoaded);
        }
        match get_model_source(model_id) {
            Ok(src) => Ok(LoadPlan::Load(src)),
            Err(e) => Err(e),
        }
    }

    /// Decide how to initialize the default model.
    pub fn init_chat_model(&self) -> (r: Result<LoadPlan, String>)
        ensures
            self.session_ready && self.current_model_id@ == default_model_id() ==> r == Ok::<LoadPlan, String>(LoadPlan::AlreadyLoaded),
            !(self.session_ready && self.current_model_id@ == default_model_id()) ==> r == Ok::<LoadPlan, String>(
                LoadPlan::Load(LlamaSourceId::Qwen25_1_5bInstruct),
            ),
    {
        self.init_chat_model_with_id("qwen-2.5-1.5b")
    }

    /// Record that the model `model_id` was built: it is held, it is the
    /// current model, and a chat session exists.
    pub fn record_loaded(&mut self, model_id: &str)
        ensures
            llm_view(*final(self)) == (model_id@, true, true, old(self).switching),
    {
        self.current_model_id = owned(model_id);
        self.model_loaded = true;
        self.session_ready = true;
    }

    /// Synchronous version for compatibility with existing code
    pub fn get_current_model_id_sync(&self) -> (id: String)
        ensures
            id@ == self.current_model_id@,
    {
        owned(self.current_model_id.as_str())
    }

    /// Check if model switching is in progress
    pub fn is_model_switching(&self) -> (b: bool)
        ensures
            b == self.switching,
    {
        self.switching
    }

    /// Check if the model is initialized
    pub fn is_initialized(&self) -> (b: bool)
        ensures
            b == self.session_ready,
    {
        self.session_ready
    }

    /// Ask to switch to `model_id`. Refused, with the state unchanged, when a
    /// switch is under way. Otherwise the plan follows `switch_plan`; a
    /// plan that needs a load leaves the switch under way until
    /// `end_switch`, and an immediate answer ends it.
    pub fn begin_switch(&mut self, model_id: &str) -> (r: Result<SwitchPlan, String>)
        ensures
            match switch_plan(llm_view(*old(self)), model_id@) {
                None => (r matches Err(e) && e@ == "Model switching is already in progress"@)
                    && *final(self) == *old(self),
                Some(Ok(SwitchPlan::AlreadyLoaded)) => r == Ok::<SwitchPlan, String>(SwitchPlan::AlreadyLoaded)
                    && llm_view(*final(self)) == llm_view(*old(self)),
                Some(Ok(p)) => r == Ok::<SwitchPlan, String>(p) && llm_view(*final(self)) == (
                    old(self).current_model_id@,
                    old(self).model_loaded,
                    old(self).session_ready,
                    true,
                ),
                Some(Err(m)) => (r matches Err(e) && e@ == m) && llm_view(*final(self)) == llm_view(*old(self)),
            },
    {
        if self.switching {
            return Err(owned("Model switching is already in progress"));
        }
        if self.current_model_id == owned(model_id) {
            return Ok(SwitchPlan::AlreadyLoaded);
        }
        match get_model_source(model_id) {
            Err(e) => Err(e),
            Ok(src) => {
                self.switching = true;
                if self.session_ready {
                    Ok(SwitchPlan::Replace(src))
                } else {
                    Ok(SwitchPlan::FullLoad(src))
                }
            },
        }
    }

    /// End a switch to `model_id`: when the model was built it becomes the
    /// current one; either way the switch is over.
    pub fn end_switch(&mut self, model_id: &str, built: bool)
        ensures
            built ==> llm_view(*final(self)) == (model_id@, true, true, false),
            !built ==> llm_view(*final(self)) == (
                old(self).current_model_id@,
                old(self).model_loaded,
                old(self).session_ready,
                false,
            ),
    {
        if built {
            self.record_loaded(model_id);
        }
        self.switching = false;
    }

    /// Whether a reply can be streamed now, and if not, why.
    pub fn stream_precheck(&self) -> (r: Result<(), &'static str>)
        ensures
            self.switching ==> (r matches Err(e) && e@ == "Model switching in progress, please wait"@),
            !self.switching && !self.session_ready ==> (r matches Err(e) && e@ == "Chat session not initialized"@),
            !self.switching && self.session_ready ==> r is Ok,
    {
        if self.switching {
            return Err("Model switching in progress, please wait");
        }
        if !self.session_ready {
            return Err("Chat session not initialized");
        }
        Ok(())
    }

    /// Whether the chat can be reset now, and if not, why.
    pub fn reset_precheck(&self) -> (r: Result<(), String>)
        ensures
            self.model_loaded ==> r is Ok,
            !self.model_loaded ==> (r matches Err(e) && e@ == "Model not initialized"@),
    {
        if !self.model_loaded {
            return Err(owned("Model not initialized"));
        }
        Ok(())
    }
}

/// Check if model switching is supported
pub fn is_model_switching_supported() -> (b: bool)
    ensures
        b,
{
    true
}

/// A switch that was planned and whose model was built leaves the requested
/// model current, a session running, and no switch under way; a switch to
/// the current model changes nothing.
pub proof fn lemma_switch_then_end(s: (Seq<char>, bool, bool, bool), id: Seq<char>)
    requires
        !s.3,
    ensures
        s.0 == id ==> switch_plan(s, id) == Some(Ok::<SwitchPlan, Seq<char>>(SwitchPlan::AlreadyLoaded)),
        s.0 != id && model_source(id) is Some ==> (switch_plan(s, id) matches Some(Ok(p)) && p != SwitchPlan::AlreadyLoaded),
        s.0 != id && model_source(id) is None ==> switch_plan(s, id) == Some(Err::<SwitchPlan, Seq<char>>(unknown_model_message(id))),
        switch_plan((s.0, s.1, s.2, true), id) is None,
{
}

/// The catalogue entry a model id names, as the active model: the first
/// entry with that id.
pub open spec fn first_catalogue_index(id: Seq<char>) -> Option<int> {
    if catalogue_entry(0).0 == id {
        Some(0)
    } else if catalogue_entry(1).0 == id {
        Some(1)
    } else if catalogue_entry(2).0 == id {
        Some(2)
    } else if catalogue_entry(3).0 == id {
        Some(3)
    } else if catalogue_entry(4).0 == id {
        Some(4)
    } else if catalogue_entry(5).0 == id {
        Some(5)
    } else {
        None
    }
}

/// The catalogue entry holding the weights a model is loaded from.
pub open spec fn source_catalogue_index(src: LlamaSourceId) -> int {
    match src {
        LlamaSourceId::Qwen25_1_5bInstruct => 0,
        LlamaSourceId::Qwen25_3bInstruct => 1,
        LlamaSourceId::Qwen25_7bInstruct => 2,
        LlamaSourceId::Llama32_3bChat => 5,
    }
}

/// The catalogue entry of a current model id: the entry with that id, or,
/// for one of the chat model's short ids (such as the default
/// `qwen-2.5-1.5b`), the entry of the weights it is loaded from.
pub open spec fn current_catalogue_index(id: Seq<char>) -> Option<int> {
    match first_catalogue_index(id) {
        Some(i) => Some(i),
        None => match model_source(id) {
            Some(src) => Some(source_catalogue_index(src)),
            None => None,
        },
    }
}

/// The index in the catalogue of the entry for the weights `src`.
fn source_index(src: LlamaSourceId) -> (i: usize)
    ensures
        i == source_catalogue_index(src),
{
    match src {
        LlamaSourceId::Qwen25_1_5bInstruct => 0,
        LlamaSourceId::Qwen25_3bInstruct => 1,
        LlamaSourceId::Qwen25_7bInstruct => 2,
        LlamaSourceId::Llama32_3bChat => 5,
    }
}

/// The catalogue entry of the current model, marked active; an error when
/// the catalogue has no entry for that id.
pub fn current_model_info(current_id: &str) -> (r: Result<ModelInfo, String>)
    ensures
        match current_catalogue_index(current_id@) {
            Some(i) => r matches Ok(m) && ({
                let e = catalogue_entry(i);
                &&& m.id@ == e.0
                &&& m.name@ == e.1
                &&& m.size@ == e.2
                &&& m.memory_required@ == e.3
                &&& m.description@ == e.4
                &&& m.model_type == e.5
                &&& m.size_mb == Some(e.6)
                &&& m.status == ModelStatus::Active
                &&& !m.is_cached
                &&& m.cache_path is None
            }),
            None => r matches Err(e) && e@ == "Current model not found in available models"@,
        },
{
    let mut models = get_available_models();
    let key = owned(current_id);
    let mut i: usize = 0;
    while i < models.len()
        invariant
            models@.len() == 6,
            forall|j: int| 0 <= j < 6 ==> is_catalogue_entry(#[trigger] models@[j], j),
            key@ == current_id@,
            i <= 6,
            forall|j: int| 0 <= j < i ==> catalogue_entry(j).0 != current_id@,
        decreases 6 - i,
    {
        assert(is_catalogue_entry(models@[i as int], i as int));
        if models[i].id == key {
            let mut m = models.remove(i);
            m.status = ModelStatus::Active;
            return Ok(m);
        }
        i += 1;
    }
    assert(first_catalogue_index(current_id@) is None);
    match get_model_source(current_id) {
        Ok(src) => {
            let k = source_index(src);
            assert(is_catalogue_entry(models@[k as int], k as int));
            let mut m = models.remove(k);
            m.status = ModelStatus::Active;
            Ok(m)
        },
        Err(_) => Err(owned("Current model not found in available models")),
    }
}

} // verus!
