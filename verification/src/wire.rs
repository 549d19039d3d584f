//! Values exchanged between the agent and the dashboard.

use vstd::prelude::*;

verus! {

/// State of the local Ollama server as the agent last saw it.
pub struct LlmMetrics {
    pub ollama_online: bool,
    pub ollama_ps_url: String,
    pub running_models: Vec<String>,
    pub model_count: usize,
    pub error: Option<String>,
}

/// A chat prompt, optionally naming the model to use.
pub struct ChatRequest {
    pub prompt: String,
    pub model: Option<String>,
}

/// The answer to a chat prompt.
pub struct ChatResponse {
    pub response: String,
    pub model: String,
    pub error: Option<String>,
}

/// The models the agent can offer.
pub struct ModelsResponse {
    pub selected_model: String,
    pub running_models: Vec<String>,
    pub installed_models: Vec<String>,
    pub error: Option<String>,
}

/// The view of an optional string.
pub open spec fn opt_view(o: Option<String>) -> Option<Seq<char>> {
    match o {
        Some(s) => Some(s@),
        None => None,
    }
}

} // verus!
