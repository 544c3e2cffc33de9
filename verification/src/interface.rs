//! Configuration for the string-keyed LLM interface.
//!
//! This interface builds its provider through an outside LLM toolkit and
//! keys the backend by a provider name; only its plain configuration value
//! lives here.  The construction of the boxed provider itself is outside
//! work and stands with the callers.

use vstd::prelude::*;

verus! {

/// Connection configuration keyed by a provider name string (such as
/// "ollama" or "openrouter").
#[derive(Debug, Clone)]
pub struct LLMConfig {
    pub provider: String,
    pub model_name: String,
    pub base_url: String,
    pub api_key: Option<String>,
}

impl LLMConfig {
    pub fn new(provider: String, model_name: String, api_key: Option<String>, base_url: String) -> (
    r: Self)
        ensures
            r.provider@ == provider@,
            r.model_name@ == model_name@,
            r.api_key.deep_view() == api_key.deep_view(),
            r.base_url@ == base_url@,
    {
        LLMConfig { provider, model_name, api_key, base_url }
    }
}

} // verus!
