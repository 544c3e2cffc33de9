//! The Ollama provider adapter.
//!
//! Ollama serves an OpenAI-compatible chat-completions API, so this
//! adapter renders the same verified wire body as the OpenAI one and
//! differs only in its connection rules: the default endpoint is the
//! local Ollama server, and no API key is required — one is sent only
//! when the configuration carries it.

use vstd::prelude::*;

use crate::config::{LlmConfig, Provider};
use crate::marshal::{request_body, spec_request_body};
use crate::protocol::{CompletionRequest, ProviderError, ProviderErrorV};
use crate::text::{append_str, chars_to_string};

verus! {

/// The Ollama adapter: its configuration and the base URL it posts to.
pub struct OllamaProvider {
    pub config: LlmConfig,
    pub base_url: String,
}

/// The default local Ollama endpoint (its OpenAI-compatible API root),
/// used when the configuration names none.
pub open spec fn spec_default_ollama_base_url() -> Seq<char> {
    "http://localhost:11434/v1"@
}

impl OllamaProvider {
    /// Resolves the base URL from the configuration.  A local Ollama
    /// needs no API key, so none is required here; when the
    /// configuration carries one it is still offered to the server (see
    /// `ProviderAdapter::auth_header`).
    pub fn new(config: LlmConfig) -> (r: Self)
        ensures
            r.config == config,
            r.base_url@ == match config.base_url {
                Some(u) => u@,
                None => spec_default_ollama_base_url(),
            },
    {
        let base_url = match &config.base_url {
            Some(u) => u.clone(),
            None => String::from_str("http://localhost:11434/v1"),
        };
        OllamaProvider { config, base_url }
    }

    /// The chat-completions endpoint under the configured base URL.
    pub fn completion_url(&self) -> (r: String)
        ensures
            r@ == self.base_url@ + "/chat/completions"@,
    {
        let mut out: Vec<char> = Vec::new();
        append_str(&mut out, self.base_url.as_str());
        append_str(&mut out, "/chat/completions");
        chars_to_string(&out)
    }

    /// Prepares the body of a non-streaming completion: the exact wire
    /// JSON for the request, or a configuration error when this adapter
    /// serves a different provider.
    pub fn prepare_completion(&self, request: &CompletionRequest) -> (r: Result<
        String,
        ProviderError,
    >)
        ensures
            self.config.provider == Provider::Ollama ==> (r matches Ok(body) && body@
                == spec_request_body(request@, false)),
            self.config.provider != Provider::Ollama ==> (r matches Err(e) && e@
                == ProviderErrorV::ConfigError(
                "Invalid provider configured for OllamaProvider"@,
            )),
    {
        match self.config.provider {
            Provider::Ollama => Ok(request_body(request, false)),
            _ => Err(
                ProviderError::ConfigError(
                    String::from_str("Invalid provider configured for OllamaProvider"),
                ),
            ),
        }
    }

    /// Prepares the body of a streaming completion.  Tool declarations
    /// with streaming are refused as unsupported, and a wrong provider is
    /// a configuration error, in that order.
    pub fn prepare_completion_stream(&self, request: &CompletionRequest) -> (r: Result<
        String,
        ProviderError,
    >)
        ensures
            request@.tools is Some ==> (r matches Err(e) && e@ == ProviderErrorV::Unsupported(
                "Streaming tool calls are not currently supported by the Ollama provider implementation."@,
            )),
            request@.tools is None && self.config.provider == Provider::Ollama ==> (
            r matches Ok(body) && body@ == spec_request_body(request@, true)),
            request@.tools is None && self.config.provider != Provider::Ollama ==> (
            r matches Err(e) && e@ == ProviderErrorV::ConfigError(
                "Invalid provider configured for OllamaProvider"@,
            )),
    {
        if request.tools.is_some() {
            return Err(
                ProviderError::Unsupported(
                    String::from_str(
                        "Streaming tool calls are not currently supported by the Ollama provider implementation.",
                    ),
                ),
            );
        }
        match self.config.provider {
            Provider::Ollama => Ok(request_body(request, true)),
            _ => Err(
                ProviderError::ConfigError(
                    String::from_str("Invalid provider configured for OllamaProvider"),
                ),
            ),
        }
    }
}

} // verus!
