//! Provider-agnostic LLM completion protocol layer and agent tool-calling
//! execution loop.
//!
//! The crate models chat transcripts, completion requests and results,
//! streaming deltas and their reassembly into whole tool calls, and the
//! bounded-retry conversation loop that drives a multi-turn exchange with a
//! provider.  Wire marshalling into the vendor JSON body is verified
//! character by character; vendor responses are decoded through a small
//! trusted boundary around `serde_json` and normalized by verified code.
//! HTTP transport, tool execution and output validation are capabilities the
//! caller supplies; the loop consumes their outcomes as events.

pub mod agent;
pub mod config;
pub mod crew;
pub mod interface;
pub mod jsonval;
pub mod machine;
pub mod marshal;
pub mod ollama;
pub mod openai;
pub mod protocol;
pub mod sse;
pub mod stream;
pub mod text;
pub mod unmarshal;

use vstd::prelude::*;

use crate::config::{spec_config_error_text, spec_validate, LlmConfig, Provider};
use crate::marshal::spec_request_body;
use crate::ollama::{spec_default_ollama_base_url, OllamaProvider};
use crate::openai::{bearer_value, spec_default_base_url, OpenAIProvider};
use crate::protocol::{CompletionRequest, ProviderError, ProviderErrorV};

verus! {

/// The closed set of provider adapters: one variant per vendor family.
/// Adding a vendor adds a variant here; the conversation loop never
/// changes.
pub enum ProviderAdapter {
    OpenAI(OpenAIProvider),
    Ollama(OllamaProvider),
}

impl ProviderAdapter {
    /// The chat-completions endpoint of the adapter's vendor.
    pub fn completion_url(&self) -> (r: String)
        ensures
            ({
                match self {
                    ProviderAdapter::OpenAI(p) => r@ == p.base_url@ + "/chat/completions"@,
                    ProviderAdapter::Ollama(p) => r@ == p.base_url@ + "/chat/completions"@,
                }
            }),
    {
        match self {
            ProviderAdapter::OpenAI(p) => p.completion_url(),
            ProviderAdapter::Ollama(p) => p.completion_url(),
        }
    }

    /// The Authorization header value to send, when one is owed: the
    /// OpenAI family always authenticates; Ollama only when its
    /// configuration carries a key.
    pub fn auth_header(&self) -> (r: Option<String>)
        ensures
            ({
                match self {
                    ProviderAdapter::OpenAI(p) => r matches Some(h) && h@ == "Bearer "@
                        + p.api_key@,
                    ProviderAdapter::Ollama(p) => match p.config.api_key {
                        Some(k) => r matches Some(h) && h@ == "Bearer "@ + k@,
                        None => r is None,
                    },
                }
            }),
    {
        match self {
            ProviderAdapter::OpenAI(p) => Some(p.auth_header_value()),
            ProviderAdapter::Ollama(p) => match &p.config.api_key {
                Some(k) => Some(bearer_value(k.as_str())),
                None => None,
            },
        }
    }

    /// Prepares the body of a non-streaming completion through the
    /// variant's adapter.
    pub fn prepare_completion(&self, request: &CompletionRequest) -> (r: Result<
        String,
        ProviderError,
    >)
        ensures
            ({
                match self {
                    ProviderAdapter::OpenAI(p) => if p.config.provider == Provider::OpenAI {
                        r matches Ok(body) && body@ == spec_request_body(request@, false)
                    } else {
                        r matches Err(e) && e@ == ProviderErrorV::ConfigError(
                            "Invalid provider configured for OpenAIProvider"@,
                        )
                    },
                    ProviderAdapter::Ollama(p) => if p.config.provider == Provider::Ollama {
                        r matches Ok(body) && body@ == spec_request_body(request@, false)
                    } else {
                        r matches Err(e) && e@ == ProviderErrorV::ConfigError(
                            "Invalid provider configured for OllamaProvider"@,
                        )
                    },
                }
            }),
    {
        match self {
            ProviderAdapter::OpenAI(p) => p.prepare_completion(request),
            ProviderAdapter::Ollama(p) => p.prepare_completion(request),
        }
    }

    /// Prepares the body of a streaming completion through the variant's
    /// adapter; tool declarations with streaming are refused by both.
    pub fn prepare_completion_stream(&self, request: &CompletionRequest) -> (r: Result<
        String,
        ProviderError,
    >)
        ensures
            ({
                match self {
                    ProviderAdapter::OpenAI(p) => if request@.tools is Some {
                        r matches Err(e) && e@ == ProviderErrorV::Unsupported(
                            "Streaming tool calls are not currently supported by the OpenAI provider implementation."@,
                        )
                    } else if p.config.provider == Provider::OpenAI {
                        r matches Ok(body) && body@ == spec_request_body(request@, true)
                    } else {
                        r matches Err(e) && e@ == ProviderErrorV::ConfigError(
                            "Invalid provider configured for OpenAIProvider"@,
                        )
                    },
                    ProviderAdapter::Ollama(p) => if request@.tools is Some {
                        r matches Err(e) && e@ == ProviderErrorV::Unsupported(
                            "Streaming tool calls are not currently supported by the Ollama provider implementation."@,
                        )
                    } else if p.config.provider == Provider::Ollama {
                        r matches Ok(body) && body@ == spec_request_body(request@, true)
                    } else {
                        r matches Err(e) && e@ == ProviderErrorV::ConfigError(
                            "Invalid provider configured for OllamaProvider"@,
                        )
                    },
                }
            }),
    {
        match self {
            ProviderAdapter::OpenAI(p) => p.prepare_completion_stream(request),
            ProviderAdapter::Ollama(p) => p.prepare_completion_stream(request),
        }
    }
}

/// Builds the provider adapter a configuration names.
///
/// The configuration is validated first: a failure there is a
/// configuration error carrying the validation message.  A valid OpenAI
/// or Ollama configuration yields that vendor's adapter; Anthropic and
/// Custom are refused as unsupported.
pub fn get_provider(config: LlmConfig) -> (r: Result<ProviderAdapter, ProviderError>)
    ensures
        ({
            let v = spec_validate(config.provider, config.api_key is Some, config.base_url is Some);
            match v {
                Err(ce) => r matches Err(e) && e@ == ProviderErrorV::ConfigError(
                    spec_config_error_text(ce),
                ),
                Ok(u) => match config.provider {
                    Provider::OpenAI => r matches Ok(a) && (a matches ProviderAdapter::OpenAI(p)
                        && p.config == config && p.api_key@ == config.api_key->0@ && p.base_url@
                        == match config.base_url {
                        Some(b) => b@,
                        None => spec_default_base_url(),
                    }),
                    Provider::Ollama => r matches Ok(a) && (a matches ProviderAdapter::Ollama(p)
                        && p.config == config && p.base_url@ == match config.base_url {
                        Some(b) => b@,
                        None => spec_default_ollama_base_url(),
                    }),
                    Provider::Anthropic => r matches Err(e) && e@ == ProviderErrorV::Unsupported(
                        "Anthropic provider not yet implemented"@,
                    ),
                    Provider::Custom => r matches Err(e) && e@ == ProviderErrorV::Unsupported(
                        "Custom provider logic not yet implemented"@,
                    ),
                },
            }
        }),
{
    match config.validate() {
        Ok(_) => {},
        Err(ce) => {
            return Err(ProviderError::ConfigError(crate::config::render_config_error(&ce)));
        },
    }
    match config.provider {
        Provider::OpenAI => Ok(ProviderAdapter::OpenAI(OpenAIProvider::new(config))),
        Provider::Ollama => Ok(ProviderAdapter::Ollama(OllamaProvider::new(config))),
        Provider::Anthropic => Err(
            ProviderError::Unsupported(String::from_str("Anthropic provider not yet implemented")),
        ),
        Provider::Custom => Err(
            ProviderError::Unsupported(
                String::from_str("Custom provider logic not yet implemented"),
            ),
        ),
    }
}

/// The example tool: the sum of two integers.
pub fn sum_numbers(a: i64, b: i64) -> (r: i64)
    requires
        i64::MIN <= a + b <= i64::MAX,
    ensures
        r == a + b,
{
    a + b
}

} // verus!
