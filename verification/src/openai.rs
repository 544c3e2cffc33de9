//! The OpenAI-family provider adapter: request preparation and the
//! decisions the adapter makes before and after the HTTP exchange.
//!
//! The adapter owns the configuration, resolved API key and base URL; it
//! renders request bodies (see `marshal`), decides when a request must be
//! refused (wrong provider, unsupported streaming tool calls), and decodes
//! response bodies (see `unmarshal`).  The HTTP transport itself is the
//! caller's: it posts the prepared body to [`OpenAIProvider::completion_url`]
//! with the [`OpenAIProvider::auth_header_value`] authorization header and
//! hands the response bytes back to the decoding functions.

use vstd::prelude::*;
use vstd::pervasive::unreached;

use crate::config::{LlmConfig, Provider};
use crate::marshal::{request_body, spec_request_body};
use crate::protocol::{CompletionRequest, ProviderError, ProviderErrorV};
use crate::text::{append_str, chars_to_string};

verus! {

/// The OpenAI-family adapter: validated configuration, the API key it
/// authenticates with, and the base URL it posts to.
pub struct OpenAIProvider {
    pub config: LlmConfig,
    pub api_key: String,
    pub base_url: String,
}

/// The default OpenAI endpoint, used when the configuration names none.
pub open spec fn spec_default_base_url() -> Seq<char> {
    "https://api.openai.com/v1"@
}

/// The value of a bearer Authorization header for the given key.
pub fn bearer_value(key: &str) -> (r: String)
    ensures
        r@ == "Bearer "@ + key@,
{
    let mut out: Vec<char> = Vec::new();
    append_str(&mut out, "Bearer ");
    append_str(&mut out, key);
    chars_to_string(&out)
}

/// Classifies the HTTP status of a vendor response: a 2xx status is
/// success, anything else fails with the `ApiError` carrying the status
/// and the response body — never retried here, since the retry policy
/// lives in the conversation loop.
pub fn classify_status(status: u16, error_body: String) -> (r: Result<(), ProviderError>)
    ensures
        200 <= status < 300 ==> r is Ok,
        !(200 <= status < 300) ==> (r matches Err(e) && e@ == (ProviderErrorV::ApiError {
            status,
            message: error_body@,
        })),
{
    if 200 <= status && status < 300 {
        Ok(())
    } else {
        Err(ProviderError::ApiError { status, message: error_body })
    }
}

impl OpenAIProvider {
    /// Resolves the key and base URL from the configuration.  An OpenAI
    /// provider cannot exist without an API key, so the caller validates
    /// the configuration first.
    pub fn new(config: LlmConfig) -> (r: Self)
        requires
            config.api_key is Some,
        ensures
            r.config == config,
            r.api_key@ == config.api_key->0@,
            r.base_url@ == match config.base_url {
                Some(u) => u@,
                None => spec_default_base_url(),
            },
    {
        let api_key = match &config.api_key {
            Some(k) => k.clone(),
            None => unreached(),
        };
        let base_url = match &config.base_url {
            Some(u) => u.clone(),
            None => String::from_str("https://api.openai.com/v1"),
        };
        OpenAIProvider { config, api_key, base_url }
    }

    /// The value of the Authorization header: "Bearer " and the key.
    pub fn auth_header_value(&self) -> (r: String)
        ensures
            r@ == "Bearer "@ + self.api_key@,
    {
        bearer_value(self.api_key.as_str())
    }

    /// The chat-completions endpoint under the configured base URL.
    pub fn completion_url(&self) -> (r: String)
        ensures
            r@ == self.base_url@ + "/chat/completions"@,
    {
        let mut out: Vec<char> = Vec::new();
        append_str(&mut out, self.base_url.as_str());
        append_str(&mut out, "/chat/completions");
        chars_to_string(&out)
    }

    /// Prepares the body of a non-streaming completion: the exact vendor
    /// JSON for the request, or a configuration error when this adapter
    /// serves a different provider.
    pub fn prepare_completion(&self, request: &CompletionRequest) -> (r: Result<
        String,
        ProviderError,
    >)
        ensures
            self.config.provider == Provider::OpenAI ==> (r matches Ok(body) && body@
                == spec_request_body(request@, false)),
            self.config.provider != Provider::OpenAI ==> (r matches Err(e) && e@
                == ProviderErrorV::ConfigError(
                "Invalid provider configured for OpenAIProvider"@,
            )),
    {
        match self.config.provider {
            Provider::OpenAI => Ok(request_body(request, false)),
            _ => Err(
                ProviderError::ConfigError(
                    String::from_str("Invalid provider configured for OpenAIProvider"),
                ),
            ),
        }
    }

    /// Prepares the body of a streaming completion.  Tool declarations
    /// with streaming are refused as unsupported — the delta reassembler
    /// removes this limitation once callers opt in — and a wrong provider
    /// is a configuration error, in that order.
    pub fn prepare_completion_stream(&self, request: &CompletionRequest) -> (r: Result<
        String,
        ProviderError,
    >)
        ensures
            request@.tools is Some ==> (r matches Err(e) && e@ == ProviderErrorV::Unsupported(
                "Streaming tool calls are not currently supported by the OpenAI provider implementation."@,
            )),
            request@.tools is None && self.config.provider == Provider::OpenAI ==> (
            r matches Ok(body) && body@ == spec_request_body(request@, true)),
            request@.tools is None && self.config.provider != Provider::OpenAI ==> (
            r matches Err(e) && e@ == ProviderErrorV::ConfigError(
                "Invalid provider configured for OpenAIProvider"@,
            )),
    {
        if request.tools.is_some() {
            return Err(
                ProviderError::Unsupported(
                    String::from_str(
                        "Streaming tool calls are not currently supported by the OpenAI provider implementation.",
                    ),
                ),
            );
        }
        match self.config.provider {
            Provider::OpenAI => Ok(request_body(request, true)),
            _ => Err(
                ProviderError::ConfigError(
                    String::from_str("Invalid provider configured for OpenAIProvider"),
                ),
            ),
        }
    }
}

} // verus!
