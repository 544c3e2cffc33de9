//! Provider selection and connection configuration.

use vstd::prelude::*;

verus! {

/// The vendor family a completion request is routed to.
#[derive(Debug, Clone, Copy, PartialEq, Eq, Structural)]
pub enum Provider {
    OpenAI,
    Ollama,
    Anthropic,
    /// Self-hosted or less common providers reached through a base URL.
    Custom,
}

/// Connection configuration for one provider instance.
#[derive(Debug, Clone)]
pub struct LlmConfig {
    pub provider: Provider,
    pub model: String,
    /// Optional: some providers (like a local Ollama) need no key.
    pub api_key: Option<String>,
    /// Optional override, mainly for `Custom` providers.
    pub base_url: Option<String>,
}

/// A configuration that cannot be used to reach its provider.
#[derive(Debug, Clone, Copy, PartialEq, Eq, Structural)]
pub enum ConfigError {
    MissingApiKey(Provider),
    MissingBaseUrl,
}

/// What `LlmConfig::validate` decides, as a function of the configuration.
pub open spec fn spec_validate(
    provider: Provider,
    has_api_key: bool,
    has_base_url: bool,
) -> Result<(), ConfigError> {
    match provider {
        Provider::OpenAI | Provider::Anthropic => if !has_api_key {
            Err(ConfigError::MissingApiKey(provider))
        } else {
            Ok(())
        },
        Provider::Custom => if !has_base_url {
            Err(ConfigError::MissingBaseUrl)
        } else {
            Ok(())
        },
        Provider::Ollama => Ok(()),
    }
}

/// The name of a provider, as its debug rendering shows it.
pub open spec fn spec_provider_name(p: Provider) -> Seq<char> {
    match p {
        Provider::OpenAI => "OpenAI"@,
        Provider::Ollama => "Ollama"@,
        Provider::Anthropic => "Anthropic"@,
        Provider::Custom => "Custom"@,
    }
}

/// The message text of a configuration error.
pub open spec fn spec_config_error_text(e: ConfigError) -> Seq<char> {
    match e {
        ConfigError::MissingApiKey(p) => "Missing API key for provider: "@ + spec_provider_name(p),
        ConfigError::MissingBaseUrl => "Missing base URL for custom provider"@,
    }
}

/// Renders a configuration error as its message text.
pub fn render_config_error(e: &ConfigError) -> (r: String)
    ensures
        r@ == spec_config_error_text(*e),
{
    let mut out: Vec<char> = Vec::new();
    match e {
        ConfigError::MissingApiKey(p) => {
            crate::text::append_str(&mut out, "Missing API key for provider: ");
            match p {
                Provider::OpenAI => crate::text::append_str(&mut out, "OpenAI"),
                Provider::Ollama => crate::text::append_str(&mut out, "Ollama"),
                Provider::Anthropic => crate::text::append_str(&mut out, "Anthropic"),
                Provider::Custom => crate::text::append_str(&mut out, "Custom"),
            }
        },
        ConfigError::MissingBaseUrl => {
            crate::text::append_str(&mut out, "Missing base URL for custom provider");
        },
    }
    proof {
        assert(out@ =~= spec_config_error_text(*e));
    }
    crate::text::chars_to_string(&out)
}

impl LlmConfig {
    pub fn new(provider: Provider, model: String) -> (r: Self)
        ensures
            r.provider == provider,
            r.model@ == model@,
            r.api_key is None,
            r.base_url is None,
    {
        LlmConfig { provider, model, api_key: None, base_url: None }
    }

    pub fn with_api_key(self, api_key: String) -> (r: Self)
        ensures
            r.provider == self.provider,
            r.model@ == self.model@,
            r.api_key matches Some(k) && k@ == api_key@,
            r.base_url == self.base_url,
    {
        LlmConfig { api_key: Some(api_key), ..self }
    }

    pub fn with_base_url(self, base_url: String) -> (r: Self)
        ensures
            r.provider == self.provider,
            r.model@ == self.model@,
            r.api_key == self.api_key,
            r.base_url matches Some(u) && u@ == base_url@,
    {
        LlmConfig { base_url: Some(base_url), ..self }
    }

    /// Checks that the fields a provider requires are present: OpenAI and
    /// Anthropic need an API key, a custom provider needs a base URL, and a
    /// local Ollama needs nothing.
    pub fn validate(&self) -> (r: Result<(), ConfigError>)
        ensures
            r == spec_validate(self.provider, self.api_key is Some, self.base_url is Some),
    {
        match self.provider {
            Provider::OpenAI | Provider::Anthropic => {
                if self.api_key.is_none() {
                    return Err(ConfigError::MissingApiKey(self.provider));
                }
            },
            Provider::Custom => {
                if self.base_url.is_none() {
                    return Err(ConfigError::MissingBaseUrl);
                }
            },
            Provider::Ollama => {},
        }
        Ok(())
    }
}

} // verus!
