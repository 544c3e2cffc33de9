use merco_llmproxy::config::{LlmConfig, Provider};
use merco_llmproxy::machine::render_provider_error;
use merco_llmproxy::ollama::OllamaProvider;
use merco_llmproxy::openai::{classify_status, OpenAIProvider};
use merco_llmproxy::{get_provider, ProviderAdapter};
use merco_llmproxy::protocol::{
    ChatMessage, ChatMessageRole, CompletionRequest, JsonSchema, ProviderError, Tool,
};

fn openai_provider() -> OpenAIProvider {
    let config = LlmConfig::new(Provider::OpenAI, "m".to_string())
        .with_api_key("SECRET-REDACTED".to_string());
    OpenAIProvider::new(config)
}

fn plain_request(tools: Option<Vec<Tool>>) -> CompletionRequest {
    CompletionRequest::new(
        vec![ChatMessage::new(
            ChatMessageRole::User,
            Some("hi".to_string()),
            None,
            None,
        )],
        "m".to_string(),
        Some(100),
        Some(150),
        tools,
    )
}

#[test]
fn auth_header_carries_bearer_key() {
    let p = openai_provider();
    assert_eq!(p.auth_header_value(), "Bearer SECRET-REDACTED");
}

#[test]
fn completion_url_appends_chat_completions() {
    let p = openai_provider();
    assert_eq!(p.completion_url(), "https://api.openai.com/v1/chat/completions");
}

#[test]
fn prepare_completion_renders_the_body() {
    let p = openai_provider();
    let body = p.prepare_completion(&plain_request(None)).unwrap();
    assert!(body.starts_with("{\"model\":\"m\""));
    assert!(body.contains("\"stream\":false"));
}

#[test]
fn prepare_completion_refuses_wrong_provider() {
    let config = LlmConfig::new(Provider::Ollama, "m".to_string())
        .with_api_key("k".to_string());
    let p = OpenAIProvider::new(config);
    match p.prepare_completion(&plain_request(None)) {
        Err(ProviderError::ConfigError(msg)) => {
            assert_eq!(msg, "Invalid provider configured for OpenAIProvider");
        }
        _ => panic!("expected ConfigError"),
    }
}

#[test]
fn prepare_stream_refuses_tool_declarations() {
    let p = openai_provider();
    let tool = Tool {
        name: "f".to_string(),
        description: "d".to_string(),
        parameters: JsonSchema {
            schema_type: "object".to_string(),
            properties: None,
            required: None,
        },
    };
    match p.prepare_completion_stream(&plain_request(Some(vec![tool]))) {
        Err(ProviderError::Unsupported(msg)) => {
            assert_eq!(
                msg,
                "Streaming tool calls are not currently supported by the OpenAI provider \
                 implementation."
            );
        }
        _ => panic!("expected Unsupported"),
    }
}

#[test]
fn prepare_stream_sets_the_stream_flag() {
    let p = openai_provider();
    let body = p.prepare_completion_stream(&plain_request(None)).unwrap();
    assert!(body.contains("\"stream\":true"));
}

#[test]
fn provider_errors_render_their_messages() {
    assert_eq!(
        render_provider_error(&ProviderError::RequestError("timed out".to_string())),
        "API request failed: timed out"
    );
    assert_eq!(
        render_provider_error(&ProviderError::ApiError {
            status: 429,
            message: "slow down".to_string()
        }),
        "API response error: 429: slow down"
    );
    assert_eq!(
        render_provider_error(&ProviderError::ParseError("bad json".to_string())),
        "Failed to parse API response: bad json"
    );
    assert_eq!(
        render_provider_error(&ProviderError::StreamError("cut".to_string())),
        "Stream failed: cut"
    );
    assert_eq!(
        render_provider_error(&ProviderError::ToolFormatError("odd".to_string())),
        "Tool use response format error: odd"
    );
    assert_eq!(
        render_provider_error(&ProviderError::Unexpected("?".to_string())),
        "An unexpected error occurred: ?"
    );
}

#[test]
fn status_outside_2xx_becomes_an_api_error() {
    assert!(classify_status(200, String::new()).is_ok());
    assert!(classify_status(299, String::new()).is_ok());
    match classify_status(404, "not found".to_string()) {
        Err(ProviderError::ApiError { status, message }) => {
            assert_eq!(status, 404);
            assert_eq!(message, "not found");
        }
        _ => panic!("expected ApiError"),
    }
    assert!(classify_status(199, String::new()).is_err());
    assert!(classify_status(500, "boom".to_string()).is_err());
}

#[test]
fn ollama_adapter_renders_the_same_wire_body() {
    let config = LlmConfig::new(Provider::Ollama, "qwen3:4b".to_string());
    let p = OllamaProvider::new(config);
    assert_eq!(p.completion_url(), "http://localhost:11434/v1/chat/completions");
    let body = p.prepare_completion(&plain_request(None)).unwrap();
    assert!(body.starts_with("{\"model\":\"m\""));
    assert!(body.contains("\"stream\":false"));
}

#[test]
fn ollama_adapter_refuses_wrong_provider_and_streaming_tools() {
    let wrong = OllamaProvider::new(
        LlmConfig::new(Provider::OpenAI, "m".to_string()).with_api_key("k".to_string()),
    );
    match wrong.prepare_completion(&plain_request(None)) {
        Err(ProviderError::ConfigError(msg)) => {
            assert_eq!(msg, "Invalid provider configured for OllamaProvider");
        }
        _ => panic!("expected ConfigError"),
    }
    let p = OllamaProvider::new(LlmConfig::new(Provider::Ollama, "m".to_string()));
    let tool = Tool {
        name: "f".to_string(),
        description: "d".to_string(),
        parameters: JsonSchema {
            schema_type: "object".to_string(),
            properties: None,
            required: None,
        },
    };
    match p.prepare_completion_stream(&plain_request(Some(vec![tool]))) {
        Err(ProviderError::Unsupported(msg)) => {
            assert_eq!(
                msg,
                "Streaming tool calls are not currently supported by the Ollama provider \
                 implementation."
            );
        }
        _ => panic!("expected Unsupported"),
    }
}

#[test]
fn adapter_auth_header_follows_the_vendor_rules() {
    let openai = get_provider(
        LlmConfig::new(Provider::OpenAI, "m".to_string()).with_api_key("k".to_string()),
    )
    .unwrap();
    assert_eq!(openai.auth_header().as_deref(), Some("Bearer k"));
    let ollama_plain = get_provider(LlmConfig::new(Provider::Ollama, "m".to_string())).unwrap();
    assert!(ollama_plain.auth_header().is_none());
    let ollama_keyed = get_provider(
        LlmConfig::new(Provider::Ollama, "m".to_string()).with_api_key("ok".to_string()),
    )
    .unwrap();
    assert_eq!(ollama_keyed.auth_header().as_deref(), Some("Bearer ok"));
    assert!(matches!(ollama_keyed, ProviderAdapter::Ollama(_)));
}
