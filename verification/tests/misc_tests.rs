use merco_llmproxy::crew::Workflow;
use merco_llmproxy::interface::LLMConfig;
use merco_llmproxy::sse::extract_payloads;

#[test]
fn llm_interface_config_holds_its_fields() {
    let c = LLMConfig::new(
        "openrouter".to_string(),
        "openai/gpt-4.1".to_string(),
        Some("SECRET-REDACTED".to_string()),
        "https://openrouter.ai/api/v1".to_string(),
    );
    assert_eq!(c.provider, "openrouter");
    assert_eq!(c.model_name, "openai/gpt-4.1");
    assert_eq!(c.api_key.as_deref(), Some("SECRET-REDACTED"));
    assert_eq!(c.base_url, "https://openrouter.ai/api/v1");
}

#[test]
fn workflow_variants_compare() {
    assert_eq!(Workflow::Sequential, Workflow::Sequential);
    assert_ne!(Workflow::Sequential, Workflow::Hierarchical);
}

#[test]
fn sse_framing_extracts_data_payloads_in_order() {
    let bytes = b"data: one\n: comment\ndata: two\ndata: [DONE]\ndata: \nplain line\n";
    let payloads = extract_payloads(bytes);
    assert_eq!(payloads.len(), 2);
    assert_eq!(payloads[0], b"one");
    assert_eq!(payloads[1], b"two");
}

#[test]
fn sse_framing_handles_chunk_without_trailing_newline() {
    let payloads = extract_payloads(b"data: tail");
    assert_eq!(payloads.len(), 1);
    assert_eq!(payloads[0], b"tail");
}

#[test]
fn sum_numbers_adds_its_arguments() {
    assert_eq!(merco_llmproxy::sum_numbers(123, 456), 579);
    assert_eq!(merco_llmproxy::sum_numbers(-5, 2), -3);
}
