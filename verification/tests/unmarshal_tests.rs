use merco_llmproxy::protocol::{CompletionKind, ProviderError};
use merco_llmproxy::unmarshal::parse_completion_response;

#[test]
fn text_content_becomes_message() {
    let body = b"{\"model\":\"m\",\"choices\":[{\"index\":0,\
        \"message\":{\"role\":\"assistant\",\"content\":\"4\"},\
        \"finish_reason\":\"stop\"}]}";
    let resp = parse_completion_response(body).unwrap();
    match resp.kind {
        CompletionKind::Message { content } => assert_eq!(content, "4"),
        _ => panic!("expected Message"),
    }
    assert_eq!(resp.finish_reason.as_deref(), Some("stop"));
    assert!(resp.usage.is_none());
}

#[test]
fn tool_call_entries_become_tool_call() {
    let body = b"{\"model\":\"m\",\"choices\":[{\"index\":0,\
        \"message\":{\"role\":\"assistant\",\"content\":null,\"tool_calls\":[\
        {\"id\":\"call_abc\",\"type\":\"function\",\
         \"function\":{\"name\":\"get_current_time\",\"arguments\":\"{}\"}}]},\
        \"finish_reason\":\"tool_calls\"}]}";
    let resp = parse_completion_response(body).unwrap();
    match resp.kind {
        CompletionKind::ToolCall { tool_calls } => {
            assert_eq!(tool_calls.len(), 1);
            assert_eq!(tool_calls[0].id, "call_abc");
            assert_eq!(tool_calls[0].function.name, "get_current_time");
            assert_eq!(tool_calls[0].function.arguments, "{}");
        }
        _ => panic!("expected ToolCall"),
    }
}

#[test]
fn tool_calls_win_over_content() {
    let body = b"{\"model\":\"m\",\"choices\":[{\"index\":0,\
        \"message\":{\"role\":\"assistant\",\"content\":\"ignored\",\"tool_calls\":[\
        {\"id\":\"i\",\"type\":\"function\",\
         \"function\":{\"name\":\"f\",\"arguments\":\"{}\"}}]}}]}";
    let resp = parse_completion_response(body).unwrap();
    assert!(matches!(resp.kind, CompletionKind::ToolCall { .. }));
}

#[test]
fn missing_parts_with_tool_finish_reason_degrade_to_empty_call_set() {
    let body = b"{\"model\":\"m\",\"choices\":[{\"index\":0,\
        \"message\":{\"role\":\"assistant\"},\"finish_reason\":\"tool_calls\"}]}";
    let resp = parse_completion_response(body).unwrap();
    match resp.kind {
        CompletionKind::ToolCall { tool_calls } => assert!(tool_calls.is_empty()),
        _ => panic!("expected empty ToolCall"),
    }
}

#[test]
fn missing_parts_with_other_finish_reason_degrade_to_empty_message() {
    let body = b"{\"model\":\"m\",\"choices\":[{\"index\":0,\
        \"message\":{\"role\":\"assistant\",\"content\":null},\"finish_reason\":\"stop\"}]}";
    let resp = parse_completion_response(body).unwrap();
    match resp.kind {
        CompletionKind::Message { content } => assert_eq!(content, ""),
        _ => panic!("expected empty Message"),
    }
}

#[test]
fn usage_is_mapped_one_to_one() {
    let body = b"{\"model\":\"m\",\"choices\":[{\"index\":0,\
        \"message\":{\"role\":\"assistant\",\"content\":\"ok\"}}],\
        \"usage\":{\"prompt_tokens\":10,\"completion_tokens\":5,\"total_tokens\":15}}";
    let resp = parse_completion_response(body).unwrap();
    let usage = resp.usage.unwrap();
    assert_eq!(usage.prompt_tokens, 10);
    assert_eq!(usage.completion_tokens, 5);
    assert_eq!(usage.total_tokens, 15);
}

#[test]
fn empty_choice_list_is_a_parse_error() {
    let body = b"{\"model\":\"m\",\"choices\":[]}";
    match parse_completion_response(body) {
        Err(ProviderError::ParseError(msg)) => {
            assert_eq!(msg, "No choices found in OpenAI response");
        }
        _ => panic!("expected ParseError"),
    }
}

#[test]
fn malformed_json_is_a_parse_error() {
    match parse_completion_response(b"{not json") {
        Err(ProviderError::ParseError(_)) => {}
        _ => panic!("expected ParseError"),
    }
}

#[test]
fn missing_required_field_is_a_parse_error() {
    // no "model"
    let body = b"{\"choices\":[{\"index\":0,\
        \"message\":{\"role\":\"assistant\",\"content\":\"x\"}}]}";
    match parse_completion_response(body) {
        Err(ProviderError::ParseError(msg)) => {
            assert_eq!(msg, "missing or invalid field `model`");
        }
        _ => panic!("expected ParseError"),
    }
}

#[test]
fn tool_call_without_id_is_a_parse_error() {
    let body = b"{\"model\":\"m\",\"choices\":[{\"index\":0,\
        \"message\":{\"role\":\"assistant\",\"tool_calls\":[\
        {\"type\":\"function\",\"function\":{\"name\":\"f\",\"arguments\":\"{}\"}}]}}]}";
    match parse_completion_response(body) {
        Err(ProviderError::ParseError(msg)) => {
            assert_eq!(msg, "missing or invalid field `id`");
        }
        _ => panic!("expected ParseError"),
    }
}

#[test]
fn out_of_range_usage_is_a_parse_error() {
    let body = b"{\"model\":\"m\",\"choices\":[{\"index\":0,\
        \"message\":{\"role\":\"assistant\",\"content\":\"x\"}}],\
        \"usage\":{\"prompt_tokens\":4294967296,\"completion_tokens\":0,\"total_tokens\":0}}";
    assert!(matches!(
        parse_completion_response(body),
        Err(ProviderError::ParseError(_))
    ));
}
