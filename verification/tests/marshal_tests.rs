use merco_llmproxy::marshal::request_body;
use merco_llmproxy::protocol::{
    ChatMessage, ChatMessageRole, CompletionRequest, JsonSchema, JsonSchemaProperty, Tool,
    ToolCallFunction, ToolCallRequest,
};

fn simple_request() -> CompletionRequest {
    CompletionRequest::new(
        vec![ChatMessage::new(
            ChatMessageRole::System,
            Some("helper".to_string()),
            None,
            None,
        )],
        "m".to_string(),
        None,
        None,
        Some(vec![]),
    )
}

#[test]
fn body_for_system_message_and_empty_tools() {
    let body = request_body(&simple_request(), false);
    assert_eq!(
        body,
        "{\"model\":\"m\",\"messages\":[{\"role\":\"system\",\"content\":\"helper\"}],\
         \"stream\":false,\"tools\":[],\"tool_choice\":\"auto\"}"
    );
}

#[test]
fn body_stream_flag_is_rendered() {
    let body = request_body(&simple_request(), true);
    assert!(body.contains("\"stream\":true"));
}

#[test]
fn body_renders_temperature_and_max_tokens() {
    let req = CompletionRequest::new(
        vec![ChatMessage::new(
            ChatMessageRole::User,
            Some("What is the sum of 123 and 456?".to_string()),
            None,
            None,
        )],
        "mistralai/mistral-7b-instruct-v0.1".to_string(),
        Some(100),
        Some(150),
        None,
    );
    let body = request_body(&req, false);
    assert_eq!(
        body,
        "{\"model\":\"mistralai/mistral-7b-instruct-v0.1\",\"messages\":[\
         {\"role\":\"user\",\"content\":\"What is the sum of 123 and 456?\"}],\
         \"temperature\":0.100,\"max_tokens\":150,\"stream\":false}"
    );
}

#[test]
fn body_renders_zero_temperature() {
    let req = CompletionRequest::new(vec![], "m".to_string(), Some(0), Some(1000), None);
    let body = request_body(&req, false);
    assert!(body.contains("\"temperature\":0.000"));
    assert!(body.contains("\"max_tokens\":1000"));
}

#[test]
fn body_escapes_string_content() {
    let req = CompletionRequest::new(
        vec![ChatMessage::new(
            ChatMessageRole::User,
            Some("say \"hi\"\nthen C:\\ and tab\there".to_string()),
            None,
            None,
        )],
        "m".to_string(),
        None,
        None,
        None,
    );
    let body = request_body(&req, false);
    assert!(body.contains("say \\\"hi\\\"\\nthen C:\\\\ and tab\\there"));
}

#[test]
fn body_escapes_control_characters() {
    let req = CompletionRequest::new(
        vec![ChatMessage::new(
            ChatMessageRole::User,
            Some("a\u{1}b".to_string()),
            None,
            None,
        )],
        "m".to_string(),
        None,
        None,
        None,
    );
    let body = request_body(&req, false);
    assert!(body.contains("a\\u0001b"));
}

#[test]
fn body_renders_assistant_tool_calls_and_tool_result() {
    let call = ToolCallRequest {
        id: "call_1".to_string(),
        function: ToolCallFunction {
            name: "sum_numbers".to_string(),
            arguments: "{\"a\":123,\"b\":456}".to_string(),
        },
    };
    let req = CompletionRequest::new(
        vec![
            ChatMessage::new(ChatMessageRole::Assistant, None, Some(vec![call]), None),
            ChatMessage::new(
                ChatMessageRole::Tool,
                Some("579".to_string()),
                None,
                Some("call_1".to_string()),
            ),
        ],
        "m".to_string(),
        None,
        None,
        None,
    );
    let body = request_body(&req, false);
    assert_eq!(
        body,
        "{\"model\":\"m\",\"messages\":[\
         {\"role\":\"assistant\",\"content\":null,\"tool_calls\":[\
         {\"id\":\"call_1\",\"function\":{\"name\":\"sum_numbers\",\
         \"arguments\":\"{\\\"a\\\":123,\\\"b\\\":456}\"}}]},\
         {\"role\":\"tool\",\"content\":\"579\",\"tool_call_id\":\"call_1\"}],\
         \"stream\":false}"
    );
}

#[test]
fn body_renders_tool_declaration_in_vendor_shape() {
    let tool = Tool {
        name: "sum_numbers".to_string(),
        description: "Calculates the sum of two integers.".to_string(),
        parameters: JsonSchema {
            schema_type: "object".to_string(),
            properties: Some(vec![
                JsonSchemaProperty {
                    name: "a".to_string(),
                    value_type: "integer".to_string(),
                    description: Some("First integer".to_string()),
                },
                JsonSchemaProperty {
                    name: "b".to_string(),
                    value_type: "integer".to_string(),
                    description: Some("Second integer".to_string()),
                },
            ]),
            required: Some(vec!["a".to_string(), "b".to_string()]),
        },
    };
    let req = CompletionRequest::new(vec![], "m".to_string(), None, None, Some(vec![tool]));
    let body = request_body(&req, false);
    assert_eq!(
        body,
        "{\"model\":\"m\",\"messages\":[],\"stream\":false,\"tools\":[\
         {\"type\":\"function\",\"function\":{\"name\":\"sum_numbers\",\
         \"description\":\"Calculates the sum of two integers.\",\
         \"parameters\":{\"type\":\"object\",\"properties\":{\
         \"a\":{\"type\":\"integer\",\"description\":\"First integer\"},\
         \"b\":{\"type\":\"integer\",\"description\":\"Second integer\"}},\
         \"required\":[\"a\",\"b\"]}}}],\"tool_choice\":\"auto\"}"
    );
}

#[test]
fn body_is_valid_json() {
    let call = ToolCallRequest {
        id: "c\"1".to_string(),
        function: ToolCallFunction {
            name: "f".to_string(),
            arguments: "{\"x\":\"\\\"\"}".to_string(),
        },
    };
    let req = CompletionRequest::new(
        vec![
            ChatMessage::new(ChatMessageRole::User, Some("hi\u{7}".to_string()), None, None),
            ChatMessage::new(ChatMessageRole::Assistant, None, Some(vec![call]), None),
        ],
        "m".to_string(),
        Some(700),
        Some(42),
        None,
    );
    let body = request_body(&req, true);
    let parsed: serde_json::Value = serde_json::from_str(&body).expect("body must be JSON");
    assert_eq!(parsed["model"], "m");
    assert_eq!(parsed["temperature"].as_f64(), Some(0.700));
    assert_eq!(parsed["messages"][0]["content"], "hi\u{7}");
    assert_eq!(parsed["messages"][1]["tool_calls"][0]["id"], "c\"1");
}

#[test]
fn body_renders_the_largest_max_tokens() {
    let req = CompletionRequest::new(vec![], "m".to_string(), None, Some(u32::MAX), None);
    let body = request_body(&req, false);
    assert!(body.contains("\"max_tokens\":4294967295"));
}
