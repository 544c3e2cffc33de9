use merco_llmproxy::agent::{Agent, AgentLLMConfig, Task};
use merco_llmproxy::config::{LlmConfig, Provider};
use merco_llmproxy::machine::{AgentMachine, LoopAction, LoopEvent, MAX_RETRIES};
use merco_llmproxy::protocol::{
    ChatMessageRole, CompletionKind, CompletionResponse, ProviderError, ToolCallFunction,
    ToolCallRequest,
};

fn test_agent(tools: Vec<merco_llmproxy::protocol::Tool>) -> Agent {
    let base = LlmConfig::new(Provider::OpenAI, "m".to_string()).with_api_key("k".to_string());
    let llm = AgentLLMConfig::new(base, "m".to_string(), 0, 1000);
    Agent::new(
        llm,
        "You are a helpful assistant that can tell the time.".to_string(),
        vec!["Get current time using available tools.".to_string()],
        tools,
    )
}

fn message_event(text: &str) -> LoopEvent {
    LoopEvent::CompletionSucceeded(CompletionResponse {
        kind: CompletionKind::Message { content: text.to_string() },
        usage: None,
        finish_reason: None,
    })
}

fn tool_call_event(id: &str, name: &str, arguments: &str) -> LoopEvent {
    LoopEvent::CompletionSucceeded(CompletionResponse {
        kind: CompletionKind::ToolCall {
            tool_calls: vec![ToolCallRequest {
                id: id.to_string(),
                function: ToolCallFunction {
                    name: name.to_string(),
                    arguments: arguments.to_string(),
                },
            }],
        },
        usage: None,
        finish_reason: Some("tool_calls".to_string()),
    })
}

#[test]
fn seed_holds_persona_goals_and_task() {
    let agent = test_agent(vec![]);
    let task = Task::new(
        "What time is it right now?".to_string(),
        Some("Current time information.".to_string()),
    );
    let (_, action) = AgentMachine::start(agent, task, "Plain text.".to_string(), MAX_RETRIES);
    let req = match action {
        LoopAction::RequestCompletion(req) => req,
        _ => panic!("expected a completion request"),
    };
    assert_eq!(req.messages.len(), 3);
    assert_eq!(req.messages[0].role, ChatMessageRole::System);
    assert_eq!(
        req.messages[0].content.as_deref(),
        Some("You are a helpful assistant that can tell the time.")
    );
    assert_eq!(req.messages[1].role, ChatMessageRole::User);
    assert_eq!(
        req.messages[1].content.as_deref(),
        Some("Get current time using available tools.")
    );
    assert_eq!(req.messages[2].role, ChatMessageRole::User);
    assert_eq!(
        req.messages[2].content.as_deref(),
        Some(
            "TASK: What time is it right now?\n\nEXPECTED OUTPUT: Current time information.\n\n\
             OUTPUT FORMAT:\nPlain text."
        )
    );
    assert_eq!(req.model, "m");
    assert_eq!(req.temperature_milli, Some(0));
    assert_eq!(req.max_tokens, Some(1000));
}

#[test]
fn identical_inputs_seed_identical_transcripts() {
    let make = || {
        let agent = test_agent(vec![]);
        let task = Task::new("T".to_string(), None);
        let (_, action) = AgentMachine::start(agent, task, "F".to_string(), MAX_RETRIES);
        match action {
            LoopAction::RequestCompletion(req) => req
                .messages
                .iter()
                .map(|m| (m.role, m.content.clone()))
                .collect::<Vec<_>>(),
            _ => panic!("expected a completion request"),
        }
    };
    assert_eq!(make(), make());
}

#[test]
fn missing_expected_output_renders_none() {
    let agent = test_agent(vec![]);
    let task = Task::new("T".to_string(), None);
    let (_, action) = AgentMachine::start(agent, task, "F".to_string(), MAX_RETRIES);
    let req = match action {
        LoopAction::RequestCompletion(req) => req,
        _ => panic!("expected a completion request"),
    };
    assert_eq!(
        req.messages[2].content.as_deref(),
        Some("TASK: T\n\nEXPECTED OUTPUT: None\n\nOUTPUT FORMAT:\nF")
    );
}

#[test]
fn tool_call_is_dispatched_once_and_result_becomes_tool_turn() {
    let agent = test_agent(vec![]);
    let task = Task::new("What time is it right now?".to_string(), None);
    let (mut m, _) = AgentMachine::start(agent, task, "Plain text.".to_string(), MAX_RETRIES);
    let action = m.step(tool_call_event("call_7", "get_current_time", "{}")).unwrap();
    // the bridge is asked to run the tool exactly once, with the call's
    // name and raw JSON arguments
    match &action {
        LoopAction::InvokeTool { name, arguments } => {
            assert_eq!(name, "get_current_time");
            assert_eq!(arguments, "{}");
        }
        _ => panic!("expected InvokeTool"),
    }
    let action = m
        .step(LoopEvent::ToolReturned(Ok("2025-01-01 12:00:00 UTC".to_string())))
        .unwrap();
    let req = match action {
        LoopAction::RequestCompletion(req) => req,
        _ => panic!("expected a follow-up completion request"),
    };
    // the transcript gained the assistant tool-call turn and one
    // tool-result turn echoing the call id
    assert_eq!(req.messages.len(), 5);
    let assistant = &req.messages[3];
    assert_eq!(assistant.role, ChatMessageRole::Assistant);
    assert!(assistant.content.is_none());
    let calls = assistant.tool_calls.as_ref().unwrap();
    assert_eq!(calls.len(), 1);
    assert_eq!(calls[0].id, "call_7");
    let tool = &req.messages[4];
    assert_eq!(tool.role, ChatMessageRole::Tool);
    assert_eq!(tool.tool_call_id.as_deref(), Some("call_7"));
    assert_eq!(tool.content.as_deref(), Some("2025-01-01 12:00:00 UTC"));
}

#[test]
fn tool_failure_becomes_text_and_never_aborts() {
    let agent = test_agent(vec![]);
    let task = Task::new("T".to_string(), None);
    let (mut m, _) = AgentMachine::start(agent, task, "F".to_string(), MAX_RETRIES);
    m.step(tool_call_event("id1", "get_current_time", "{}")).unwrap();
    let action = m
        .step(LoopEvent::ToolReturned(Err("clock unavailable".to_string())))
        .unwrap();
    let req = match action {
        LoopAction::RequestCompletion(req) => req,
        _ => panic!("expected a follow-up completion request"),
    };
    assert_eq!(
        req.messages[4].content.as_deref(),
        Some("Error executing tool get_current_time: clock unavailable")
    );
}

#[test]
fn batch_of_calls_is_dispatched_in_order() {
    let agent = test_agent(vec![]);
    let task = Task::new("T".to_string(), None);
    let (mut m, _) = AgentMachine::start(agent, task, "F".to_string(), MAX_RETRIES);
    let event = LoopEvent::CompletionSucceeded(CompletionResponse {
        kind: CompletionKind::ToolCall {
            tool_calls: vec![
                ToolCallRequest {
                    id: "a".to_string(),
                    function: ToolCallFunction {
                        name: "first".to_string(),
                        arguments: "{}".to_string(),
                    },
                },
                ToolCallRequest {
                    id: "b".to_string(),
                    function: ToolCallFunction {
                        name: "second".to_string(),
                        arguments: "{\"x\":1}".to_string(),
                    },
                },
            ],
        },
        usage: None,
        finish_reason: None,
    });
    let action = m.step(event).unwrap();
    assert!(matches!(action, LoopAction::InvokeTool { ref name, .. } if name == "first"));
    let action = m.step(LoopEvent::ToolReturned(Ok("r1".to_string()))).unwrap();
    assert!(matches!(action, LoopAction::InvokeTool { ref name, .. } if name == "second"));
    let action = m.step(LoopEvent::ToolReturned(Ok("r2".to_string()))).unwrap();
    let req = match action {
        LoopAction::RequestCompletion(req) => req,
        _ => panic!("expected a completion request"),
    };
    assert_eq!(req.messages[4].tool_call_id.as_deref(), Some("a"));
    assert_eq!(req.messages[4].content.as_deref(), Some("r1"));
    assert_eq!(req.messages[5].tool_call_id.as_deref(), Some("b"));
    assert_eq!(req.messages[5].content.as_deref(), Some("r2"));
}

#[test]
fn empty_tool_call_set_reissues_the_request() {
    let agent = test_agent(vec![]);
    let task = Task::new("T".to_string(), None);
    let (mut m, _) = AgentMachine::start(agent, task, "F".to_string(), MAX_RETRIES);
    let event = LoopEvent::CompletionSucceeded(CompletionResponse {
        kind: CompletionKind::ToolCall { tool_calls: vec![] },
        usage: None,
        finish_reason: Some("tool_calls".to_string()),
    });
    let action = m.step(event).unwrap();
    let req = match action {
        LoopAction::RequestCompletion(req) => req,
        _ => panic!("expected a completion request"),
    };
    // the empty assistant turn is still recorded
    assert_eq!(req.messages.len(), 4);
    assert!(req.messages[3].tool_calls.as_ref().unwrap().is_empty());
}

#[test]
fn validation_success_finishes_with_the_output() {
    let agent = test_agent(vec![]);
    let task = Task::new("What is 2 + 2?".to_string(), None);
    let (mut m, _) = AgentMachine::start(agent, task, "F".to_string(), MAX_RETRIES);
    let action = m.step(message_event("4")).unwrap();
    assert!(matches!(action, LoopAction::ValidateOutput(ref t) if t == "4"));
    assert!(m.step(LoopEvent::ValidationPassed).is_none());
    assert!(m.is_finished());
    assert_eq!(m.into_outcome(), Ok("4".to_string()));
}

#[test]
fn rejected_then_accepted_output_takes_two_attempts() {
    let agent = test_agent(vec![]);
    let task = Task::new("Give a JSON object.".to_string(), None);
    let (mut m, _) = AgentMachine::start(agent, task, "JSON object.".to_string(), MAX_RETRIES);
    let action = m.step(message_event("42")).unwrap();
    assert!(matches!(action, LoopAction::ValidateOutput(ref t) if t == "42"));
    let action = m
        .step(LoopEvent::ValidationFailed("a JSON object is required".to_string()))
        .unwrap();
    assert_eq!(m.attempt(), 2);
    // the retry re-seeds the transcript and quotes the validation error
    let req = match action {
        LoopAction::RequestCompletion(req) => req,
        _ => panic!("expected a completion request"),
    };
    assert_eq!(req.messages.len(), 4);
    assert_eq!(
        req.messages[3].content.as_deref(),
        Some(
            "Your previous response was invalid: a JSON object is required. \
             Please provide a corrected response that follows the required format exactly."
        )
    );
    let action = m.step(message_event("{\"answer\":42}")).unwrap();
    assert!(matches!(action, LoopAction::ValidateOutput(_)));
    assert!(m.step(LoopEvent::ValidationPassed).is_none());
    assert_eq!(m.attempt(), 2);
    assert_eq!(m.into_outcome(), Ok("{\"answer\":42}".to_string()));
}

#[test]
fn always_failing_validator_exhausts_exactly_the_budget() {
    let agent = test_agent(vec![]);
    let task = Task::new("T".to_string(), None);
    let (mut m, mut action) =
        AgentMachine::start(agent, task, "F".to_string(), MAX_RETRIES);
    let mut attempts = 0u32;
    loop {
        match action {
            LoopAction::RequestCompletion(_) => {
                attempts += 1;
                action = m.step(message_event("x")).unwrap();
            }
            LoopAction::ValidateOutput(_) => {
                match m.step(LoopEvent::ValidationFailed("bad".to_string())) {
                    Some(next) => action = next,
                    None => break,
                }
            }
            LoopAction::InvokeTool { .. } => panic!("no tools declared"),
        }
    }
    assert_eq!(attempts, MAX_RETRIES);
    assert!(m.is_finished());
    assert_eq!(
        m.into_outcome(),
        Err("Output validation failed after 3 attempts. Last error: bad. Raw output: x"
            .to_string())
    );
}

#[test]
fn transport_failures_are_retried_until_exhausted() {
    let agent = test_agent(vec![]);
    let task = Task::new("T".to_string(), None);
    let (mut m, _) = AgentMachine::start(agent, task, "F".to_string(), MAX_RETRIES);
    let api_error = || {
        LoopEvent::CompletionFailed(ProviderError::ApiError {
            status: 500,
            message: "boom".to_string(),
        })
    };
    assert!(m.step(api_error()).is_some());
    assert_eq!(m.attempt(), 2);
    assert!(m.step(api_error()).is_some());
    assert_eq!(m.attempt(), 3);
    assert!(m.step(api_error()).is_none());
    assert_eq!(
        m.into_outcome(),
        Err("LLM execution failed after 3 attempts: API response error: 500: boom".to_string())
    );
}

#[test]
fn config_failure_fails_immediately_without_retries() {
    let agent = test_agent(vec![]);
    let task = Task::new("T".to_string(), None);
    let (mut m, _) = AgentMachine::start(agent, task, "F".to_string(), MAX_RETRIES);
    let event = LoopEvent::CompletionFailed(ProviderError::MissingConfig(
        "OPENROUTER_API_KEY".to_string(),
    ));
    assert!(m.step(event).is_none());
    assert_eq!(m.attempt(), 1);
    assert_eq!(
        m.into_outcome(),
        Err("LLM execution failed: Missing required configuration: OPENROUTER_API_KEY"
            .to_string())
    );
}

#[test]
fn every_tool_turn_answers_the_preceding_assistant_turn() {
    let agent = test_agent(vec![]);
    let task = Task::new("T".to_string(), None);
    let (mut m, _) = AgentMachine::start(agent, task, "F".to_string(), MAX_RETRIES);
    // two tool round-trips, then inspect the transcript of the last
    // issued request
    let mut last_request = None;
    for round in 0..2 {
        let id = format!("call_{}", round);
        m.step(tool_call_event(&id, "get_current_time", "{}")).unwrap();
        let action = m.step(LoopEvent::ToolReturned(Ok("t".to_string()))).unwrap();
        match action {
            LoopAction::RequestCompletion(req) => last_request = Some(req),
            _ => panic!("expected a completion request"),
        }
    }
    let req = last_request.unwrap();
    for (k, msg) in req.messages.iter().enumerate() {
        if msg.role == ChatMessageRole::Tool {
            // find the nearest preceding non-Tool message
            let mut j = k;
            while j > 0 && req.messages[j - 1].role == ChatMessageRole::Tool {
                j -= 1;
            }
            let anchor = &req.messages[j - 1];
            assert_eq!(anchor.role, ChatMessageRole::Assistant);
            let ids: Vec<&str> = anchor
                .tool_calls
                .as_ref()
                .unwrap()
                .iter()
                .map(|c| c.id.as_str())
                .collect();
            assert!(ids.contains(&msg.tool_call_id.as_deref().unwrap()));
        }
    }
}

#[test]
fn budget_of_one_fails_on_the_first_rejection() {
    let agent = test_agent(vec![]);
    let task = Task::new("T".to_string(), None);
    let (mut m, _) = AgentMachine::start(agent, task, "F".to_string(), 1);
    m.step(message_event("x")).unwrap();
    assert!(m.step(LoopEvent::ValidationFailed("bad".to_string())).is_none());
    assert_eq!(m.attempt(), 1);
    assert_eq!(
        m.into_outcome(),
        Err("Output validation failed after 1 attempts. Last error: bad. Raw output: x"
            .to_string())
    );
}
