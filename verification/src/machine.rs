//! The agent conversation loop as an explicit finite-state machine.
//!
//! One invocation owns a transcript and a retry counter and moves through
//! the states AwaitingCompletion, DispatchingTools, Validating, Done and
//! Failed.  The machine itself performs no I/O: [`AgentMachine::step`]
//! consumes one outside event (a completion result, a tool result, a
//! validation verdict) and answers with the next action the driver must
//! perform.  Every transition is pinned by [`spec_step`], and the laws at
//! the bottom state the loop guarantees: transcripts stay role-sequenced,
//! the retry budget is exact, and a failed validation re-grounds the next
//! attempt in a fresh seed carrying the corrective hint.

use vstd::prelude::*;
use vstd::pervasive::unreached;

use crate::agent::{
    build_seed, spec_feedback_text, spec_seed, system_msg, user_msg, Agent,
    AgentV, Task, TaskV,
};
use crate::protocol::{
    clone_calls, clone_messages, clone_opt_string, clone_tools, ChatMessage, ChatMessageRole,
    ChatMessageV, CompletionKind, CompletionRequest, CompletionRequestV, CompletionResponse,
    CompletionResponseV, CompletionKindV, ProviderError, ProviderErrorV, ToolCallRequest,
    ToolCallRequestV,
};
use crate::text::{append_str, append_u32, chars_to_string, spec_u32_digits};

verus! {

/// The retry budget of one agent invocation: whole attempts, not tool
/// round-trips within an attempt.
pub const MAX_RETRIES: u32 = 3;

/// The state of the conversation loop.
pub enum LoopPhase {
    /// A completion request is in flight.
    AwaitingCompletion,
    /// The calls of the last assistant turn are being executed, one at a
    /// time, in the order the provider emitted them; `next` is the first
    /// not yet dispatched.
    DispatchingTools { calls: Vec<ToolCallRequest>, next: usize },
    /// A final text result awaits the caller's validation verdict.
    Validating { text: String },
    /// The invocation succeeded with this output.
    Done { output: String },
    /// The invocation failed; the error names the last cause and the
    /// number of attempts made.
    Failed { error: String },
}

/// Ghost content of a `LoopPhase`.
pub ghost enum LoopPhaseV {
    AwaitingCompletion,
    DispatchingTools { calls: Seq<ToolCallRequestV>, next: usize },
    Validating { text: Seq<char> },
    Done { output: Seq<char> },
    Failed { error: Seq<char> },
}

impl View for LoopPhase {
    type V = LoopPhaseV;

    open spec fn view(&self) -> LoopPhaseV {
        match self {
            LoopPhase::AwaitingCompletion => LoopPhaseV::AwaitingCompletion,
            LoopPhase::DispatchingTools { calls, next } => LoopPhaseV::DispatchingTools {
                calls: calls.deep_view(),
                next: *next,
            },
            LoopPhase::Validating { text } => LoopPhaseV::Validating { text: text@ },
            LoopPhase::Done { output } => LoopPhaseV::Done { output: output@ },
            LoopPhase::Failed { error } => LoopPhaseV::Failed { error: error@ },
        }
    }
}

/// One outside outcome handed to the machine.
pub enum LoopEvent {
    /// The provider answered the completion request.
    CompletionSucceeded(CompletionResponse),
    /// The provider failed.
    CompletionFailed(ProviderError),
    /// The tool named by the last `InvokeTool` action returned: its result
    /// string, or the failure it raised.
    ToolReturned(Result<String, String>),
    /// The caller's validator accepted the output.
    ValidationPassed,
    /// The caller's validator rejected the output, with its error.
    ValidationFailed(String),
}

/// Ghost content of a `LoopEvent`.
pub ghost enum LoopEventV {
    CompletionSucceeded(CompletionResponseV),
    CompletionFailed(ProviderErrorV),
    ToolReturned(Result<Seq<char>, Seq<char>>),
    ValidationPassed,
    ValidationFailed(Seq<char>),
}

impl View for LoopEvent {
    type V = LoopEventV;

    open spec fn view(&self) -> LoopEventV {
        match self {
            LoopEvent::CompletionSucceeded(r) => LoopEventV::CompletionSucceeded(r@),
            LoopEvent::CompletionFailed(e) => LoopEventV::CompletionFailed(e@),
            LoopEvent::ToolReturned(res) => LoopEventV::ToolReturned(
                match res {
                    Ok(s) => Ok(s@),
                    Err(e) => Err(e@),
                },
            ),
            LoopEvent::ValidationPassed => LoopEventV::ValidationPassed,
            LoopEvent::ValidationFailed(e) => LoopEventV::ValidationFailed(e@),
        }
    }
}

/// What the driver must do next.
pub enum LoopAction {
    /// Issue this completion request and hand back the outcome.
    RequestCompletion(CompletionRequest),
    /// Execute this tool and hand back the outcome.
    InvokeTool { name: String, arguments: String },
    /// Validate this output and hand back the verdict.
    ValidateOutput(String),
}

/// Ghost content of a `LoopAction`.
pub ghost enum LoopActionV {
    RequestCompletion(CompletionRequestV),
    InvokeTool { name: Seq<char>, arguments: Seq<char> },
    ValidateOutput(Seq<char>),
}

impl View for LoopAction {
    type V = LoopActionV;

    open spec fn view(&self) -> LoopActionV {
        match self {
            LoopAction::RequestCompletion(r) => LoopActionV::RequestCompletion(r@),
            LoopAction::InvokeTool { name, arguments } => LoopActionV::InvokeTool {
                name: name@,
                arguments: arguments@,
            },
            LoopAction::ValidateOutput(t) => LoopActionV::ValidateOutput(t@),
        }
    }
}

impl DeepView for LoopAction {
    type V = LoopActionV;

    open spec fn deep_view(&self) -> LoopActionV {
        self.view()
    }
}

/// Ghost content of an `AgentMachine`.
pub ghost struct AgentMachineV {
    pub agent: AgentV,
    pub task: TaskV,
    pub format_prompt: Seq<char>,
    pub budget: u32,
    pub attempt: u32,
    pub feedback: Option<Seq<char>>,
    pub transcript: Seq<ChatMessageV>,
    pub phase: LoopPhaseV,
}

/// The state of one loop invocation: the agent and task it serves, the
/// retry bookkeeping, the transcript of the current attempt, and the phase.
pub struct AgentMachine {
    agent: Agent,
    task: Task,
    format_prompt: String,
    budget: u32,
    attempt: u32,
    feedback: Option<String>,
    transcript: Vec<ChatMessage>,
    phase: LoopPhase,
}

impl View for AgentMachine {
    type V = AgentMachineV;

    closed spec fn view(&self) -> AgentMachineV {
        AgentMachineV {
            agent: self.agent@,
            task: self.task@,
            format_prompt: self.format_prompt@,
            budget: self.budget,
            attempt: self.attempt,
            feedback: self.feedback.deep_view(),
            transcript: self.transcript.deep_view(),
            phase: self.phase@,
        }
    }
}

/// The assistant turn recording a set of tool calls (no text content).
pub open spec fn assistant_call_msg(calls: Seq<ToolCallRequestV>) -> ChatMessageV {
    ChatMessageV {
        role: ChatMessageRole::Assistant,
        content: None,
        tool_calls: Some(calls),
        tool_call_id: None,
    }
}

/// The tool turn answering the call with the given id.
pub open spec fn tool_msg(text: Seq<char>, id: Seq<char>) -> ChatMessageV {
    ChatMessageV {
        role: ChatMessageRole::Tool,
        content: Some(text),
        tool_calls: None,
        tool_call_id: Some(id),
    }
}

/// The completion request the machine issues from its current transcript.
pub open spec fn spec_request(m: AgentMachineV) -> CompletionRequestV {
    CompletionRequestV {
        messages: m.transcript,
        model: m.agent.model_name,
        temperature_milli: Some(m.agent.temperature_milli),
        max_tokens: Some(m.agent.max_tokens),
        tools: Some(m.agent.tools),
    }
}

/// The machine's transcript seed given its current feedback.
pub open spec fn spec_seed_of(m: AgentMachineV) -> Seq<ChatMessageV> {
    spec_seed(
        m.agent.backstory,
        m.agent.goals,
        m.task.description,
        m.task.expected_output,
        m.format_prompt,
        m.feedback,
    )
}

/// Whether a provider failure consumes retry budget: configuration
/// failures (invalid or missing configuration, unsupported operations)
/// cannot succeed on retry and fail the invocation immediately; transport
/// and parse failures are retried while budget remains.
pub open spec fn retry_eligible(e: ProviderErrorV) -> bool {
    match e {
        ProviderErrorV::ConfigError(_) => false,
        ProviderErrorV::MissingConfig(_) => false,
        ProviderErrorV::Unsupported(_) => false,
        _ => true,
    }
}

/// The rendering of a provider error, as its message method produces it.
pub open spec fn spec_provider_error_text(e: ProviderErrorV) -> Seq<char> {
    match e {
        ProviderErrorV::RequestError(m) => "API request failed: "@ + m,
        ProviderErrorV::ApiError { status, message } => "API response error: "@ + spec_u32_digits(
            status as nat,
        ) + ": "@ + message,
        ProviderErrorV::ParseError(m) => "Failed to parse API response: "@ + m,
        ProviderErrorV::ConfigError(m) => "Configuration error: "@ + m,
        ProviderErrorV::StreamError(m) => "Stream failed: "@ + m,
        ProviderErrorV::MissingConfig(m) => "Missing required configuration: "@ + m,
        ProviderErrorV::ToolFormatError(m) => "Tool use response format error: "@ + m,
        ProviderErrorV::Unsupported(m) => "Unsupported operation: "@ + m,
        ProviderErrorV::Unexpected(m) => "An unexpected error occurred: "@ + m,
    }
}

/// The transcript entry a tool outcome becomes: the result string itself,
/// or the failure rendered as text — a tool failure never aborts the
/// attempt.
pub open spec fn spec_tool_result_text(
    name: Seq<char>,
    outcome: Result<Seq<char>, Seq<char>>,
) -> Seq<char> {
    match outcome {
        Ok(s) => s,
        Err(e) => "Error executing tool "@ + name + ": "@ + e,
    }
}

/// The final error when the provider kept failing: the attempt count and
/// the last cause.
pub open spec fn spec_llm_failure_text(budget: u32, cause: Seq<char>) -> Seq<char> {
    "LLM execution failed after "@ + spec_u32_digits(budget as nat) + " attempts: "@ + cause
}

/// The final error for an unrecoverable configuration failure, which
/// consumes no retry budget.
pub open spec fn spec_config_failure_text(cause: Seq<char>) -> Seq<char> {
    "LLM execution failed: "@ + cause
}

/// The final error when validation kept failing: the attempt count, the
/// last validation error, and the rejected output.
pub open spec fn spec_validation_failure_text(
    budget: u32,
    error: Seq<char>,
    raw: Seq<char>,
) -> Seq<char> {
    "Output validation failed after "@ + spec_u32_digits(budget as nat) + " attempts. Last error: "@
        + error + ". Raw output: "@ + raw
}

/// Which events a phase can consume: a completion outcome while awaiting
/// one, a tool outcome while dispatching, a verdict while validating, and
/// nothing once the machine is done or failed.
pub open spec fn event_fits(m: AgentMachineV, e: LoopEventV) -> bool {
    match m.phase {
        LoopPhaseV::AwaitingCompletion => match e {
            LoopEventV::CompletionSucceeded(resp) => match resp.kind {
                CompletionKindV::ToolCall { tool_calls } => tool_calls.len() <= usize::MAX as int,
                CompletionKindV::Message { .. } => true,
            },
            LoopEventV::CompletionFailed(_) => true,
            _ => false,
        },
        LoopPhaseV::DispatchingTools { .. } => e is ToolReturned,
        LoopPhaseV::Validating { .. } => e is ValidationPassed || e is ValidationFailed,
        LoopPhaseV::Done { .. } => false,
        LoopPhaseV::Failed { .. } => false,
    }
}

/// The transition function of the loop: the machine after consuming one
/// event, and the action handed to the driver (`None` exactly when the
/// machine reached Done or Failed).
pub open spec fn spec_step(m: AgentMachineV, e: LoopEventV) -> (AgentMachineV, Option<
    LoopActionV,
>) {
    match (m.phase, e) {
        (LoopPhaseV::AwaitingCompletion, LoopEventV::CompletionSucceeded(resp)) => match resp.kind {
            CompletionKindV::Message { content } => (
                AgentMachineV { phase: LoopPhaseV::Validating { text: content }, ..m },
                Some(LoopActionV::ValidateOutput(content)),
            ),
            CompletionKindV::ToolCall { tool_calls } => {
                let t2 = m.transcript.push(assistant_call_msg(tool_calls));
                if tool_calls.len() == 0 {
                    let m2 = AgentMachineV {
                        transcript: t2,
                        phase: LoopPhaseV::AwaitingCompletion,
                        ..m
                    };
                    (m2, Some(LoopActionV::RequestCompletion(spec_request(m2))))
                } else {
                    let m2 = AgentMachineV {
                        transcript: t2,
                        phase: LoopPhaseV::DispatchingTools { calls: tool_calls, next: 0 },
                        ..m
                    };
                    (
                        m2,
                        Some(
                            LoopActionV::InvokeTool {
                                name: tool_calls[0].function.name,
                                arguments: tool_calls[0].function.arguments,
                            },
                        ),
                    )
                }
            },
        },
        (LoopPhaseV::AwaitingCompletion, LoopEventV::CompletionFailed(err)) => {
            if !retry_eligible(err) {
                (
                    AgentMachineV {
                        phase: LoopPhaseV::Failed {
                            error: spec_config_failure_text(spec_provider_error_text(err)),
                        },
                        ..m
                    },
                    None,
                )
            } else if m.attempt < m.budget {
                let m2 = AgentMachineV {
                    attempt: (m.attempt + 1) as u32,
                    transcript: spec_seed_of(m),
                    phase: LoopPhaseV::AwaitingCompletion,
                    ..m
                };
                (m2, Some(LoopActionV::RequestCompletion(spec_request(m2))))
            } else {
                (
                    AgentMachineV {
                        phase: LoopPhaseV::Failed {
                            error: spec_llm_failure_text(
                                m.budget,
                                spec_provider_error_text(err),
                            ),
                        },
                        ..m
                    },
                    None,
                )
            }
        },
        (LoopPhaseV::DispatchingTools { calls, next }, LoopEventV::ToolReturned(outcome)) => {
            let text = spec_tool_result_text(calls[next as int].function.name, outcome);
            let t2 = m.transcript.push(tool_msg(text, calls[next as int].id));
            if next + 1 < calls.len() {
                let m2 = AgentMachineV {
                    transcript: t2,
                    phase: LoopPhaseV::DispatchingTools { calls, next: (next + 1) as usize },
                    ..m
                };
                (
                    m2,
                    Some(
                        LoopActionV::InvokeTool {
                            name: calls[next + 1].function.name,
                            arguments: calls[next + 1].function.arguments,
                        },
                    ),
                )
            } else {
                let m2 = AgentMachineV {
                    transcript: t2,
                    phase: LoopPhaseV::AwaitingCompletion,
                    ..m
                };
                (m2, Some(LoopActionV::RequestCompletion(spec_request(m2))))
            }
        },
        (LoopPhaseV::Validating { text }, LoopEventV::ValidationPassed) => (
            AgentMachineV { phase: LoopPhaseV::Done { output: text }, ..m },
            None,
        ),
        (LoopPhaseV::Validating { text }, LoopEventV::ValidationFailed(verr)) => {
            if m.attempt < m.budget {
                let m1 = AgentMachineV {
                    attempt: (m.attempt + 1) as u32,
                    feedback: Some(verr),
                    ..m
                };
                let m2 = AgentMachineV {
                    transcript: spec_seed_of(m1),
                    phase: LoopPhaseV::AwaitingCompletion,
                    ..m1
                };
                (m2, Some(LoopActionV::RequestCompletion(spec_request(m2))))
            } else {
                (
                    AgentMachineV {
                        phase: LoopPhaseV::Failed {
                            error: spec_validation_failure_text(m.budget, verr, text),
                        },
                        ..m
                    },
                    None,
                )
            }
        },
        _ => (m, None),
    }
}

/// Every message is internally consistent and every Tool turn answers a
/// call of the assistant turn standing immediately before its run of Tool
/// turns.
pub open spec fn matching_anchor(t: Seq<ChatMessageV>, j: int, k: int) -> bool {
    &&& t[j].role == ChatMessageRole::Assistant
    &&& t[j].tool_calls is Some
    &&& exists|c: int|
        0 <= c < t[j].tool_calls->0.len() && Some(#[trigger] t[j].tool_calls->0[c].id)
            == t[k].tool_call_id
    &&& forall|m: int| j < m < k ==> t[m].role == ChatMessageRole::Tool
}

/// Role-sequencing of a transcript: every Tool-role message is anchored to
/// a preceding Assistant tool-call turn whose call set contains its id,
/// with only Tool turns in between.
pub open spec fn transcript_role_wf(t: Seq<ChatMessageV>) -> bool {
    forall|k: int|
        0 <= k < t.len() && t[k].role == ChatMessageRole::Tool ==> exists|j: int|
            0 <= j < k && #[trigger] matching_anchor(t, j, k)
}

/// All messages of a transcript are well-formed.
pub open spec fn transcript_msgs_wf(t: Seq<ChatMessageV>) -> bool {
    forall|k: int| 0 <= k < t.len() ==> (#[trigger] t[k]).wf()
}

/// Positions `j+1 ..= k` of `t` all hold Tool-role messages.
pub open spec fn tool_run_after(t: Seq<ChatMessageV>, j: int, k: int) -> bool {
    forall|m: int| j < m <= k ==> (#[trigger] t[m]).role == ChatMessageRole::Tool
}

/// Ordering of a transcript's Tool runs: the Tool turns that follow an
/// Assistant tool-call turn answer its calls positionally — the k-th Tool
/// turn of the run echoes the id of the k-th call — so results come back
/// in the order the calls were emitted, each call answered at most once.
pub open spec fn transcript_tool_order_wf(t: Seq<ChatMessageV>) -> bool {
    forall|j: int, k: int|
        0 <= j < k < t.len() && t[j].role == ChatMessageRole::Assistant && t[j].tool_calls is Some
            && #[trigger] tool_run_after(t, j, k) ==> {
            &&& k - j - 1 < t[j].tool_calls->0.len()
            &&& t[k].tool_call_id == Some(t[j].tool_calls->0[k - j - 1].id)
        }
}

/// While dispatching, the transcript ends with the assistant turn carrying
/// `calls` followed by one Tool turn per already-dispatched call, in
/// order.
pub open spec fn dispatch_tail_ok(
    t: Seq<ChatMessageV>,
    calls: Seq<ToolCallRequestV>,
    next: int,
) -> bool {
    let a = t.len() - 1 - next;
    &&& t.len() >= 1 + next
    &&& t[a].role == ChatMessageRole::Assistant
    &&& t[a].tool_calls == Some(calls)
    &&& forall|k: int|
        0 <= k < next ==> (#[trigger] t[a + 1 + k]).role == ChatMessageRole::Tool && t[a + 1
            + k].tool_call_id == Some(calls[k].id)
}

/// The machine invariant: the attempt counter stays within the budget,
/// the transcript is well-formed and role-sequenced, and while dispatching
/// the transcript tail mirrors the dispatch progress.
pub open spec fn machine_wf(m: AgentMachineV) -> bool {
    &&& 1 <= m.attempt <= m.budget
    &&& transcript_msgs_wf(m.transcript)
    &&& transcript_role_wf(m.transcript)
    &&& transcript_tool_order_wf(m.transcript)
    &&& match m.phase {
        LoopPhaseV::DispatchingTools { calls, next } => {
            &&& (next as int) < calls.len()
            &&& calls.len() <= usize::MAX as int
            &&& dispatch_tail_ok(m.transcript, calls, next as int)
        },
        _ => true,
    }
}

/// A transcript seed is well-formed and role-sequenced: it holds only
/// System and User turns.
pub proof fn lemma_seed_wf(
    backstory: Seq<char>,
    goals: Seq<Seq<char>>,
    description: Seq<char>,
    expected_output: Option<Seq<char>>,
    format_prompt: Seq<char>,
    feedback: Option<Seq<char>>,
)
    ensures
        transcript_msgs_wf(
            spec_seed(backstory, goals, description, expected_output, format_prompt, feedback),
        ),
        transcript_role_wf(
            spec_seed(backstory, goals, description, expected_output, format_prompt, feedback),
        ),
        transcript_tool_order_wf(
            spec_seed(backstory, goals, description, expected_output, format_prompt, feedback),
        ),
{
    let s = spec_seed(backstory, goals, description, expected_output, format_prompt, feedback);
    assert forall|k: int| 0 <= k < s.len() implies (#[trigger] s[k]).wf() && s[k].role
        != ChatMessageRole::Tool by {
        if k == 0 {
            assert(s[k] == system_msg(backstory));
        } else if k == 1 {
            assert(s[k] == user_msg(crate::text::spec_join_newline(goals)));
        } else if k == 2 {
            assert(s[k] == user_msg(
                crate::agent::spec_task_prompt(description, expected_output, format_prompt),
            ));
        } else {
            assert(s[k] == user_msg(spec_feedback_text(feedback->0)));
        }
    }
    assert forall|j: int, k: int|
        0 <= j < k < s.len() && s[j].role == ChatMessageRole::Assistant && s[j].tool_calls is Some
            && #[trigger] tool_run_after(s, j, k) implies {
        &&& k - j - 1 < s[j].tool_calls->0.len()
        &&& s[k].tool_call_id == Some(s[j].tool_calls->0[k - j - 1].id)
    } by {
        assert(s[k].role == ChatMessageRole::Tool);
        assert(false);
    }
}

/// Appending a non-Tool message keeps the Tool runs positionally ordered.
proof fn lemma_push_non_tool_order_wf(t: Seq<ChatMessageV>, msg: ChatMessageV)
    requires
        transcript_tool_order_wf(t),
        msg.role != ChatMessageRole::Tool,
    ensures
        transcript_tool_order_wf(t.push(msg)),
{
    let t2 = t.push(msg);
    assert forall|j: int, k: int|
        0 <= j < k < t2.len() && t2[j].role == ChatMessageRole::Assistant
            && t2[j].tool_calls is Some && #[trigger] tool_run_after(t2, j, k) implies {
        &&& k - j - 1 < t2[j].tool_calls->0.len()
        &&& t2[k].tool_call_id == Some(t2[j].tool_calls->0[k - j - 1].id)
    } by {
        if k == t.len() {
            assert(t2[k] == msg);
            assert(t2[k].role == ChatMessageRole::Tool);
            assert(false);
        } else {
            assert(t2[j] == t[j]);
            assert(t2[k] == t[k]);
            assert forall|m: int| j < m <= k implies (#[trigger] t[m]).role
                == ChatMessageRole::Tool by {
                assert(t2[m] == t[m]);
                assert(t2[m].role == ChatMessageRole::Tool);
            }
            assert(tool_run_after(t, j, k));
        }
    }
}

/// Appending the Tool turn for the next dispatched call keeps the Tool
/// runs positionally ordered: the new turn answers exactly the call at
/// the dispatch position.
proof fn lemma_push_tool_order_wf(
    t: Seq<ChatMessageV>,
    calls: Seq<ToolCallRequestV>,
    next: int,
    text: Seq<char>,
)
    requires
        transcript_tool_order_wf(t),
        0 <= next < calls.len(),
        dispatch_tail_ok(t, calls, next),
    ensures
        transcript_tool_order_wf(t.push(tool_msg(text, calls[next].id))),
{
    let msg = tool_msg(text, calls[next].id);
    let t2 = t.push(msg);
    let a = t.len() - 1 - next;
    assert forall|j: int, k: int|
        0 <= j < k < t2.len() && t2[j].role == ChatMessageRole::Assistant
            && t2[j].tool_calls is Some && #[trigger] tool_run_after(t2, j, k) implies {
        &&& k - j - 1 < t2[j].tool_calls->0.len()
        &&& t2[k].tool_call_id == Some(t2[j].tool_calls->0[k - j - 1].id)
    } by {
        if k < t.len() {
            assert(t2[j] == t[j]);
            assert(t2[k] == t[k]);
            assert forall|m: int| j < m <= k implies (#[trigger] t[m]).role
                == ChatMessageRole::Tool by {
                assert(t2[m] == t[m]);
                assert(t2[m].role == ChatMessageRole::Tool);
            }
            assert(tool_run_after(t, j, k));
        } else {
            // the pair ends at the new Tool turn; its anchor must be the
            // dispatch anchor
            assert(k == t.len());
            if j < a {
                assert(t2[a].role == ChatMessageRole::Tool);
                assert(t2[a] == t[a]);
                assert(false);
            } else if j > a {
                assert(t2[j] == t[j]);
                assert(t[a + 1 + (j - a - 1)].role == ChatMessageRole::Tool);
                assert(false);
            }
            assert(j == a);
            assert(t2[a] == t[a]);
            assert(t2[a].tool_calls == Some(calls));
            assert(k - a - 1 == next);
            assert(t2[k] == msg);
        }
    }
}

/// Appending a non-Tool message keeps a transcript role-sequenced.
proof fn lemma_push_non_tool_role_wf(t: Seq<ChatMessageV>, msg: ChatMessageV)
    requires
        transcript_role_wf(t),
        msg.role != ChatMessageRole::Tool,
    ensures
        transcript_role_wf(t.push(msg)),
{
    let t2 = t.push(msg);
    assert forall|k: int|
        0 <= k < t2.len() && t2[k].role == ChatMessageRole::Tool implies exists|j: int|
        0 <= j < k && #[trigger] matching_anchor(t2, j, k) by {
        assert(k < t.len());
        assert(t2[k] == t[k]);
        let j = choose|j: int| 0 <= j < k && #[trigger] matching_anchor(t, j, k);
        assert forall|mm: int| j < mm < k implies t2[mm].role == ChatMessageRole::Tool by {
            assert(t2[mm] == t[mm]);
        }
        assert(t2[j] == t[j]);
        assert(matching_anchor(t2, j, k));
    }
}

/// Appending the Tool turn for the next dispatched call keeps a
/// transcript role-sequenced.
proof fn lemma_push_tool_role_wf(
    t: Seq<ChatMessageV>,
    calls: Seq<ToolCallRequestV>,
    next: int,
    text: Seq<char>,
)
    requires
        transcript_role_wf(t),
        0 <= next < calls.len(),
        dispatch_tail_ok(t, calls, next),
    ensures
        transcript_role_wf(t.push(tool_msg(text, calls[next].id))),
{
    let msg = tool_msg(text, calls[next].id);
    let t2 = t.push(msg);
    let a = t.len() - 1 - next;
    assert forall|k: int|
        0 <= k < t2.len() && t2[k].role == ChatMessageRole::Tool implies exists|j: int|
        0 <= j < k && #[trigger] matching_anchor(t2, j, k) by {
        if k < t.len() {
            assert(t2[k] == t[k]);
            let j = choose|j: int| 0 <= j < k && #[trigger] matching_anchor(t, j, k);
            assert forall|mm: int| j < mm < k implies t2[mm].role == ChatMessageRole::Tool by {
                assert(t2[mm] == t[mm]);
            }
            assert(t2[j] == t[j]);
            assert(matching_anchor(t2, j, k));
        } else {
            assert(k == t.len());
            assert(t2[a] == t[a]);
            assert(t2[a].tool_calls == Some(calls));
            assert(t2[a].tool_calls->0[next].id == calls[next].id);
            assert(Some(t2[a].tool_calls->0[next].id) == t2[k].tool_call_id);
            assert forall|mm: int| a < mm < k implies t2[mm].role == ChatMessageRole::Tool by {
                assert(t2[mm] == t[mm]);
                assert(t[a + 1 + (mm - a - 1)].role == ChatMessageRole::Tool);
            }
            assert(matching_anchor(t2, a, k));
        }
    }
}

/// The step transition preserves the machine invariant, whichever fitting
/// event arrives.  Together with [`transcript_role_wf`] this is the
/// transcript role-sequencing guarantee: after any number of tool
/// round-trips, every Tool turn answers a call of the assistant turn
/// immediately preceding its run, and no Tool turn stands without one.
pub proof fn lemma_step_preserves_wf(m: AgentMachineV, e: LoopEventV)
    requires
        machine_wf(m),
        event_fits(m, e),
    ensures
        machine_wf(spec_step(m, e).0),
{
    let m2 = spec_step(m, e).0;
    match (m.phase, e) {
        (LoopPhaseV::AwaitingCompletion, LoopEventV::CompletionSucceeded(resp)) => match resp.kind {
            CompletionKindV::Message { content } => {},
            CompletionKindV::ToolCall { tool_calls } => {
                let msg = assistant_call_msg(tool_calls);
                let t2 = m.transcript.push(msg);
                lemma_push_non_tool_role_wf(m.transcript, msg);
                lemma_push_non_tool_order_wf(m.transcript, msg);
                assert forall|k: int| 0 <= k < t2.len() implies (#[trigger] t2[k]).wf() by {
                    if k < m.transcript.len() {
                        assert(t2[k] == m.transcript[k]);
                    }
                }
                if tool_calls.len() > 0 {
                    assert(t2[t2.len() - 1] == msg);
                    assert(dispatch_tail_ok(t2, tool_calls, 0));
                }
            },
        },
        (LoopPhaseV::AwaitingCompletion, LoopEventV::CompletionFailed(err)) => {
            if retry_eligible(err) && m.attempt < m.budget {
                lemma_seed_wf(
                    m.agent.backstory,
                    m.agent.goals,
                    m.task.description,
                    m.task.expected_output,
                    m.format_prompt,
                    m.feedback,
                );
            }
        },
        (LoopPhaseV::DispatchingTools { calls, next }, LoopEventV::ToolReturned(outcome)) => {
            let text = spec_tool_result_text(calls[next as int].function.name, outcome);
            let msg = tool_msg(text, calls[next as int].id);
            let t2 = m.transcript.push(msg);
            lemma_push_tool_role_wf(m.transcript, calls, next as int, text);
            lemma_push_tool_order_wf(m.transcript, calls, next as int, text);
            assert forall|k: int| 0 <= k < t2.len() implies (#[trigger] t2[k]).wf() by {
                if k < m.transcript.len() {
                    assert(t2[k] == m.transcript[k]);
                }
            }
            if next + 1 < calls.len() {
                let a = t2.len() - 1 - (next + 1);
                assert(t2[a] == m.transcript[a]);
                assert forall|k: int|
                    0 <= k < next + 1 implies (#[trigger] t2[a + 1 + k]).role
                    == ChatMessageRole::Tool && t2[a + 1 + k].tool_call_id == Some(calls[k].id) by {
                    if k < next {
                        assert(t2[a + 1 + k] == m.transcript[a + 1 + k]);
                    } else {
                        assert(t2[a + 1 + k] == msg);
                    }
                }
                assert(dispatch_tail_ok(t2, calls, next + 1));
            }
        },
        (LoopPhaseV::Validating { text }, LoopEventV::ValidationPassed) => {},
        (LoopPhaseV::Validating { text }, LoopEventV::ValidationFailed(verr)) => {
            if m.attempt < m.budget {
                lemma_seed_wf(
                    m.agent.backstory,
                    m.agent.goals,
                    m.task.description,
                    m.task.expected_output,
                    m.format_prompt,
                    Some(verr),
                );
            }
        },
        _ => {},
    }
}

/// Transcript role-sequencing law: in every reachable machine state —
/// after any number of tool round-trips — every Tool-role message of the
/// transcript answers one call id of the Assistant tool-call turn
/// immediately preceding its run of Tool turns, no Tool-role message
/// stands without such a turn, and the turns of each run answer that
/// turn's calls positionally — in the order the calls were emitted, each
/// answered at most once.  [`lemma_step_preserves_wf`] shows the property
/// survives every transition.
pub proof fn lemma_transcript_role_sequencing(m: AgentMachineV)
    requires
        machine_wf(m),
    ensures
        transcript_role_wf(m.transcript),
        transcript_tool_order_wf(m.transcript),
{
}

/// One attempt against a validator that rejects: the provider answers
/// with a text message, and validation fails with the given error.
pub open spec fn spec_failing_round(
    m: AgentMachineV,
    content: Seq<char>,
    error: Seq<char>,
) -> AgentMachineV {
    let mid = spec_step(
        m,
        LoopEventV::CompletionSucceeded(
            CompletionResponseV {
                kind: CompletionKindV::Message { content },
                usage: None,
                finish_reason: None,
            },
        ),
    ).0;
    spec_step(mid, LoopEventV::ValidationFailed(error)).0
}

/// Failing attempts applied in order: each round is a completion content
/// paired with the validation error that rejects it.
pub open spec fn spec_failing_run(
    m: AgentMachineV,
    rounds: Seq<(Seq<char>, Seq<char>)>,
) -> AgentMachineV
    decreases rounds.len(),
{
    if rounds.len() == 0 {
        m
    } else {
        spec_failing_run(spec_failing_round(m, rounds[0].0, rounds[0].1), rounds.drop_first())
    }
}

/// Retry boundedness law: against a validator that always fails, the loop
/// makes exactly as many attempts as the budget allows and then fails —
/// never one more.  Started on its first attempt (`attempt == 1`), the
/// machine reaches Failed after exactly `budget` failing rounds, still
/// awaits a completion after every shorter prefix, and the final error
/// wraps the attempt count and the last cause.  A Failed machine accepts
/// no further events (see [`event_fits`]), so no attempt follows.
pub proof fn lemma_retry_bounded(m: AgentMachineV, rounds: Seq<(Seq<char>, Seq<char>)>)
    requires
        machine_wf(m),
        m.phase is AwaitingCompletion,
        rounds.len() == m.budget - m.attempt + 1,
    ensures
        spec_failing_run(m, rounds).phase == (LoopPhaseV::Failed {
            error: spec_validation_failure_text(m.budget, rounds.last().1, rounds.last().0),
        }),
        forall|k: int|
            0 <= k < rounds.len() ==> (#[trigger] spec_failing_run(
                m,
                rounds.take(k),
            )).phase is AwaitingCompletion,
    decreases rounds.len(),
{
    let e1 = LoopEventV::CompletionSucceeded(
        CompletionResponseV {
            kind: CompletionKindV::Message { content: rounds[0].0 },
            usage: None,
            finish_reason: None,
        },
    );
    lemma_step_preserves_wf(m, e1);
    let mid = spec_step(m, e1).0;
    let e2 = LoopEventV::ValidationFailed(rounds[0].1);
    lemma_step_preserves_wf(mid, e2);
    let m1 = spec_step(mid, e2).0;
    assert(m1 == spec_failing_round(m, rounds[0].0, rounds[0].1));
    if m.attempt < m.budget {
        lemma_retry_bounded(m1, rounds.drop_first());
        assert(rounds.drop_first().last() == rounds.last());
        assert(spec_failing_run(m, rounds) == spec_failing_run(m1, rounds.drop_first()));
        assert forall|k: int|
            0 <= k < rounds.len() implies (#[trigger] spec_failing_run(
            m,
            rounds.take(k),
        )).phase is AwaitingCompletion by {
            if k == 0 {
                assert(rounds.take(0) =~= Seq::<(Seq<char>, Seq<char>)>::empty());
                assert(spec_failing_run(m, rounds.take(0)) == m);
            } else {
                assert(rounds.take(k)[0] == rounds[0]);
                assert(rounds.take(k).drop_first() =~= rounds.drop_first().take(k - 1));
                assert(spec_failing_run(m, rounds.take(k)) == spec_failing_run(
                    m1,
                    rounds.drop_first().take(k - 1),
                ));
            }
        }
    } else {
        assert(rounds.len() == 1);
        assert(mid.phase == (LoopPhaseV::Validating { text: rounds[0].0 }));
        assert(m1.phase == (LoopPhaseV::Failed {
            error: spec_validation_failure_text(m.budget, rounds[0].1, rounds[0].0),
        }));
        assert(rounds.drop_first().len() == 0);
        assert(spec_failing_run(m, rounds) == m1);
        assert forall|k: int|
            0 <= k < rounds.len() implies (#[trigger] spec_failing_run(
            m,
            rounds.take(k),
        )).phase is AwaitingCompletion by {
            assert(k == 0);
            assert(rounds.take(0) =~= Seq::<(Seq<char>, Seq<char>)>::empty());
            assert(spec_failing_run(m, rounds.take(0)) == m);
        }
    }
}

/// Whether a provider failure consumes retry budget (see
/// [`retry_eligible`]).
pub fn error_retry_eligible(e: &ProviderError) -> (r: bool)
    ensures
        r == retry_eligible(e@),
{
    match e {
        ProviderError::ConfigError(_) => false,
        ProviderError::MissingConfig(_) => false,
        ProviderError::Unsupported(_) => false,
        _ => true,
    }
}

/// Renders a provider error as its message text.
pub fn render_provider_error(e: &ProviderError) -> (r: String)
    ensures
        r@ == spec_provider_error_text(e@),
{
    let mut out: Vec<char> = Vec::new();
    match e {
        ProviderError::RequestError(m) => {
            append_str(&mut out, "API request failed: ");
            append_str(&mut out, m.as_str());
        },
        ProviderError::ApiError { status, message } => {
            append_str(&mut out, "API response error: ");
            append_u32(&mut out, *status as u32);
            append_str(&mut out, ": ");
            append_str(&mut out, message.as_str());
        },
        ProviderError::ParseError(m) => {
            append_str(&mut out, "Failed to parse API response: ");
            append_str(&mut out, m.as_str());
        },
        ProviderError::ConfigError(m) => {
            append_str(&mut out, "Configuration error: ");
            append_str(&mut out, m.as_str());
        },
        ProviderError::StreamError(m) => {
            append_str(&mut out, "Stream failed: ");
            append_str(&mut out, m.as_str());
        },
        ProviderError::MissingConfig(m) => {
            append_str(&mut out, "Missing required configuration: ");
            append_str(&mut out, m.as_str());
        },
        ProviderError::ToolFormatError(m) => {
            append_str(&mut out, "Tool use response format error: ");
            append_str(&mut out, m.as_str());
        },
        ProviderError::Unsupported(m) => {
            append_str(&mut out, "Unsupported operation: ");
            append_str(&mut out, m.as_str());
        },
        ProviderError::Unexpected(m) => {
            append_str(&mut out, "An unexpected error occurred: ");
            append_str(&mut out, m.as_str());
        },
    }
    proof {
        assert(out@ =~= spec_provider_error_text(e@));
    }
    chars_to_string(&out)
}

/// Renders a tool outcome as the Tool turn's content.
fn render_tool_outcome(name: &str, outcome: Result<String, String>) -> (r: String)
    ensures
        outcome matches Ok(s) ==> r@ == s@,
        outcome matches Err(e) ==> r@ == "Error executing tool "@ + name@ + ": "@ + e@,
{
    match outcome {
        Ok(s) => s,
        Err(e) => {
            let mut out: Vec<char> = Vec::new();
            append_str(&mut out, "Error executing tool ");
            append_str(&mut out, name);
            append_str(&mut out, ": ");
            append_str(&mut out, e.as_str());
            proof {
                assert(out@ =~= "Error executing tool "@ + name@ + ": "@ + e@);
            }
            chars_to_string(&out)
        },
    }
}

fn render_llm_failure(budget: u32, cause: &str) -> (r: String)
    ensures
        r@ == spec_llm_failure_text(budget, cause@),
{
    let mut out: Vec<char> = Vec::new();
    append_str(&mut out, "LLM execution failed after ");
    append_u32(&mut out, budget);
    append_str(&mut out, " attempts: ");
    append_str(&mut out, cause);
    proof {
        assert(out@ =~= spec_llm_failure_text(budget, cause@));
    }
    chars_to_string(&out)
}

fn render_config_failure(cause: &str) -> (r: String)
    ensures
        r@ == spec_config_failure_text(cause@),
{
    let mut out: Vec<char> = Vec::new();
    append_str(&mut out, "LLM execution failed: ");
    append_str(&mut out, cause);
    proof {
        assert(out@ =~= spec_config_failure_text(cause@));
    }
    chars_to_string(&out)
}

fn render_validation_failure(budget: u32, error: &str, raw: &str) -> (r: String)
    ensures
        r@ == spec_validation_failure_text(budget, error@, raw@),
{
    let mut out: Vec<char> = Vec::new();
    append_str(&mut out, "Output validation failed after ");
    append_u32(&mut out, budget);
    append_str(&mut out, " attempts. Last error: ");
    append_str(&mut out, error);
    append_str(&mut out, ". Raw output: ");
    append_str(&mut out, raw);
    proof {
        assert(out@ =~= spec_validation_failure_text(budget, error@, raw@));
    }
    chars_to_string(&out)
}

impl AgentMachine {
    /// The completion request for the current transcript.
    fn make_request(&self) -> (r: CompletionRequest)
        ensures
            r@ == spec_request(self@),
    {
        CompletionRequest::new(
            clone_messages(&self.transcript),
            self.agent.llm_config.model_name.clone(),
            Some(self.agent.llm_config.temperature_milli),
            Some(self.agent.llm_config.max_tokens),
            Some(clone_tools(&self.agent.tools)),
        )
    }

    /// Starts one invocation: seeds the transcript from the agent's
    /// persona, goals and the task, and hands back the first completion
    /// request.
    pub fn start(agent: Agent, task: Task, format_prompt: String, budget: u32) -> (r: (
        AgentMachine,
        LoopAction,
    ))
        requires
            budget >= 1,
        ensures
            machine_wf(r.0@),
            r.0@.agent == agent@,
            r.0@.task == task@,
            r.0@.format_prompt == format_prompt@,
            r.0@.budget == budget,
            r.0@.attempt == 1,
            r.0@.feedback is None,
            r.0@.transcript == spec_seed(
                agent@.backstory,
                agent@.goals,
                task@.description,
                task@.expected_output,
                format_prompt@,
                None,
            ),
            r.0@.phase is AwaitingCompletion,
            r.1@ == LoopActionV::RequestCompletion(spec_request(r.0@)),
    {
        let no_feedback: Option<String> = None;
        let transcript = build_seed(&agent, &task, format_prompt.as_str(), &no_feedback);
        let m = AgentMachine {
            agent,
            task,
            format_prompt,
            budget,
            attempt: 1,
            feedback: None,
            transcript,
            phase: LoopPhase::AwaitingCompletion,
        };
        proof {
            lemma_seed_wf(
                m@.agent.backstory,
                m@.agent.goals,
                m@.task.description,
                m@.task.expected_output,
                m@.format_prompt,
                None,
            );
        }
        let req = m.make_request();
        (m, LoopAction::RequestCompletion(req))
    }

    /// Whether the machine can consume this event in its current phase.
    pub fn expects(&self, event: &LoopEvent) -> (r: bool)
        ensures
            r == event_fits(self@, event@),
    {
        match (&self.phase, event) {
            (LoopPhase::AwaitingCompletion, LoopEvent::CompletionSucceeded(resp)) => {
                match &resp.kind {
                    CompletionKind::ToolCall { tool_calls } => {
                        let n = tool_calls.len();
                        proof {
                            assert(tool_calls.deep_view().len() == n as int);
                        }
                        true
                    },
                    CompletionKind::Message { .. } => true,
                }
            },
            (LoopPhase::AwaitingCompletion, LoopEvent::CompletionFailed(_)) => true,
            (LoopPhase::DispatchingTools { .. }, LoopEvent::ToolReturned(_)) => true,
            (LoopPhase::Validating { .. }, LoopEvent::ValidationPassed) => true,
            (LoopPhase::Validating { .. }, LoopEvent::ValidationFailed(_)) => true,
            _ => false,
        }
    }

    /// The attempt currently underway, starting at 1.
    pub fn attempt(&self) -> (r: u32)
        ensures
            r == self@.attempt,
    {
        self.attempt
    }

    /// Whether the machine has reached Done or Failed.
    pub fn is_finished(&self) -> (r: bool)
        ensures
            r == (self@.phase is Done || self@.phase is Failed),
    {
        match &self.phase {
            LoopPhase::Done { .. } => true,
            LoopPhase::Failed { .. } => true,
            _ => false,
        }
    }

    /// The outcome of a finished invocation: the validated output, or the
    /// final error.
    pub fn into_outcome(self) -> (r: Result<String, String>)
        requires
            self@.phase is Done || self@.phase is Failed,
        ensures
            self@.phase matches LoopPhaseV::Done { output } ==> (r matches Ok(s) && s@ == output),
            self@.phase matches LoopPhaseV::Failed { error } ==> (r matches Err(s) && s@ == error),
    {
        match self.phase {
            LoopPhase::Done { output } => Ok(output),
            LoopPhase::Failed { error } => Err(error),
            _ => unreached(),
        }
    }

    /// Consumes one event and answers with the next action, exactly as
    /// [`spec_step`] describes; `None` means the machine is finished.
    pub fn step(&mut self, event: LoopEvent) -> (action: Option<LoopAction>)
        requires
            machine_wf(old(self)@),
            event_fits(old(self)@, event@),
        ensures
            final(self)@ == spec_step(old(self)@, event@).0,
            action.deep_view() == spec_step(old(self)@, event@).1,
            machine_wf(final(self)@),
    {
        proof {
            lemma_step_preserves_wf(old(self)@, event@);
        }
        let ghost m0 = old(self)@;
        let ghost sv = spec_step(old(self)@, event@);
        match event {
            LoopEvent::CompletionSucceeded(resp) => match resp.kind {
                CompletionKind::Message { content } => {
                    let act = LoopAction::ValidateOutput(content.clone());
                    self.phase = LoopPhase::Validating { text: content };
                    proof {
                        assert(self@ == sv.0);
                    }
                    Some(act)
                },
                CompletionKind::ToolCall { tool_calls } => {
                    let ghost calls_v = tool_calls.deep_view();
                    let recorded = clone_calls(&tool_calls);
                    self.transcript.push(
                        ChatMessage::new(ChatMessageRole::Assistant, None, Some(recorded), None),
                    );
                    proof {
                        assert(self@.transcript =~= m0.transcript.push(
                            assistant_call_msg(calls_v),
                        ));
                    }
                    if tool_calls.len() == 0 {
                        self.phase = LoopPhase::AwaitingCompletion;
                        proof {
                            assert(self@ == sv.0);
                        }
                        Some(LoopAction::RequestCompletion(self.make_request()))
                    } else {
                        let name = tool_calls[0].function.name.clone();
                        let arguments = tool_calls[0].function.arguments.clone();
                        proof {
                            assert(calls_v[0] == tool_calls@[0].deep_view());
                        }
                        self.phase = LoopPhase::DispatchingTools { calls: tool_calls, next: 0 };
                        proof {
                            assert(self@ == sv.0);
                        }
                        Some(LoopAction::InvokeTool { name, arguments })
                    }
                },
            },
            LoopEvent::CompletionFailed(err) => {
                if !error_retry_eligible(&err) {
                    let cause = render_provider_error(&err);
                    self.phase = LoopPhase::Failed {
                        error: render_config_failure(cause.as_str()),
                    };
                    proof {
                        assert(self@ == sv.0);
                    }
                    None
                } else if self.attempt < self.budget {
                    self.attempt = self.attempt + 1;
                    self.transcript = build_seed(
                        &self.agent,
                        &self.task,
                        self.format_prompt.as_str(),
                        &self.feedback,
                    );
                    self.phase = LoopPhase::AwaitingCompletion;
                    proof {
                        assert(self@ == sv.0);
                    }
                    Some(LoopAction::RequestCompletion(self.make_request()))
                } else {
                    let cause = render_provider_error(&err);
                    self.phase = LoopPhase::Failed {
                        error: render_llm_failure(self.budget, cause.as_str()),
                    };
                    proof {
                        assert(self@ == sv.0);
                    }
                    None
                }
            },
            LoopEvent::ToolReturned(outcome) => {
                let ghost outcome_v = (match &outcome {
                    Ok(s) => Ok::<Seq<char>, Seq<char>>(s@),
                    Err(e) => Err(e@),
                });
                let (calls, next) = match &self.phase {
                    LoopPhase::DispatchingTools { calls, next } => (clone_calls(calls), *next),
                    _ => unreached(),
                };
                let ghost calls_v = calls.deep_view();
                proof {
                    assert(m0.phase == (LoopPhaseV::DispatchingTools { calls: calls_v, next }));
                    assert((next as int) < calls_v.len());
                    assert(calls_v.len() == calls@.len());
                    assert(calls_v[next as int] == calls@[next as int].deep_view());
                }
                let text = render_tool_outcome(calls[next].function.name.as_str(), outcome);
                let id = calls[next].id.clone();
                self.transcript.push(
                    ChatMessage::new(ChatMessageRole::Tool, Some(text), None, Some(id)),
                );
                proof {
                    assert(self@.transcript =~= m0.transcript.push(
                        tool_msg(
                            spec_tool_result_text(calls_v[next as int].function.name, outcome_v),
                            calls_v[next as int].id,
                        ),
                    ));
                }
                if next + 1 < calls.len() {
                    let name = calls[next + 1].function.name.clone();
                    let arguments = calls[next + 1].function.arguments.clone();
                    proof {
                        assert(calls_v[next + 1] == calls@[next + 1].deep_view());
                    }
                    self.phase = LoopPhase::DispatchingTools { calls, next: next + 1 };
                    proof {
                        assert(self@ == sv.0);
                    }
                    Some(LoopAction::InvokeTool { name, arguments })
                } else {
                    self.phase = LoopPhase::AwaitingCompletion;
                    proof {
                        assert(self@ == sv.0);
                    }
                    Some(LoopAction::RequestCompletion(self.make_request()))
                }
            },
            LoopEvent::ValidationPassed => {
                let text = match &self.phase {
                    LoopPhase::Validating { text } => text.clone(),
                    _ => unreached(),
                };
                self.phase = LoopPhase::Done { output: text };
                proof {
                    assert(self@ == sv.0);
                }
                None
            },
            LoopEvent::ValidationFailed(verr) => {
                if self.attempt < self.budget {
                    self.attempt = self.attempt + 1;
                    self.feedback = Some(verr);
                    self.transcript = build_seed(
                        &self.agent,
                        &self.task,
                        self.format_prompt.as_str(),
                        &self.feedback,
                    );
                    self.phase = LoopPhase::AwaitingCompletion;
                    proof {
                        assert(self@ == sv.0);
                    }
                    Some(LoopAction::RequestCompletion(self.make_request()))
                } else {
                    let raw = match &self.phase {
                        LoopPhase::Validating { text } => text.clone(),
                        _ => unreached(),
                    };
                    self.phase = LoopPhase::Failed {
                        error: render_validation_failure(self.budget, verr.as_str(), raw.as_str()),
                    };
                    proof {
                        assert(self@ == sv.0);
                    }
                    None
                }
            },
        }
    }
}

} // verus!
