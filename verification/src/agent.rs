//! Agent data and the transcript seed.
//!
//! An agent is a persona (backstory, goals) with a set of declared tools
//! and the sampling configuration for its model.  Each attempt of the
//! conversation loop starts from a freshly built transcript seed: one
//! System turn for the persona, one User turn for the goals, one User turn
//! for the task, and — only after a validation failure — one corrective
//! User turn quoting the error.

use vstd::prelude::*;

use crate::config::LlmConfig;
use crate::protocol::{ChatMessage, ChatMessageRole, ChatMessageV, Tool, ToolV};
use crate::text::{append_joined_newline, append_str, chars_to_string, spec_join_newline};

verus! {

/// A task handed to an agent: what to do and, optionally, what shape the
/// output should take.  Format construction and output validation are the
/// caller's capabilities; the loop only carries their products.
#[derive(Debug, Clone)]
pub struct Task {
    pub description: String,
    pub expected_output: Option<String>,
}

/// Ghost content of a `Task`.
pub ghost struct TaskV {
    pub description: Seq<char>,
    pub expected_output: Option<Seq<char>>,
}

impl View for Task {
    type V = TaskV;

    open spec fn view(&self) -> TaskV {
        TaskV {
            description: self.description@,
            expected_output: self.expected_output.deep_view(),
        }
    }
}

impl Task {
    pub fn new(description: String, expected_output: Option<String>) -> (r: Self)
        ensures
            r@ == (TaskV {
                description: description@,
                expected_output: expected_output.deep_view(),
            }),
    {
        Task { description, expected_output }
    }
}

/// The model and sampling configuration one agent completes with.  The
/// temperature is carried in thousandths (`0` means 0.000).
#[derive(Debug, Clone)]
pub struct AgentLLMConfig {
    pub base_config: LlmConfig,
    pub model_name: String,
    pub temperature_milli: u32,
    pub max_tokens: u32,
}

impl AgentLLMConfig {
    pub fn new(
        base_config: LlmConfig,
        model_name: String,
        temperature_milli: u32,
        max_tokens: u32,
    ) -> (r: Self)
        ensures
            r.base_config == base_config,
            r.model_name@ == model_name@,
            r.temperature_milli == temperature_milli,
            r.max_tokens == max_tokens,
    {
        AgentLLMConfig { base_config, model_name, temperature_milli, max_tokens }
    }
}

/// An agent: its model configuration, persona, goals and declared tools.
/// The provider transport that completes its requests is the caller's
/// capability, constructed from `llm_config.base_config`.
#[derive(Debug, Clone)]
pub struct Agent {
    pub llm_config: AgentLLMConfig,
    pub backstory: String,
    pub goals: Vec<String>,
    pub tools: Vec<Tool>,
}

/// Ghost content of an `Agent`.
pub ghost struct AgentV {
    pub model_name: Seq<char>,
    pub temperature_milli: u32,
    pub max_tokens: u32,
    pub backstory: Seq<char>,
    pub goals: Seq<Seq<char>>,
    pub tools: Seq<ToolV>,
}

impl View for Agent {
    type V = AgentV;

    open spec fn view(&self) -> AgentV {
        AgentV {
            model_name: self.llm_config.model_name@,
            temperature_milli: self.llm_config.temperature_milli,
            max_tokens: self.llm_config.max_tokens,
            backstory: self.backstory@,
            goals: self.goals.deep_view(),
            tools: self.tools.deep_view(),
        }
    }
}

impl Agent {
    pub fn new(
        llm_config: AgentLLMConfig,
        backstory: String,
        goals: Vec<String>,
        tools: Vec<Tool>,
    ) -> (r: Self)
        ensures
            r@ == (AgentV {
                model_name: llm_config.model_name@,
                temperature_milli: llm_config.temperature_milli,
                max_tokens: llm_config.max_tokens,
                backstory: backstory@,
                goals: goals.deep_view(),
                tools: tools.deep_view(),
            }),
            r.llm_config.base_config == llm_config.base_config,
    {
        Agent { llm_config, backstory, goals, tools }
    }
}

/// A System message carrying only text.
pub open spec fn system_msg(content: Seq<char>) -> ChatMessageV {
    ChatMessageV {
        role: ChatMessageRole::System,
        content: Some(content),
        tool_calls: None,
        tool_call_id: None,
    }
}

/// A User message carrying only text.
pub open spec fn user_msg(content: Seq<char>) -> ChatMessageV {
    ChatMessageV {
        role: ChatMessageRole::User,
        content: Some(content),
        tool_calls: None,
        tool_call_id: None,
    }
}

/// The task turn: description, expected output (or "None") and the format
/// guidance, in one User message.
pub open spec fn spec_task_prompt(
    description: Seq<char>,
    expected_output: Option<Seq<char>>,
    format_prompt: Seq<char>,
) -> Seq<char> {
    "TASK: "@ + description + "\n\nEXPECTED OUTPUT: "@ + (match expected_output {
        Some(e) => e,
        None => "None"@,
    }) + "\n\nOUTPUT FORMAT:\n"@ + format_prompt
}

/// The corrective turn quoting a validation error.
pub open spec fn spec_feedback_text(error: Seq<char>) -> Seq<char> {
    "Your previous response was invalid: "@ + error
        + ". Please provide a corrected response that follows the required format exactly."@
}

/// The transcript seed of one attempt: persona, goals and task, plus the
/// corrective turn exactly when feedback from a failed validation exists.
/// The seed depends on nothing else, so two attempts with identical inputs
/// and no feedback start from identical transcripts.
pub open spec fn spec_seed(
    backstory: Seq<char>,
    goals: Seq<Seq<char>>,
    description: Seq<char>,
    expected_output: Option<Seq<char>>,
    format_prompt: Seq<char>,
    feedback: Option<Seq<char>>,
) -> Seq<ChatMessageV> {
    seq![
        system_msg(backstory),
        user_msg(spec_join_newline(goals)),
        user_msg(spec_task_prompt(description, expected_output, format_prompt)),
    ] + (match feedback {
        Some(e) => seq![user_msg(spec_feedback_text(e))],
        None => Seq::empty(),
    })
}

fn build_task_prompt(task: &Task, format_prompt: &str) -> (r: String)
    ensures
        r@ == spec_task_prompt(task@.description, task@.expected_output, format_prompt@),
{
    let mut out: Vec<char> = Vec::new();
    append_str(&mut out, "TASK: ");
    append_str(&mut out, task.description.as_str());
    append_str(&mut out, "\n\nEXPECTED OUTPUT: ");
    match &task.expected_output {
        Some(e) => append_str(&mut out, e.as_str()),
        None => append_str(&mut out, "None"),
    }
    append_str(&mut out, "\n\nOUTPUT FORMAT:\n");
    append_str(&mut out, format_prompt);
    proof {
        assert(out@ =~= spec_task_prompt(task@.description, task@.expected_output, format_prompt@));
    }
    chars_to_string(&out)
}

/// Renders the corrective User turn's text for a validation error.
pub fn build_feedback_text(error: &str) -> (r: String)
    ensures
        r@ == spec_feedback_text(error@),
{
    let mut out: Vec<char> = Vec::new();
    append_str(&mut out, "Your previous response was invalid: ");
    append_str(&mut out, error);
    append_str(
        &mut out,
        ". Please provide a corrected response that follows the required format exactly.",
    );
    proof {
        assert(out@ =~= spec_feedback_text(error@));
    }
    chars_to_string(&out)
}

/// Builds the transcript seed of one attempt.
pub fn build_seed(agent: &Agent, task: &Task, format_prompt: &str, feedback: &Option<String>) -> (r:
    Vec<ChatMessage>)
    ensures
        r.deep_view() == spec_seed(
            agent@.backstory,
            agent@.goals,
            task@.description,
            task@.expected_output,
            format_prompt@,
            feedback.deep_view(),
        ),
{
    let mut msgs: Vec<ChatMessage> = Vec::new();
    msgs.push(
        ChatMessage::new(ChatMessageRole::System, Some(agent.backstory.clone()), None, None),
    );
    let mut goals_text: Vec<char> = Vec::new();
    append_joined_newline(&mut goals_text, &agent.goals);
    msgs.push(
        ChatMessage::new(ChatMessageRole::User, Some(chars_to_string(&goals_text)), None, None),
    );
    msgs.push(
        ChatMessage::new(
            ChatMessageRole::User,
            Some(build_task_prompt(task, format_prompt)),
            None,
            None,
        ),
    );
    match feedback {
        Some(e) => {
            msgs.push(
                ChatMessage::new(
                    ChatMessageRole::User,
                    Some(build_feedback_text(e.as_str())),
                    None,
                    None,
                ),
            );
        },
        None => {},
    }
    proof {
        assert(msgs.deep_view() =~= spec_seed(
            agent@.backstory,
            agent@.goals,
            task@.description,
            task@.expected_output,
            format_prompt@,
            feedback.deep_view(),
        ));
    }
    msgs
}

/// Idempotent-seed law: two attempts with identical persona, goals, task
/// input and no corrective feedback produce identical transcript seeds.
pub proof fn lemma_seed_idempotent(
    backstory1: Seq<char>,
    goals1: Seq<Seq<char>>,
    description1: Seq<char>,
    expected1: Option<Seq<char>>,
    format1: Seq<char>,
    backstory2: Seq<char>,
    goals2: Seq<Seq<char>>,
    description2: Seq<char>,
    expected2: Option<Seq<char>>,
    format2: Seq<char>,
)
    requires
        backstory1 == backstory2,
        goals1 == goals2,
        description1 == description2,
        expected1 == expected2,
        format1 == format2,
    ensures
        spec_seed(backstory1, goals1, description1, expected1, format1, None) == spec_seed(
            backstory2,
            goals2,
            description2,
            expected2,
            format2,
            None,
        ),
{
}

} // verus!
