//! Provider-neutral data shapes: chat messages, completion requests and
//! results, streaming chunks and token usage.
//!
//! Each executable type has a ghost view (`...V`) over `Seq<char>` and `Seq`
//! so that contracts elsewhere can speak of the mathematical content of a
//! value.  Protocol values are immutable once constructed; the conversation
//! loop only ever appends whole messages to a transcript.

use vstd::prelude::*;

verus! {

/// The sender of a chat message.
#[derive(Debug, Clone, Copy, PartialEq, Eq, Structural)]
pub enum ChatMessageRole {
    System,
    User,
    Assistant,
    Tool,
}

/// Details of the function being called in a `ToolCallRequest`.
#[derive(Debug, Clone)]
pub struct ToolCallFunction {
    /// The name of the function to call.
    pub name: String,
    /// The arguments to call the function with, as an opaque JSON string.
    pub arguments: String,
}

/// Ghost content of a `ToolCallFunction`.
pub ghost struct ToolCallFunctionV {
    pub name: Seq<char>,
    pub arguments: Seq<char>,
}

impl View for ToolCallFunction {
    type V = ToolCallFunctionV;

    open spec fn view(&self) -> ToolCallFunctionV {
        ToolCallFunctionV { name: self.name@, arguments: self.arguments@ }
    }
}

impl DeepView for ToolCallFunction {
    type V = ToolCallFunctionV;

    open spec fn deep_view(&self) -> ToolCallFunctionV {
        self.view()
    }
}

/// A tool call requested by the assistant: a unique id plus the function to
/// invoke.
#[derive(Debug, Clone)]
pub struct ToolCallRequest {
    /// A unique identifier for this specific tool call instance.
    pub id: String,
    /// The function details for the call.
    pub function: ToolCallFunction,
}

/// Ghost content of a `ToolCallRequest`.
pub ghost struct ToolCallRequestV {
    pub id: Seq<char>,
    pub function: ToolCallFunctionV,
}

impl View for ToolCallRequest {
    type V = ToolCallRequestV;

    open spec fn view(&self) -> ToolCallRequestV {
        ToolCallRequestV { id: self.id@, function: self.function@ }
    }
}

impl DeepView for ToolCallRequest {
    type V = ToolCallRequestV;

    open spec fn deep_view(&self) -> ToolCallRequestV {
        self.view()
    }
}

/// A single message in a chat conversation.
///
/// Well-formedness couples the optional fields to the role: only an
/// Assistant message carries `tool_calls`, only a Tool message carries
/// `tool_call_id` (see [`ChatMessageV::wf`]).
#[derive(Debug, Clone)]
pub struct ChatMessage {
    /// Who sent the message.
    pub role: ChatMessageRole,
    /// The text content.  `None` for assistant messages that request tool
    /// calls.
    pub content: Option<String>,
    /// The tool calls requested by the assistant, present only on
    /// Assistant-role messages.
    pub tool_calls: Option<Vec<ToolCallRequest>>,
    /// The id of the tool call this message answers, present only on
    /// Tool-role messages.
    pub tool_call_id: Option<String>,
}

/// Ghost content of a `ChatMessage`.
pub ghost struct ChatMessageV {
    pub role: ChatMessageRole,
    pub content: Option<Seq<char>>,
    pub tool_calls: Option<Seq<ToolCallRequestV>>,
    pub tool_call_id: Option<Seq<char>>,
}

impl ChatMessageV {
    /// Role/field coupling: `tool_calls` only on Assistant messages and
    /// never together with text content, `tool_call_id` only on Tool
    /// messages, and a Tool message always names the call it answers.
    pub open spec fn wf(self) -> bool {
        &&& self.tool_calls is Some ==> self.role == ChatMessageRole::Assistant
        &&& self.tool_calls is Some ==> self.content is None
        &&& self.tool_call_id is Some ==> self.role == ChatMessageRole::Tool
        &&& self.role == ChatMessageRole::Tool ==> self.tool_call_id is Some
    }
}

impl View for ChatMessage {
    type V = ChatMessageV;

    open spec fn view(&self) -> ChatMessageV {
        ChatMessageV {
            role: self.role,
            content: self.content.deep_view(),
            tool_calls: self.tool_calls.deep_view(),
            tool_call_id: self.tool_call_id.deep_view(),
        }
    }
}

impl DeepView for ChatMessage {
    type V = ChatMessageV;

    open spec fn deep_view(&self) -> ChatMessageV {
        self.view()
    }
}

impl ChatMessage {
    pub fn new(
        role: ChatMessageRole,
        content: Option<String>,
        tool_calls: Option<Vec<ToolCallRequest>>,
        tool_call_id: Option<String>,
    ) -> (r: Self)
        ensures
            r@ == (ChatMessageV {
                role,
                content: content.deep_view(),
                tool_calls: tool_calls.deep_view(),
                tool_call_id: tool_call_id.deep_view(),
            }),
    {
        ChatMessage { role, content, tool_calls, tool_call_id }
    }
}

/// One named property in a tool parameter schema: its JSON type (such as
/// "integer" or "string") and an optional description for the model.
#[derive(Debug, Clone)]
pub struct JsonSchemaProperty {
    pub name: String,
    pub value_type: String,
    pub description: Option<String>,
}

/// Ghost content of a `JsonSchemaProperty`.
pub ghost struct JsonSchemaPropertyV {
    pub name: Seq<char>,
    pub value_type: Seq<char>,
    pub description: Option<Seq<char>>,
}

impl View for JsonSchemaProperty {
    type V = JsonSchemaPropertyV;

    open spec fn view(&self) -> JsonSchemaPropertyV {
        JsonSchemaPropertyV {
            name: self.name@,
            value_type: self.value_type@,
            description: self.description.deep_view(),
        }
    }
}

impl DeepView for JsonSchemaProperty {
    type V = JsonSchemaPropertyV;

    open spec fn deep_view(&self) -> JsonSchemaPropertyV {
        self.view()
    }
}

/// The subset of JSON Schema used to declare tool parameters: an object type
/// with named properties and a list of required property names.
#[derive(Debug, Clone)]
pub struct JsonSchema {
    /// The type of the schema, usually "object".
    pub schema_type: String,
    /// The properties (parameters) of the object.
    pub properties: Option<Vec<JsonSchemaProperty>>,
    /// The names of the required properties.
    pub required: Option<Vec<String>>,
}

/// Ghost content of a `JsonSchema`.
pub ghost struct JsonSchemaV {
    pub schema_type: Seq<char>,
    pub properties: Option<Seq<JsonSchemaPropertyV>>,
    pub required: Option<Seq<Seq<char>>>,
}

impl View for JsonSchema {
    type V = JsonSchemaV;

    open spec fn view(&self) -> JsonSchemaV {
        JsonSchemaV {
            schema_type: self.schema_type@,
            properties: self.properties.deep_view(),
            required: self.required.deep_view(),
        }
    }
}

impl DeepView for JsonSchema {
    type V = JsonSchemaV;

    open spec fn deep_view(&self) -> JsonSchemaV {
        self.view()
    }
}

/// A tool (function) the model may be instructed to call.  Never mutated
/// after construction.
#[derive(Debug, Clone)]
pub struct Tool {
    /// The name of the function to be called.
    pub name: String,
    /// What the function does, used by the model to choose when to call it.
    pub description: String,
    /// The parameters the function accepts.
    pub parameters: JsonSchema,
}

/// Ghost content of a `Tool`.
pub ghost struct ToolV {
    pub name: Seq<char>,
    pub description: Seq<char>,
    pub parameters: JsonSchemaV,
}

impl View for Tool {
    type V = ToolV;

    open spec fn view(&self) -> ToolV {
        ToolV { name: self.name@, description: self.description@, parameters: self.parameters@ }
    }
}

impl DeepView for Tool {
    type V = ToolV;

    open spec fn deep_view(&self) -> ToolV {
        self.view()
    }
}

/// A request to a provider for one chat completion.
///
/// The sampling temperature is carried in thousandths, so that the wire
/// value `0.100` is stored as `100`; this keeps the whole protocol model in
/// exact integer arithmetic.
#[derive(Debug, Clone)]
pub struct CompletionRequest {
    /// The conversation history.
    pub messages: Vec<ChatMessage>,
    /// The model identifier.
    pub model: String,
    /// Sampling temperature in thousandths (`100` means 0.100).
    pub temperature_milli: Option<u32>,
    /// Maximum number of tokens to generate.
    pub max_tokens: Option<u32>,
    /// The tools the model may call.
    pub tools: Option<Vec<Tool>>,
}

/// Ghost content of a `CompletionRequest`.
pub ghost struct CompletionRequestV {
    pub messages: Seq<ChatMessageV>,
    pub model: Seq<char>,
    pub temperature_milli: Option<u32>,
    pub max_tokens: Option<u32>,
    pub tools: Option<Seq<ToolV>>,
}

impl View for CompletionRequest {
    type V = CompletionRequestV;

    open spec fn view(&self) -> CompletionRequestV {
        CompletionRequestV {
            messages: self.messages.deep_view(),
            model: self.model@,
            temperature_milli: self.temperature_milli,
            max_tokens: self.max_tokens,
            tools: self.tools.deep_view(),
        }
    }
}

impl DeepView for CompletionRequest {
    type V = CompletionRequestV;

    open spec fn deep_view(&self) -> CompletionRequestV {
        self.view()
    }
}

impl CompletionRequest {
    pub fn new(
        messages: Vec<ChatMessage>,
        model: String,
        temperature_milli: Option<u32>,
        max_tokens: Option<u32>,
        tools: Option<Vec<Tool>>,
    ) -> (r: Self)
        ensures
            r@ == (CompletionRequestV {
                messages: messages.deep_view(),
                model: model@,
                temperature_milli,
                max_tokens,
                tools: tools.deep_view(),
            }),
    {
        CompletionRequest { messages, model, temperature_milli, max_tokens, tools }
    }
}

/// Token usage statistics for one completion request.
#[derive(Debug, Clone, Copy, PartialEq, Eq, Structural)]
pub struct TokenUsage {
    pub prompt_tokens: u32,
    pub completion_tokens: u32,
    pub total_tokens: u32,
}

/// The kind of result a completion produced: a text message, or a request to
/// call tools.  Exactly one variant is active; the variant is never inferred
/// from which optional field happens to be present.
#[derive(Debug, Clone)]
pub enum CompletionKind {
    /// The model generated a text message.
    Message { content: String },
    /// The model requested one or more tool calls.
    ToolCall { tool_calls: Vec<ToolCallRequest> },
}

/// Ghost content of a `CompletionKind`.
pub ghost enum CompletionKindV {
    Message { content: Seq<char> },
    ToolCall { tool_calls: Seq<ToolCallRequestV> },
}

impl View for CompletionKind {
    type V = CompletionKindV;

    open spec fn view(&self) -> CompletionKindV {
        match self {
            CompletionKind::Message { content } => CompletionKindV::Message {
                content: content@,
            },
            CompletionKind::ToolCall { tool_calls } => CompletionKindV::ToolCall {
                tool_calls: tool_calls.deep_view(),
            },
        }
    }
}

impl DeepView for CompletionKind {
    type V = CompletionKindV;

    open spec fn deep_view(&self) -> CompletionKindV {
        self.view()
    }
}

/// The complete response of a non-streaming completion request.
#[derive(Debug, Clone)]
pub struct CompletionResponse {
    /// The kind of result (message or tool calls).
    pub kind: CompletionKind,
    /// Token usage, when the vendor reported it.
    pub usage: Option<TokenUsage>,
    /// Why the model stopped, when the vendor reported it.
    pub finish_reason: Option<String>,
}

/// Ghost content of a `CompletionResponse`.
pub ghost struct CompletionResponseV {
    pub kind: CompletionKindV,
    pub usage: Option<TokenUsage>,
    pub finish_reason: Option<Seq<char>>,
}

impl View for CompletionResponse {
    type V = CompletionResponseV;

    open spec fn view(&self) -> CompletionResponseV {
        CompletionResponseV {
            kind: self.kind@,
            usage: self.usage,
            finish_reason: self.finish_reason.deep_view(),
        }
    }
}

impl DeepView for CompletionResponse {
    type V = CompletionResponseV;

    open spec fn deep_view(&self) -> CompletionResponseV {
        self.view()
    }
}

/// Incremental details of the function named by one streamed tool-call
/// delta.
#[derive(Debug, Clone)]
pub struct ToolCallFunctionStreamDelta {
    /// The function name; usually appears once per call.
    pub name: Option<String>,
    /// One fragment of the JSON argument string.
    pub arguments: Option<String>,
}

/// Ghost content of a `ToolCallFunctionStreamDelta`.
pub ghost struct ToolCallFunctionStreamDeltaV {
    pub name: Option<Seq<char>>,
    pub arguments: Option<Seq<char>>,
}

impl View for ToolCallFunctionStreamDelta {
    type V = ToolCallFunctionStreamDeltaV;

    open spec fn view(&self) -> ToolCallFunctionStreamDeltaV {
        ToolCallFunctionStreamDeltaV {
            name: self.name.deep_view(),
            arguments: self.arguments.deep_view(),
        }
    }
}

impl DeepView for ToolCallFunctionStreamDelta {
    type V = ToolCallFunctionStreamDeltaV;

    open spec fn deep_view(&self) -> ToolCallFunctionStreamDeltaV {
        self.view()
    }
}

/// Incremental information about a single tool call within a stream, keyed
/// by `index` so that fragments of parallel calls can be told apart.
#[derive(Debug, Clone)]
pub struct ToolCallStreamDelta {
    /// Which in-progress tool call this delta belongs to.
    pub index: usize,
    /// The call id; usually appears once.
    pub id: Option<String>,
    /// Incremental function details.
    pub function: Option<ToolCallFunctionStreamDelta>,
}

/// Ghost content of a `ToolCallStreamDelta`.
pub ghost struct ToolCallStreamDeltaV {
    pub index: usize,
    pub id: Option<Seq<char>>,
    pub function: Option<ToolCallFunctionStreamDeltaV>,
}

impl View for ToolCallStreamDelta {
    type V = ToolCallStreamDeltaV;

    open spec fn view(&self) -> ToolCallStreamDeltaV {
        ToolCallStreamDeltaV {
            index: self.index,
            id: self.id.deep_view(),
            function: self.function.deep_view(),
        }
    }
}

impl DeepView for ToolCallStreamDelta {
    type V = ToolCallStreamDeltaV;

    open spec fn deep_view(&self) -> ToolCallStreamDeltaV {
        self.view()
    }
}

/// The kind of content carried by one streaming chunk.
#[derive(Debug, Clone)]
pub enum StreamContentDelta {
    /// A fragment of text content.
    Text(String),
    /// Incremental tool-call information.
    ToolCallDelta(Vec<ToolCallStreamDelta>),
}

/// Ghost content of a `StreamContentDelta`.
pub ghost enum StreamContentDeltaV {
    Text(Seq<char>),
    ToolCallDelta(Seq<ToolCallStreamDeltaV>),
}

impl View for StreamContentDelta {
    type V = StreamContentDeltaV;

    open spec fn view(&self) -> StreamContentDeltaV {
        match self {
            StreamContentDelta::Text(t) => StreamContentDeltaV::Text(t@),
            StreamContentDelta::ToolCallDelta(ds) => StreamContentDeltaV::ToolCallDelta(
                ds.deep_view(),
            ),
        }
    }
}

impl DeepView for StreamContentDelta {
    type V = StreamContentDeltaV;

    open spec fn deep_view(&self) -> StreamContentDeltaV {
        self.view()
    }
}

/// A single chunk of a streaming completion response, already normalized
/// from the vendor's shape.
#[derive(Debug, Clone)]
pub struct CompletionStreamChunk {
    /// The content delta of this chunk.
    pub delta: StreamContentDelta,
    /// Token usage; usually only on the terminal chunk, if at all.
    pub usage: Option<TokenUsage>,
    /// Why the model stopped; usually only on the terminal chunk, if at all.
    pub finish_reason: Option<String>,
}

/// Ghost content of a `CompletionStreamChunk`.
pub ghost struct CompletionStreamChunkV {
    pub delta: StreamContentDeltaV,
    pub usage: Option<TokenUsage>,
    pub finish_reason: Option<Seq<char>>,
}

impl View for CompletionStreamChunk {
    type V = CompletionStreamChunkV;

    open spec fn view(&self) -> CompletionStreamChunkV {
        CompletionStreamChunkV {
            delta: self.delta@,
            usage: self.usage,
            finish_reason: self.finish_reason.deep_view(),
        }
    }
}

impl DeepView for CompletionStreamChunk {
    type V = CompletionStreamChunkV;

    open spec fn deep_view(&self) -> CompletionStreamChunkV {
        self.view()
    }
}

/// Errors that can occur when interacting with a provider, as plain values.
///
/// `RequestError`, `ApiError` and `StreamError` are transport-level
/// failures; `ParseError` marks a malformed vendor payload; `ConfigError`,
/// `MissingConfig` and `Unsupported` mark configurations that cannot work
/// and are never retried (see `machine::retry_eligible`).
#[derive(Debug, Clone)]
pub enum ProviderError {
    /// The underlying HTTP request failed.
    RequestError(String),
    /// The API returned a non-success status.
    ApiError { status: u16, message: String },
    /// The vendor's JSON response could not be decoded.
    ParseError(String),
    /// The configuration is invalid for the chosen provider.
    ConfigError(String),
    /// Stream processing failed.
    StreamError(String),
    /// A required configuration value is missing.
    MissingConfig(String),
    /// The tool-call part of a response is malformed.
    ToolFormatError(String),
    /// The operation is not supported by this provider implementation.
    Unsupported(String),
    /// An unexpected internal error.
    Unexpected(String),
}

/// Ghost content of a `ProviderError`.
pub ghost enum ProviderErrorV {
    RequestError(Seq<char>),
    ApiError { status: u16, message: Seq<char> },
    ParseError(Seq<char>),
    ConfigError(Seq<char>),
    StreamError(Seq<char>),
    MissingConfig(Seq<char>),
    ToolFormatError(Seq<char>),
    Unsupported(Seq<char>),
    Unexpected(Seq<char>),
}

impl View for ProviderError {
    type V = ProviderErrorV;

    open spec fn view(&self) -> ProviderErrorV {
        match self {
            ProviderError::RequestError(m) => ProviderErrorV::RequestError(m@),
            ProviderError::ApiError { status, message } => ProviderErrorV::ApiError {
                status: *status,
                message: message@,
            },
            ProviderError::ParseError(m) => ProviderErrorV::ParseError(m@),
            ProviderError::ConfigError(m) => ProviderErrorV::ConfigError(m@),
            ProviderError::StreamError(m) => ProviderErrorV::StreamError(m@),
            ProviderError::MissingConfig(m) => ProviderErrorV::MissingConfig(m@),
            ProviderError::ToolFormatError(m) => ProviderErrorV::ToolFormatError(m@),
            ProviderError::Unsupported(m) => ProviderErrorV::Unsupported(m@),
            ProviderError::Unexpected(m) => ProviderErrorV::Unexpected(m@),
        }
    }
}

impl DeepView for ProviderError {
    type V = ProviderErrorV;

    open spec fn deep_view(&self) -> ProviderErrorV {
        self.view()
    }
}

/// A copy of an optional string, with the content pinned.
pub fn clone_opt_string(o: &Option<String>) -> (r: Option<String>)
    ensures
        r.deep_view() == o.deep_view(),
{
    match o {
        Some(s) => Some(s.clone()),
        None => None,
    }
}

/// A copy of a tool call, with the content pinned.
pub fn clone_call(c: &ToolCallRequest) -> (r: ToolCallRequest)
    ensures
        r@ == c@,
{
    ToolCallRequest {
        id: c.id.clone(),
        function: ToolCallFunction {
            name: c.function.name.clone(),
            arguments: c.function.arguments.clone(),
        },
    }
}

/// A copy of a tool-call list, with the content pinned.
pub fn clone_calls(cs: &Vec<ToolCallRequest>) -> (r: Vec<ToolCallRequest>)
    ensures
        r.deep_view() == cs.deep_view(),
{
    let mut out: Vec<ToolCallRequest> = Vec::new();
    let n = cs.len();
    let mut i: usize = 0;
    while i < n
        invariant
            n == cs.len(),
            i <= n,
            out.deep_view() == cs.deep_view().subrange(0, i as int),
        decreases n - i,
    {
        let ghost prev = out.deep_view();
        let item = clone_call(&cs[i]);
        out.push(item);
        proof {
            assert(out.deep_view() =~= prev.push(item@));
            assert(out.deep_view() =~= cs.deep_view().subrange(0, i + 1));
        }
        i = i + 1;
    }
    proof {
        assert(cs.deep_view().subrange(0, n as int) =~= cs.deep_view());
    }
    out
}

/// A copy of a chat message, with the content pinned.
pub fn clone_message(m: &ChatMessage) -> (r: ChatMessage)
    ensures
        r@ == m@,
{
    ChatMessage {
        role: m.role,
        content: clone_opt_string(&m.content),
        tool_calls: match &m.tool_calls {
            Some(cs) => Some(clone_calls(cs)),
            None => None,
        },
        tool_call_id: clone_opt_string(&m.tool_call_id),
    }
}

/// A copy of a transcript, with the content pinned.
pub fn clone_messages(ms: &Vec<ChatMessage>) -> (r: Vec<ChatMessage>)
    ensures
        r.deep_view() == ms.deep_view(),
{
    let mut out: Vec<ChatMessage> = Vec::new();
    let n = ms.len();
    let mut i: usize = 0;
    while i < n
        invariant
            n == ms.len(),
            i <= n,
            out.deep_view() == ms.deep_view().subrange(0, i as int),
        decreases n - i,
    {
        let ghost prev = out.deep_view();
        let item = clone_message(&ms[i]);
        out.push(item);
        proof {
            assert(out.deep_view() =~= prev.push(item@));
            assert(out.deep_view() =~= ms.deep_view().subrange(0, i + 1));
        }
        i = i + 1;
    }
    proof {
        assert(ms.deep_view().subrange(0, n as int) =~= ms.deep_view());
    }
    out
}

/// A copy of a string list, with the content pinned.
pub fn clone_strings(ss: &Vec<String>) -> (r: Vec<String>)
    ensures
        r.deep_view() == ss.deep_view(),
{
    let mut out: Vec<String> = Vec::new();
    let n = ss.len();
    let mut i: usize = 0;
    while i < n
        invariant
            n == ss.len(),
            i <= n,
            out.deep_view() == ss.deep_view().subrange(0, i as int),
        decreases n - i,
    {
        let ghost prev = out.deep_view();
        let item = ss[i].clone();
        out.push(item);
        proof {
            assert(out.deep_view() =~= prev.push(item@));
            assert(out.deep_view() =~= ss.deep_view().subrange(0, i + 1));
        }
        i = i + 1;
    }
    proof {
        assert(ss.deep_view().subrange(0, n as int) =~= ss.deep_view());
    }
    out
}

/// A copy of a parameter schema, with the content pinned.
pub fn clone_schema(s: &JsonSchema) -> (r: JsonSchema)
    ensures
        r@ == s@,
{
    let properties: Option<Vec<JsonSchemaProperty>> = match &s.properties {
        Some(ps) => {
            let mut out: Vec<JsonSchemaProperty> = Vec::new();
            let n = ps.len();
            let mut i: usize = 0;
            while i < n
                invariant
                    n == ps.len(),
                    i <= n,
                    out.deep_view() == ps.deep_view().subrange(0, i as int),
                decreases n - i,
            {
                let ghost prev = out.deep_view();
                let item = JsonSchemaProperty {
                    name: ps[i].name.clone(),
                    value_type: ps[i].value_type.clone(),
                    description: clone_opt_string(&ps[i].description),
                };
                out.push(item);
                proof {
                    assert(out.deep_view() =~= prev.push(item@));
                    assert(out.deep_view() =~= ps.deep_view().subrange(0, i + 1));
                }
                i = i + 1;
            }
            proof {
                assert(ps.deep_view().subrange(0, n as int) =~= ps.deep_view());
            }
            Some(out)
        },
        None => None,
    };
    JsonSchema {
        schema_type: s.schema_type.clone(),
        properties,
        required: match &s.required {
            Some(rs) => Some(clone_strings(rs)),
            None => None,
        },
    }
}

/// A copy of a tool list, with the content pinned.
pub fn clone_tools(ts: &Vec<Tool>) -> (r: Vec<Tool>)
    ensures
        r.deep_view() == ts.deep_view(),
{
    let mut out: Vec<Tool> = Vec::new();
    let n = ts.len();
    let mut i: usize = 0;
    while i < n
        invariant
            n == ts.len(),
            i <= n,
            out.deep_view() == ts.deep_view().subrange(0, i as int),
        decreases n - i,
    {
        let ghost prev = out.deep_view();
        let item = Tool {
            name: ts[i].name.clone(),
            description: ts[i].description.clone(),
            parameters: clone_schema(&ts[i].parameters),
        };
        out.push(item);
        proof {
            assert(out.deep_view() =~= prev.push(item@));
            assert(out.deep_view() =~= ts.deep_view().subrange(0, i + 1));
        }
        i = i + 1;
    }
    proof {
        assert(ts.deep_view().subrange(0, n as int) =~= ts.deep_view());
    }
    out
}

} // verus!
