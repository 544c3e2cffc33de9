//! Decoding of a vendor completion response into a `CompletionResponse`.
//!
//! Whether a body parses as JSON at all — and the parser's message when
//! it does not — is pinned to the bytes through the named results in
//! `jsonval`, so decoding owes success at the parse layer and every
//! failure is a `ParseError` with the exact text for malformed bytes.
//! The parsed tree itself is opaque to Verus, so the walk that pulls
//! plain values out of it carries no content contract; the decision of
//! what those values mean — message versus tool call, and the two
//! documented fallbacks when neither is present — is made by
//! [`normalize_kind`], whose contract pins the result for every input.

use vstd::prelude::*;

use crate::jsonval::{
    json_as_array, json_as_str, json_as_u64, json_doc_ok, json_get, json_is_null, json_parse_err,
    parse_json,
};
use crate::protocol::{
    CompletionKind, CompletionKindV, CompletionResponse, ProviderError, ProviderErrorV,
    TokenUsage, ToolCallFunction, ToolCallFunctionStreamDelta, ToolCallRequest, ToolCallRequestV,
    ToolCallStreamDelta,
};
use crate::stream::StreamPayload;
use crate::text::{append_str, chars_to_string, str_eq_str};

verus! {

/// What a completion result means, given the parts the vendor payload
/// carried: tool calls win over text; with neither present, a
/// `finish_reason` of "tool_calls" yields an empty tool-call set and
/// anything else an empty message, so an incomplete payload degrades
/// gracefully instead of failing the conversation loop.
pub open spec fn spec_normalize_kind(
    content: Option<Seq<char>>,
    tool_calls: Option<Seq<ToolCallRequestV>>,
    finish_reason: Option<Seq<char>>,
) -> CompletionKindV {
    match tool_calls {
        Some(calls) => CompletionKindV::ToolCall { tool_calls: calls },
        None => match content {
            Some(c) => CompletionKindV::Message { content: c },
            None => if finish_reason == Some("tool_calls"@) {
                CompletionKindV::ToolCall { tool_calls: Seq::empty() }
            } else {
                CompletionKindV::Message { content: Seq::empty() }
            },
        },
    }
}

/// Chooses the completion kind from the decoded parts of the first choice.
pub fn normalize_kind(
    content: Option<String>,
    tool_calls: Option<Vec<ToolCallRequest>>,
    finish_reason: &Option<String>,
) -> (k: CompletionKind)
    ensures
        k@ == spec_normalize_kind(
            content.deep_view(),
            tool_calls.deep_view(),
            finish_reason.deep_view(),
        ),
{
    match tool_calls {
        Some(calls) => CompletionKind::ToolCall { tool_calls: calls },
        None => match content {
            Some(c) => CompletionKind::Message { content: c },
            None => {
                let wants_tools = match finish_reason {
                    Some(fr) => str_eq_str(fr.as_str(), "tool_calls"),
                    None => false,
                };
                if wants_tools {
                    let empty: Vec<ToolCallRequest> = Vec::new();
                    proof {
                        assert(empty.deep_view() =~= Seq::<ToolCallRequestV>::empty());
                    }
                    CompletionKind::ToolCall { tool_calls: empty }
                } else {
                    CompletionKind::Message { content: String::new() }
                }
            },
        },
    }
}

/// A `ParseError` naming the field a payload lacked or mistyped.
fn field_error(key: &str) -> (r: ProviderError)
    ensures
        r@ is ParseError,
{
    let mut msg: Vec<char> = Vec::new();
    append_str(&mut msg, "missing or invalid field `");
    append_str(&mut msg, key);
    append_str(&mut msg, "`");
    ProviderError::ParseError(chars_to_string(&msg))
}

/// Extracts a required string field.
fn req_str(v: &serde_json::Value, key: &str) -> (r: Result<String, ProviderError>)
    ensures
        r matches Err(e) ==> e@ is ParseError,
{
    match json_get(v, key) {
        Some(f) => match json_as_str(f) {
            Some(s) => Ok(s),
            None => Err(field_error(key)),
        },
        None => Err(field_error(key)),
    }
}

/// Extracts an optional, nullable string field: absent and `null` both
/// decode to `None`; any other non-string value is malformed.
fn opt_str(v: &serde_json::Value, key: &str) -> (r: Result<Option<String>, ProviderError>)
    ensures
        r matches Err(e) ==> e@ is ParseError,
{
    match json_get(v, key) {
        Some(f) => {
            if json_is_null(f) {
                Ok(None)
            } else {
                match json_as_str(f) {
                    Some(s) => Ok(Some(s)),
                    None => Err(field_error(key)),
                }
            }
        },
        None => Ok(None),
    }
}

/// Extracts a required numeric field that must fit in `u32`.
fn req_u32(v: &serde_json::Value, key: &str) -> (r: Result<u32, ProviderError>)
    ensures
        r matches Err(e) ==> e@ is ParseError,
{
    match json_get(v, key) {
        Some(f) => match json_as_u64(f) {
            Some(n) => {
                if n <= u32::MAX as u64 {
                    Ok(n as u32)
                } else {
                    Err(field_error(key))
                }
            },
            None => Err(field_error(key)),
        },
        None => Err(field_error(key)),
    }
}

/// Decodes the vendor's `tool_calls` array: each entry must carry an id,
/// a type tag and a function object with name and argument string.
fn extract_tool_calls(arr: &Vec<serde_json::Value>) -> (r: Result<
    Vec<ToolCallRequest>,
    ProviderError,
>)
    ensures
        r matches Err(e) ==> e@ is ParseError,
{
    let mut calls: Vec<ToolCallRequest> = Vec::new();
    let n = arr.len();
    let mut i: usize = 0;
    while i < n
        invariant
            n == arr.len(),
            i <= n,
        decreases n - i,
    {
        let entry = &arr[i];
        let id = match req_str(entry, "id") {
            Ok(s) => s,
            Err(e) => { return Err(e); },
        };
        match req_str(entry, "type") {
            Ok(_) => {},
            Err(e) => { return Err(e); },
        }
        let function = match json_get(entry, "function") {
            Some(f) => f,
            None => { return Err(field_error("function")); },
        };
        let name = match req_str(function, "name") {
            Ok(s) => s,
            Err(e) => { return Err(e); },
        };
        let arguments = match req_str(function, "arguments") {
            Ok(s) => s,
            Err(e) => { return Err(e); },
        };
        calls.push(ToolCallRequest { id, function: ToolCallFunction { name, arguments } });
        i = i + 1;
    }
    Ok(calls)
}

/// Decodes the optional `usage` object into `TokenUsage`.
fn extract_usage(root: &serde_json::Value) -> (r: Result<Option<TokenUsage>, ProviderError>)
    ensures
        r matches Err(e) ==> e@ is ParseError,
{
    match json_get(root, "usage") {
        Some(u) => {
            if json_is_null(u) {
                return Ok(None);
            }
            let prompt_tokens = match req_u32(u, "prompt_tokens") {
                Ok(n) => n,
                Err(e) => { return Err(e); },
            };
            let completion_tokens = match req_u32(u, "completion_tokens") {
                Ok(n) => n,
                Err(e) => { return Err(e); },
            };
            let total_tokens = match req_u32(u, "total_tokens") {
                Ok(n) => n,
                Err(e) => { return Err(e); },
            };
            Ok(Some(TokenUsage { prompt_tokens, completion_tokens, total_tokens }))
        },
        None => Ok(None),
    }
}

/// Decodes a complete non-streaming vendor response body.
///
/// Every failure is a `ParseError`.  Bytes that are not one JSON document
/// are rejected with exactly the parser's message; success therefore
/// requires a well-formed document.  A parsed document lacking the fields
/// the vendor schema requires, or carrying an empty choice list, is also a
/// `ParseError` — the document tree is opaque to Verus, so which fields it
/// holds cannot be stated over the bytes, and only that layer is left
/// unpinned here.  On success the first choice is normalized by
/// [`normalize_kind`], so the returned kind always stands in that
/// function's image.
pub fn parse_completion_response(bytes: &[u8]) -> (r: Result<CompletionResponse, ProviderError>)
    ensures
        r matches Err(e) ==> e@ is ParseError,
        !json_doc_ok(bytes@) ==> (r matches Err(e) && e@ == ProviderErrorV::ParseError(
            json_parse_err(bytes@),
        )),
        r matches Ok(resp) ==> json_doc_ok(bytes@),
        r matches Ok(resp) ==> exists|c: Option<Seq<char>>, t: Option<Seq<ToolCallRequestV>>|
            resp@.kind == spec_normalize_kind(c, t, resp@.finish_reason),
{
    let root = match parse_json(bytes) {
        Ok(v) => v,
        Err(m) => { return Err(ProviderError::ParseError(m)); },
    };
    match req_str(&root, "model") {
        Ok(_) => {},
        Err(e) => { return Err(e); },
    }
    let choices = match json_get(&root, "choices") {
        Some(c) => match json_as_array(c) {
            Some(arr) => arr,
            None => { return Err(field_error("choices")); },
        },
        None => { return Err(field_error("choices")); },
    };
    if choices.len() == 0 {
        return Err(ProviderError::ParseError(String::from_str("No choices found in OpenAI response")));
    }
    let choice = &choices[0];
    match req_u32(choice, "index") {
        Ok(_) => {},
        Err(e) => { return Err(e); },
    }
    let finish_reason = match opt_str(choice, "finish_reason") {
        Ok(f) => f,
        Err(e) => { return Err(e); },
    };
    let message = match json_get(choice, "message") {
        Some(m) => m,
        None => { return Err(field_error("message")); },
    };
    match req_str(message, "role") {
        Ok(_) => {},
        Err(e) => { return Err(e); },
    }
    let content = match opt_str(message, "content") {
        Ok(c) => c,
        Err(e) => { return Err(e); },
    };
    let tool_calls: Option<Vec<ToolCallRequest>> = match json_get(message, "tool_calls") {
        Some(tc) => {
            if json_is_null(tc) {
                None
            } else {
                match json_as_array(tc) {
                    Some(arr) => match extract_tool_calls(arr) {
                        Ok(calls) => Some(calls),
                        Err(e) => { return Err(e); },
                    },
                    None => { return Err(field_error("tool_calls")); },
                }
            }
        },
        None => None,
    };
    let usage = match extract_usage(&root) {
        Ok(u) => u,
        Err(e) => { return Err(e); },
    };
    let ghost content_v = content.deep_view();
    let ghost tool_calls_v = tool_calls.deep_view();
    let kind = normalize_kind(content, tool_calls, &finish_reason);
    let resp = CompletionResponse { kind, usage, finish_reason };
    proof {
        assert(resp@.kind == spec_normalize_kind(content_v, tool_calls_v, resp@.finish_reason));
    }
    Ok(resp)
}

/// Decodes the `tool_calls` array of one streaming delta: each entry must
/// carry its call index; id, name and argument fragment are each optional.
fn extract_tool_call_deltas(arr: &Vec<serde_json::Value>) -> (r: Result<
    Vec<ToolCallStreamDelta>,
    ProviderError,
>)
    ensures
        r matches Err(e) ==> e@ is ParseError,
{
    let mut deltas: Vec<ToolCallStreamDelta> = Vec::new();
    let n = arr.len();
    let mut i: usize = 0;
    while i < n
        invariant
            n == arr.len(),
            i <= n,
        decreases n - i,
    {
        let entry = &arr[i];
        let index_u64 = match json_get(entry, "index") {
            Some(f) => match json_as_u64(f) {
                Some(x) => x,
                None => { return Err(field_error("index")); },
            },
            None => { return Err(field_error("index")); },
        };
        if index_u64 > usize::MAX as u64 {
            return Err(field_error("index"));
        }
        let index = index_u64 as usize;
        let id = match opt_str(entry, "id") {
            Ok(v) => v,
            Err(e) => { return Err(e); },
        };
        let function: Option<ToolCallFunctionStreamDelta> = match json_get(entry, "function") {
            Some(f) => {
                if json_is_null(f) {
                    None
                } else {
                    let name = match opt_str(f, "name") {
                        Ok(v) => v,
                        Err(e) => { return Err(e); },
                    };
                    let arguments = match opt_str(f, "arguments") {
                        Ok(v) => v,
                        Err(e) => { return Err(e); },
                    };
                    Some(ToolCallFunctionStreamDelta { name, arguments })
                }
            },
            None => None,
        };
        deltas.push(ToolCallStreamDelta { index, id, function });
        i = i + 1;
    }
    Ok(deltas)
}

/// Decodes one SSE data payload of a streaming response into a
/// `StreamPayload`.
///
/// Every failure is a `ParseError`; a payload that is not one JSON
/// document is rejected with exactly the parser's message, so success
/// requires a well-formed document.  A payload whose choice list is empty
/// still contributes any usage it carries; the first choice's delta may
/// hold a text fragment, tool-call deltas, neither, or (from some vendors)
/// both — what the parts mean is decided by
/// `StreamReassembler::apply_payload`, whose contract is exact.
pub(crate) fn extract_stream_payload(bytes: &[u8]) -> (r: Result<StreamPayload, ProviderError>)
    ensures
        r matches Err(e) ==> e@ is ParseError,
        !json_doc_ok(bytes@) ==> (r matches Err(e) && e@ == ProviderErrorV::ParseError(
            json_parse_err(bytes@),
        )),
        r matches Ok(p) ==> json_doc_ok(bytes@),
{
    let root = match parse_json(bytes) {
        Ok(v) => v,
        Err(m) => { return Err(ProviderError::ParseError(m)); },
    };
    match req_str(&root, "model") {
        Ok(_) => {},
        Err(e) => { return Err(e); },
    }
    let usage = match extract_usage(&root) {
        Ok(u) => u,
        Err(e) => { return Err(e); },
    };
    let choices = match json_get(&root, "choices") {
        Some(c) => match json_as_array(c) {
            Some(arr) => arr,
            None => { return Err(field_error("choices")); },
        },
        None => { return Err(field_error("choices")); },
    };
    if choices.len() == 0 {
        return Ok(
            StreamPayload { content: None, tool_deltas: None, usage, finish_reason: None },
        );
    }
    let choice = &choices[0];
    match req_u32(choice, "index") {
        Ok(_) => {},
        Err(e) => { return Err(e); },
    }
    let finish_reason = match opt_str(choice, "finish_reason") {
        Ok(f) => f,
        Err(e) => { return Err(e); },
    };
    let delta = match json_get(choice, "delta") {
        Some(d) => d,
        None => { return Err(field_error("delta")); },
    };
    let content = match opt_str(delta, "content") {
        Ok(c) => c,
        Err(e) => { return Err(e); },
    };
    let tool_deltas: Option<Vec<ToolCallStreamDelta>> = match json_get(delta, "tool_calls") {
        Some(tc) => {
            if json_is_null(tc) {
                None
            } else {
                match json_as_array(tc) {
                    Some(arr) => match extract_tool_call_deltas(arr) {
                        Ok(ds) => Some(ds),
                        Err(e) => { return Err(e); },
                    },
                    None => { return Err(field_error("tool_calls")); },
                }
            }
        },
        None => None,
    };
    Ok(StreamPayload { content, tool_deltas, usage, finish_reason })
}

} // verus!
