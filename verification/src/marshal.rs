//! Marshalling of a `CompletionRequest` into the OpenAI-style JSON body.
//!
//! The whole body is rendered character by character by verified code; each
//! rendering function's contract equates its output with a spec-level
//! sequence, so the exact wire bytes are pinned down for every request.

use vstd::prelude::*;

use crate::protocol::{
    ChatMessage, ChatMessageRole, ChatMessageV, CompletionRequest, CompletionRequestV, JsonSchema,
    JsonSchemaProperty, JsonSchemaPropertyV, JsonSchemaV, Tool, ToolCallRequest, ToolCallRequestV,
    ToolV,
};
use crate::text::{
    append_json_string, append_milli, append_str, append_u32, chars_to_string, spec_json_string,
    spec_milli_digits, spec_u32_digits,
};

verus! {

/// The wire name of a chat role.
pub open spec fn spec_role_name(r: ChatMessageRole) -> Seq<char> {
    match r {
        ChatMessageRole::System => "system"@,
        ChatMessageRole::User => "user"@,
        ChatMessageRole::Assistant => "assistant"@,
        ChatMessageRole::Tool => "tool"@,
    }
}

/// One tool call inside an assistant message, as the wire carries it.
pub open spec fn spec_call(c: ToolCallRequestV) -> Seq<char> {
    "{\"id\":"@ + spec_json_string(c.id) + ",\"function\":{\"name\":"@ + spec_json_string(
        c.function.name,
    ) + ",\"arguments\":"@ + spec_json_string(c.function.arguments) + "}}"@
}

/// A comma-separated list of rendered tool calls.
pub open spec fn spec_call_list(cs: Seq<ToolCallRequestV>) -> Seq<char>
    decreases cs.len(),
{
    if cs.len() == 0 {
        Seq::empty()
    } else if cs.len() == 1 {
        spec_call(cs[0])
    } else {
        spec_call_list(cs.drop_last()) + seq![','] + spec_call(cs.last())
    }
}

/// One chat message as the wire carries it: the role, the content (`null`
/// when absent), and the optional tool-call fields.
pub open spec fn spec_message(m: ChatMessageV) -> Seq<char> {
    "{\"role\":\""@ + spec_role_name(m.role) + "\",\"content\":"@ + (match m.content {
        Some(c) => spec_json_string(c),
        None => "null"@,
    }) + (match m.tool_calls {
        Some(cs) => ",\"tool_calls\":["@ + spec_call_list(cs) + "]"@,
        None => Seq::empty(),
    }) + (match m.tool_call_id {
        Some(id) => ",\"tool_call_id\":"@ + spec_json_string(id),
        None => Seq::empty(),
    }) + "}"@
}

/// A comma-separated list of rendered messages.
pub open spec fn spec_message_list(ms: Seq<ChatMessageV>) -> Seq<char>
    decreases ms.len(),
{
    if ms.len() == 0 {
        Seq::empty()
    } else if ms.len() == 1 {
        spec_message(ms[0])
    } else {
        spec_message_list(ms.drop_last()) + seq![','] + spec_message(ms.last())
    }
}

/// One schema property: its name mapped to a type/description object.
pub open spec fn spec_property(p: JsonSchemaPropertyV) -> Seq<char> {
    spec_json_string(p.name) + ":{\"type\":"@ + spec_json_string(p.value_type) + (
    match p.description {
        Some(d) => ",\"description\":"@ + spec_json_string(d),
        None => Seq::empty(),
    }) + "}"@
}

/// A comma-separated list of rendered schema properties.
pub open spec fn spec_property_list(ps: Seq<JsonSchemaPropertyV>) -> Seq<char>
    decreases ps.len(),
{
    if ps.len() == 0 {
        Seq::empty()
    } else if ps.len() == 1 {
        spec_property(ps[0])
    } else {
        spec_property_list(ps.drop_last()) + seq![','] + spec_property(ps.last())
    }
}

/// A comma-separated list of JSON string literals.
pub open spec fn spec_string_list(ss: Seq<Seq<char>>) -> Seq<char>
    decreases ss.len(),
{
    if ss.len() == 0 {
        Seq::empty()
    } else if ss.len() == 1 {
        spec_json_string(ss[0])
    } else {
        spec_string_list(ss.drop_last()) + seq![','] + spec_json_string(ss.last())
    }
}

/// A parameter schema as the wire carries it.
pub open spec fn spec_schema(s: JsonSchemaV) -> Seq<char> {
    "{\"type\":"@ + spec_json_string(s.schema_type) + (match s.properties {
        Some(ps) => ",\"properties\":{"@ + spec_property_list(ps) + "}"@,
        None => Seq::empty(),
    }) + (match s.required {
        Some(rs) => ",\"required\":["@ + spec_string_list(rs) + "]"@,
        None => Seq::empty(),
    }) + "}"@
}

/// One tool declaration in the vendor's shape:
/// `{"type":"function","function":{...}}`.
pub open spec fn spec_tool_decl(t: ToolV) -> Seq<char> {
    "{\"type\":\"function\",\"function\":{\"name\":"@ + spec_json_string(t.name)
        + ",\"description\":"@ + spec_json_string(t.description) + ",\"parameters\":"@
        + spec_schema(t.parameters) + "}}"@
}

/// A comma-separated list of rendered tool declarations.
pub open spec fn spec_tool_list(ts: Seq<ToolV>) -> Seq<char>
    decreases ts.len(),
{
    if ts.len() == 0 {
        Seq::empty()
    } else if ts.len() == 1 {
        spec_tool_decl(ts[0])
    } else {
        spec_tool_list(ts.drop_last()) + seq![','] + spec_tool_decl(ts.last())
    }
}

/// The complete OpenAI-style request body.  Optional fields are omitted
/// when absent; when tools are declared, `tool_choice` defaults to "auto".
pub open spec fn spec_request_body(r: CompletionRequestV, stream: bool) -> Seq<char> {
    "{\"model\":"@ + spec_json_string(r.model) + ",\"messages\":["@ + spec_message_list(
        r.messages,
    ) + "]"@ + (match r.temperature_milli {
        Some(t) => ",\"temperature\":"@ + spec_milli_digits(t as nat),
        None => Seq::empty(),
    }) + (match r.max_tokens {
        Some(mt) => ",\"max_tokens\":"@ + spec_u32_digits(mt as nat),
        None => Seq::empty(),
    }) + ",\"stream\":"@ + (if stream {
        "true"@
    } else {
        "false"@
    }) + (match r.tools {
        Some(ts) => ",\"tools\":["@ + spec_tool_list(ts) + "],\"tool_choice\":\"auto\""@,
        None => Seq::empty(),
    }) + "}"@
}

fn append_role_name(out: &mut Vec<char>, r: ChatMessageRole)
    ensures
        final(out)@ == old(out)@ + spec_role_name(r),
{
    match r {
        ChatMessageRole::System => append_str(out, "system"),
        ChatMessageRole::User => append_str(out, "user"),
        ChatMessageRole::Assistant => append_str(out, "assistant"),
        ChatMessageRole::Tool => append_str(out, "tool"),
    }
}

fn append_call(out: &mut Vec<char>, c: &ToolCallRequest)
    ensures
        final(out)@ == old(out)@ + spec_call(c@),
{
    append_str(out, "{\"id\":");
    append_json_string(out, c.id.as_str());
    append_str(out, ",\"function\":{\"name\":");
    append_json_string(out, c.function.name.as_str());
    append_str(out, ",\"arguments\":");
    append_json_string(out, c.function.arguments.as_str());
    append_str(out, "}}");
    proof {
        assert(final(out)@ =~= old(out)@ + spec_call(c@));
    }
}

fn append_call_list(out: &mut Vec<char>, cs: &Vec<ToolCallRequest>)
    ensures
        final(out)@ == old(out)@ + spec_call_list(cs.deep_view()),
{
    let n = cs.len();
    let mut i: usize = 0;
    while i < n
        invariant
            n == cs.len(),
            i <= n,
            out@ == old(out)@ + spec_call_list(cs.deep_view().subrange(0, i as int)),
        decreases n - i,
    {
        if i > 0 {
            out.push(',');
        }
        append_call(out, &cs[i]);
        proof {
            let whole = cs.deep_view();
            let pre = whole.subrange(0, i as int);
            let post = whole.subrange(0, i + 1);
            assert(post.drop_last() =~= pre);
            assert(post.last() == whole[i as int]);
            if i == 0 {
                assert(spec_call_list(post) == spec_call(whole[0]));
            } else {
                assert(spec_call_list(post) == spec_call_list(pre) + seq![','] + spec_call(
                    whole[i as int],
                ));
            }
            assert(out@ =~= old(out)@ + spec_call_list(post));
        }
        i = i + 1;
    }
    proof {
        assert(cs.deep_view().subrange(0, n as int) =~= cs.deep_view());
    }
}

#[verifier::rlimit(100)]
fn append_message(out: &mut Vec<char>, m: &ChatMessage)
    ensures
        final(out)@ == old(out)@ + spec_message(m@),
{
    append_str(out, "{\"role\":\"");
    append_role_name(out, m.role);
    append_str(out, "\",\"content\":");
    match &m.content {
        Some(c) => append_json_string(out, c.as_str()),
        None => append_str(out, "null"),
    }
    match &m.tool_calls {
        Some(cs) => {
            append_str(out, ",\"tool_calls\":[");
            append_call_list(out, cs);
            append_str(out, "]");
        },
        None => {},
    }
    match &m.tool_call_id {
        Some(id) => {
            append_str(out, ",\"tool_call_id\":");
            append_json_string(out, id.as_str());
        },
        None => {},
    }
    append_str(out, "}");
    proof {
        assert(final(out)@ =~= old(out)@ + spec_message(m@));
    }
}

fn append_message_list(out: &mut Vec<char>, ms: &Vec<ChatMessage>)
    ensures
        final(out)@ == old(out)@ + spec_message_list(ms.deep_view()),
{
    let n = ms.len();
    let mut i: usize = 0;
    while i < n
        invariant
            n == ms.len(),
            i <= n,
            out@ == old(out)@ + spec_message_list(ms.deep_view().subrange(0, i as int)),
        decreases n - i,
    {
        if i > 0 {
            out.push(',');
        }
        append_message(out, &ms[i]);
        proof {
            let whole = ms.deep_view();
            let pre = whole.subrange(0, i as int);
            let post = whole.subrange(0, i + 1);
            assert(post.drop_last() =~= pre);
            assert(post.last() == whole[i as int]);
            if i == 0 {
                assert(spec_message_list(post) == spec_message(whole[0]));
            } else {
                assert(spec_message_list(post) == spec_message_list(pre) + seq![','] + spec_message(
                    whole[i as int],
                ));
            }
            assert(out@ =~= old(out)@ + spec_message_list(post));
        }
        i = i + 1;
    }
    proof {
        assert(ms.deep_view().subrange(0, n as int) =~= ms.deep_view());
    }
}

fn append_property(out: &mut Vec<char>, p: &JsonSchemaProperty)
    ensures
        final(out)@ == old(out)@ + spec_property(p@),
{
    append_json_string(out, p.name.as_str());
    append_str(out, ":{\"type\":");
    append_json_string(out, p.value_type.as_str());
    match &p.description {
        Some(d) => {
            append_str(out, ",\"description\":");
            append_json_string(out, d.as_str());
        },
        None => {},
    }
    append_str(out, "}");
    proof {
        assert(final(out)@ =~= old(out)@ + spec_property(p@));
    }
}

fn append_property_list(out: &mut Vec<char>, ps: &Vec<JsonSchemaProperty>)
    ensures
        final(out)@ == old(out)@ + spec_property_list(ps.deep_view()),
{
    let n = ps.len();
    let mut i: usize = 0;
    while i < n
        invariant
            n == ps.len(),
            i <= n,
            out@ == old(out)@ + spec_property_list(ps.deep_view().subrange(0, i as int)),
        decreases n - i,
    {
        if i > 0 {
            out.push(',');
        }
        append_property(out, &ps[i]);
        proof {
            let whole = ps.deep_view();
            let pre = whole.subrange(0, i as int);
            let post = whole.subrange(0, i + 1);
            assert(post.drop_last() =~= pre);
            assert(post.last() == whole[i as int]);
            if i == 0 {
                assert(spec_property_list(post) == spec_property(whole[0]));
            } else {
                assert(spec_property_list(post) == spec_property_list(pre) + seq![','] + spec_property(
                    whole[i as int],
                ));
            }
            assert(out@ =~= old(out)@ + spec_property_list(post));
        }
        i = i + 1;
    }
    proof {
        assert(ps.deep_view().subrange(0, n as int) =~= ps.deep_view());
    }
}

fn append_string_list(out: &mut Vec<char>, ss: &Vec<String>)
    ensures
        final(out)@ == old(out)@ + spec_string_list(ss.deep_view()),
{
    let n = ss.len();
    let mut i: usize = 0;
    while i < n
        invariant
            n == ss.len(),
            i <= n,
            out@ == old(out)@ + spec_string_list(ss.deep_view().subrange(0, i as int)),
        decreases n - i,
    {
        if i > 0 {
            out.push(',');
        }
        append_json_string(out, ss[i].as_str());
        proof {
            let whole = ss.deep_view();
            let pre = whole.subrange(0, i as int);
            let post = whole.subrange(0, i + 1);
            assert(post.drop_last() =~= pre);
            assert(post.last() == whole[i as int]);
            if i == 0 {
                assert(spec_string_list(post) == spec_json_string(whole[0]));
            } else {
                assert(spec_string_list(post) == spec_string_list(pre) + seq![','] + spec_json_string(
                    whole[i as int],
                ));
            }
            assert(out@ =~= old(out)@ + spec_string_list(post));
        }
        i = i + 1;
    }
    proof {
        assert(ss.deep_view().subrange(0, n as int) =~= ss.deep_view());
    }
}

fn append_schema(out: &mut Vec<char>, s: &JsonSchema)
    ensures
        final(out)@ == old(out)@ + spec_schema(s@),
{
    append_str(out, "{\"type\":");
    append_json_string(out, s.schema_type.as_str());
    match &s.properties {
        Some(ps) => {
            append_str(out, ",\"properties\":{");
            append_property_list(out, ps);
            append_str(out, "}");
        },
        None => {},
    }
    match &s.required {
        Some(rs) => {
            append_str(out, ",\"required\":[");
            append_string_list(out, rs);
            append_str(out, "]");
        },
        None => {},
    }
    append_str(out, "}");
    proof {
        assert(final(out)@ =~= old(out)@ + spec_schema(s@));
    }
}

fn append_tool_decl(out: &mut Vec<char>, t: &Tool)
    ensures
        final(out)@ == old(out)@ + spec_tool_decl(t@),
{
    append_str(out, "{\"type\":\"function\",\"function\":{\"name\":");
    append_json_string(out, t.name.as_str());
    append_str(out, ",\"description\":");
    append_json_string(out, t.description.as_str());
    append_str(out, ",\"parameters\":");
    append_schema(out, &t.parameters);
    append_str(out, "}}");
    proof {
        assert(final(out)@ =~= old(out)@ + spec_tool_decl(t@));
    }
}

fn append_tool_list(out: &mut Vec<char>, ts: &Vec<Tool>)
    ensures
        final(out)@ == old(out)@ + spec_tool_list(ts.deep_view()),
{
    let n = ts.len();
    let mut i: usize = 0;
    while i < n
        invariant
            n == ts.len(),
            i <= n,
            out@ == old(out)@ + spec_tool_list(ts.deep_view().subrange(0, i as int)),
        decreases n - i,
    {
        if i > 0 {
            out.push(',');
        }
        append_tool_decl(out, &ts[i]);
        proof {
            let whole = ts.deep_view();
            let pre = whole.subrange(0, i as int);
            let post = whole.subrange(0, i + 1);
            assert(post.drop_last() =~= pre);
            assert(post.last() == whole[i as int]);
            if i == 0 {
                assert(spec_tool_list(post) == spec_tool_decl(whole[0]));
            } else {
                assert(spec_tool_list(post) == spec_tool_list(pre) + seq![','] + spec_tool_decl(
                    whole[i as int],
                ));
            }
            assert(out@ =~= old(out)@ + spec_tool_list(post));
        }
        i = i + 1;
    }
    proof {
        assert(ts.deep_view().subrange(0, n as int) =~= ts.deep_view());
    }
}

/// Renders the complete OpenAI-style JSON body for `r`, with the given
/// streaming flag.
#[verifier::rlimit(100)]
pub fn request_body(r: &CompletionRequest, stream: bool) -> (body: String)
    ensures
        body@ == spec_request_body(r@, stream),
{
    let mut out: Vec<char> = Vec::new();
    append_str(&mut out, "{\"model\":");
    append_json_string(&mut out, r.model.as_str());
    append_str(&mut out, ",\"messages\":[");
    append_message_list(&mut out, &r.messages);
    append_str(&mut out, "]");
    match &r.temperature_milli {
        Some(t) => {
            append_str(&mut out, ",\"temperature\":");
            append_milli(&mut out, *t);
        },
        None => {},
    }
    match &r.max_tokens {
        Some(mt) => {
            append_str(&mut out, ",\"max_tokens\":");
            append_u32(&mut out, *mt);
        },
        None => {},
    }
    append_str(&mut out, ",\"stream\":");
    if stream {
        append_str(&mut out, "true");
    } else {
        append_str(&mut out, "false");
    }
    match &r.tools {
        Some(ts) => {
            append_str(&mut out, ",\"tools\":[");
            append_tool_list(&mut out, ts);
            append_str(&mut out, "],\"tool_choice\":\"auto\"");
        },
        None => {},
    }
    append_str(&mut out, "}");
    proof {
        assert(out@ =~= spec_request_body(r@, stream));
    }
    chars_to_string(&out)
}

} // verus!
