//! Reassembly of streamed tool-call deltas.
//!
//! A streaming response delivers tool calls in fragments keyed by a call
//! index: the id and name each arrive at most once, the argument string as
//! an ordered sequence of fragments.  The reassembler accumulates one
//! partial call per index, emits the current state after every update, and
//! clears all accumulation when a text delta arrives (a model does not
//! interleave text and tool calls within one logical turn).
//!
//! The exact update is pinned by [`spec_apply_payload`]; a whole transport
//! chunk folds through it payload by payload, and at transport end of
//! stream [`StreamReassembler::finish`] flushes the collected terminal
//! marker.  The laws at the bottom state the reassembly guarantees:
//! fragments concatenate in arrival order, a non-empty stored id or name
//! is never overwritten, and a text delta starts accumulation afresh.

use vstd::prelude::*;
use vstd::string::StringExecFns;

use crate::protocol::{
    clone_opt_string, CompletionStreamChunk, CompletionStreamChunkV, StreamContentDelta,
    StreamContentDeltaV, TokenUsage, ToolCallFunctionStreamDelta, ToolCallFunctionStreamDeltaV,
    ToolCallStreamDelta, ToolCallStreamDeltaV,
};

verus! {

/// One streaming payload after vendor decoding: at most one of text
/// content or tool-call deltas, plus any usage or finish reason it carried.
pub struct StreamPayload {
    pub content: Option<String>,
    pub tool_deltas: Option<Vec<ToolCallStreamDelta>>,
    pub usage: Option<TokenUsage>,
    pub finish_reason: Option<String>,
}

/// Ghost content of a `StreamPayload`.
pub ghost struct StreamPayloadV {
    pub content: Option<Seq<char>>,
    pub tool_deltas: Option<Seq<ToolCallStreamDeltaV>>,
    pub usage: Option<TokenUsage>,
    pub finish_reason: Option<Seq<char>>,
}

impl View for StreamPayload {
    type V = StreamPayloadV;

    open spec fn view(&self) -> StreamPayloadV {
        StreamPayloadV {
            content: self.content.deep_view(),
            tool_deltas: self.tool_deltas.deep_view(),
            usage: self.usage,
            finish_reason: self.finish_reason.deep_view(),
        }
    }
}

/// The accumulator map of one in-flight streaming response, plus the usage
/// and finish reason collected so far.  One instance serves exactly one
/// response; a new streaming call constructs a fresh one.
pub struct StreamReassembler {
    accums: Vec<ToolCallStreamDelta>,
    usage: Option<TokenUsage>,
    finish_reason: Option<String>,
}

/// Ghost content of a `StreamReassembler`.
pub ghost struct StreamReassemblerV {
    pub accums: Seq<ToolCallStreamDeltaV>,
    pub usage: Option<TokenUsage>,
    pub finish_reason: Option<Seq<char>>,
}

impl View for StreamReassembler {
    type V = StreamReassemblerV;

    closed spec fn view(&self) -> StreamReassemblerV {
        StreamReassemblerV {
            accums: self.accums.deep_view(),
            usage: self.usage,
            finish_reason: self.finish_reason.deep_view(),
        }
    }
}

/// No two accumulators share a call index.
pub open spec fn unique_indices(accums: Seq<ToolCallStreamDeltaV>) -> bool {
    forall|j: int, k: int|
        0 <= j < k < accums.len() ==> accums[j].index != accums[k].index
}

/// The accumulator a first fragment for `idx` starts from.
pub open spec fn fresh_accum(idx: usize) -> ToolCallStreamDeltaV {
    ToolCallStreamDeltaV { index: idx, id: None, function: None }
}

/// First-write-wins for an id or name: an incoming value is stored only
/// while nothing non-empty is stored yet; once a non-empty value is
/// stored, nothing changes it.  A stored empty string counts as unset, so
/// a fragment that carried only `""` does not block the real value.
pub open spec fn first_write(
    stored: Option<Seq<char>>,
    incoming: Option<Seq<char>>,
) -> Option<Seq<char>> {
    match incoming {
        None => stored,
        Some(v) => match stored {
            Some(s) => if s.len() == 0 {
                Some(v)
            } else {
                stored
            },
            None => Some(v),
        },
    }
}

/// Merges one function delta into accumulated function state: the name by
/// [`first_write`], and an argument fragment is appended to the stored
/// buffer.
pub open spec fn merge_function(
    ef: Option<ToolCallFunctionStreamDeltaV>,
    df: Option<ToolCallFunctionStreamDeltaV>,
) -> Option<ToolCallFunctionStreamDeltaV> {
    match df {
        None => ef,
        Some(d) => {
            let base = match ef {
                Some(e) => e,
                None => ToolCallFunctionStreamDeltaV { name: None, arguments: None },
            };
            Some(ToolCallFunctionStreamDeltaV {
                name: first_write(base.name, d.name),
                arguments: match d.arguments {
                    None => base.arguments,
                    Some(frag) => Some(
                        (match base.arguments {
                            Some(a) => a,
                            None => Seq::empty(),
                        }) + frag,
                    ),
                },
            })
        },
    }
}

/// Merges one delta into an accumulator: the id by [`first_write`], the
/// function state by [`merge_function`].
pub open spec fn merge_accum(
    e: ToolCallStreamDeltaV,
    d: ToolCallStreamDeltaV,
) -> ToolCallStreamDeltaV {
    ToolCallStreamDeltaV {
        index: e.index,
        id: first_write(e.id, d.id),
        function: merge_function(e.function, d.function),
    }
}

/// Position of the first accumulator for `idx`, or `accums.len()` if none
/// exists yet.
pub open spec fn spec_find(accums: Seq<ToolCallStreamDeltaV>, idx: usize) -> int
    decreases accums.len(),
{
    if accums.len() == 0 {
        0
    } else if accums[0].index == idx {
        0
    } else {
        1 + spec_find(accums.drop_first(), idx)
    }
}

/// `spec_find` is a position in `accums`, nothing before it matches, and
/// it points at a match unless it is `accums.len()`.
pub proof fn lemma_spec_find(accums: Seq<ToolCallStreamDeltaV>, idx: usize)
    ensures
        0 <= spec_find(accums, idx) <= accums.len(),
        forall|m: int| 0 <= m < spec_find(accums, idx) ==> accums[m].index != idx,
        spec_find(accums, idx) < accums.len() ==> accums[spec_find(accums, idx)].index == idx,
    decreases accums.len(),
{
    if accums.len() == 0 {
    } else if accums[0].index == idx {
    } else {
        lemma_spec_find(accums.drop_first(), idx);
        let j = spec_find(accums, idx);
        assert forall|m: int| 0 <= m < j implies accums[m].index != idx by {
            if m > 0 {
                assert(accums.drop_first()[m - 1] == accums[m]);
            }
        }
        if j < accums.len() {
            assert(accums.drop_first()[j - 1] == accums[j]);
        }
    }
}

/// Pins `spec_find` to a scanned position.
proof fn lemma_spec_find_at(accums: Seq<ToolCallStreamDeltaV>, idx: usize, j: int)
    requires
        0 <= j <= accums.len(),
        forall|m: int| 0 <= m < j ==> accums[m].index != idx,
        j < accums.len() ==> accums[j].index == idx,
    ensures
        spec_find(accums, idx) == j,
    decreases accums.len(),
{
    if accums.len() == 0 {
    } else if accums[0].index == idx {
        assert(j == 0);
    } else {
        assert(j >= 1);
        assert forall|m: int| 0 <= m < j - 1 implies accums.drop_first()[m].index != idx by {
            assert(accums.drop_first()[m] == accums[m + 1]);
        }
        if j - 1 < accums.drop_first().len() {
            assert(accums.drop_first()[j - 1] == accums[j]);
        }
        lemma_spec_find_at(accums.drop_first(), idx, j - 1);
    }
}

/// One delta applied to the accumulator map: merged into the existing
/// accumulator for its index, or into a fresh one appended at the end.
/// Yields the new map and the updated accumulator (the emitted snapshot).
pub open spec fn spec_apply_delta(
    accums: Seq<ToolCallStreamDeltaV>,
    d: ToolCallStreamDeltaV,
) -> (Seq<ToolCallStreamDeltaV>, ToolCallStreamDeltaV) {
    let j = spec_find(accums, d.index);
    if j == accums.len() {
        let upd = merge_accum(fresh_accum(d.index), d);
        (accums.push(upd), upd)
    } else {
        let upd = merge_accum(accums[j], d);
        (accums.update(j, upd), upd)
    }
}

/// A whole delta list applied left to right; the snapshots are emitted in
/// the order the deltas arrived.
pub open spec fn spec_apply_deltas(
    accums: Seq<ToolCallStreamDeltaV>,
    ds: Seq<ToolCallStreamDeltaV>,
) -> (Seq<ToolCallStreamDeltaV>, Seq<ToolCallStreamDeltaV>)
    decreases ds.len(),
{
    if ds.len() == 0 {
        (accums, Seq::empty())
    } else {
        let prefix = spec_apply_deltas(accums, ds.drop_last());
        let last = spec_apply_delta(prefix.0, ds.last());
        (last.0, prefix.1.push(last.1))
    }
}

/// Applying one delta keeps the indices unique.
pub proof fn lemma_apply_delta_unique(accums: Seq<ToolCallStreamDeltaV>, d: ToolCallStreamDeltaV)
    requires
        unique_indices(accums),
    ensures
        unique_indices(spec_apply_delta(accums, d).0),
{
    lemma_spec_find(accums, d.index);
}

/// A payload carrying only tool-call deltas.
pub open spec fn tool_payload(ds: Seq<ToolCallStreamDeltaV>) -> StreamPayloadV {
    StreamPayloadV { content: None, tool_deltas: Some(ds), usage: None, finish_reason: None }
}

/// A payload carrying only text content.
pub open spec fn text_payload(t: Seq<char>) -> StreamPayloadV {
    StreamPayloadV { content: Some(t), tool_deltas: None, usage: None, finish_reason: None }
}

/// The terminal decision for a payload that produced no content chunk: if
/// the payload carried a finish reason or usage, a terminal marker chunk
/// with everything collected so far is emitted.
pub open spec fn spec_terminal(
    r1: StreamReassemblerV,
    p: StreamPayloadV,
) -> Option<CompletionStreamChunkV> {
    if p.finish_reason is Some || p.usage is Some {
        Some(
            CompletionStreamChunkV {
                delta: StreamContentDeltaV::Text(Seq::empty()),
                usage: r1.usage,
                finish_reason: r1.finish_reason,
            },
        )
    } else {
        None
    }
}

/// One decoded payload applied to the reassembler.
///
/// Usage and finish reason are remembered as they appear.  Non-empty text
/// passes through immediately and clears all tool-call accumulation; a
/// non-empty delta list updates the accumulators and emits their current
/// state; anything else emits a terminal marker exactly when the payload
/// carried a finish reason or usage.
pub open spec fn spec_apply_payload(r: StreamReassemblerV, p: StreamPayloadV) -> (
    StreamReassemblerV,
    Option<CompletionStreamChunkV>,
) {
    let r1 = StreamReassemblerV {
        accums: r.accums,
        usage: if p.usage is Some {
            p.usage
        } else {
            r.usage
        },
        finish_reason: if p.finish_reason is Some {
            p.finish_reason
        } else {
            r.finish_reason
        },
    };
    match p.content {
        Some(t) => if t.len() > 0 {
            (
                StreamReassemblerV { accums: Seq::empty(), ..r1 },
                Some(
                    CompletionStreamChunkV {
                        delta: StreamContentDeltaV::Text(t),
                        usage: None,
                        finish_reason: None,
                    },
                ),
            )
        } else {
            (r1, spec_terminal(r1, p))
        },
        None => match p.tool_deltas {
            Some(ds) => if ds.len() > 0 {
                let applied = spec_apply_deltas(r1.accums, ds);
                (
                    StreamReassemblerV { accums: applied.0, ..r1 },
                    Some(
                        CompletionStreamChunkV {
                            delta: StreamContentDeltaV::ToolCallDelta(applied.1),
                            usage: None,
                            finish_reason: None,
                        },
                    ),
                )
            } else {
                (r1, spec_terminal(r1, p))
            },
            None => (r1, spec_terminal(r1, p)),
        },
    }
}

/// First-write-wins merge of an optional id or name.
fn first_write_string(stored: &Option<String>, incoming: &Option<String>) -> (r: Option<String>)
    ensures
        r.deep_view() == first_write(stored.deep_view(), incoming.deep_view()),
{
    match incoming {
        None => clone_opt_string(stored),
        Some(v) => match stored {
            Some(s) => if s.as_str().is_empty() {
                Some(v.clone())
            } else {
                Some(s.clone())
            },
            None => Some(v.clone()),
        },
    }
}

/// A whole chunk's payloads applied in order; the emitted chunks are
/// collected in that same order.
pub open spec fn spec_apply_payloads(r: StreamReassemblerV, ps: Seq<StreamPayloadV>) -> (
    StreamReassemblerV,
    Seq<CompletionStreamChunkV>,
)
    decreases ps.len(),
{
    if ps.len() == 0 {
        (r, Seq::empty())
    } else {
        let prefix = spec_apply_payloads(r, ps.drop_last());
        let step = spec_apply_payload(prefix.0, ps.last());
        (
            step.0,
            prefix.1 + (match step.1 {
                Some(c) => seq![c],
                None => Seq::<CompletionStreamChunkV>::empty(),
            }),
        )
    }
}

/// The marker chunk owed at stream end: everything collected, when a
/// finish reason or usage was seen at all.
pub open spec fn spec_finish(r: StreamReassemblerV) -> Option<CompletionStreamChunkV> {
    if r.finish_reason is Some || r.usage is Some {
        Some(
            CompletionStreamChunkV {
                delta: StreamContentDeltaV::Text(Seq::empty()),
                usage: r.usage,
                finish_reason: r.finish_reason,
            },
        )
    } else {
        None
    }
}

fn clone_fn_delta(f: &ToolCallFunctionStreamDelta) -> (r: ToolCallFunctionStreamDelta)
    ensures
        r@ == f@,
{
    ToolCallFunctionStreamDelta {
        name: clone_opt_string(&f.name),
        arguments: clone_opt_string(&f.arguments),
    }
}

fn clone_delta(d: &ToolCallStreamDelta) -> (r: ToolCallStreamDelta)
    ensures
        r@ == d@,
{
    ToolCallStreamDelta {
        index: d.index,
        id: clone_opt_string(&d.id),
        function: match &d.function {
            Some(f) => Some(clone_fn_delta(f)),
            None => None,
        },
    }
}

impl StreamReassembler {
    /// A fresh reassembler with no accumulation and nothing collected.
    pub fn new() -> (r: Self)
        ensures
            r@.accums == Seq::<ToolCallStreamDeltaV>::empty(),
            r@.usage is None,
            r@.finish_reason is None,
            unique_indices(r@.accums),
    {
        let r = StreamReassembler { accums: Vec::new(), usage: None, finish_reason: None };
        proof {
            assert(r@.accums =~= Seq::<ToolCallStreamDeltaV>::empty());
        }
        r
    }

    /// Merges one delta into the accumulator for its index (created fresh
    /// if this is the first fragment) and returns the updated state, which
    /// the caller emits as the snapshot.
    fn apply_tool_delta(&mut self, d: &ToolCallStreamDelta) -> (snap: ToolCallStreamDelta)
        requires
            unique_indices(old(self)@.accums),
        ensures
            final(self)@.accums == spec_apply_delta(old(self)@.accums, d@).0,
            snap@ == spec_apply_delta(old(self)@.accums, d@).1,
            final(self)@.usage == old(self)@.usage,
            final(self)@.finish_reason == old(self)@.finish_reason,
            unique_indices(final(self)@.accums),
    {
        proof {
            lemma_apply_delta_unique(old(self)@.accums, d@);
        }
        let n = self.accums.len();
        let mut j: usize = 0;
        while j < n && self.accums[j].index != d.index
            invariant
                n == self.accums.len(),
                j <= n,
                forall|m: int| 0 <= m < j ==> self.accums.deep_view()[m].index != d.index,
            decreases n - j,
        {
            j = j + 1;
        }
        proof {
            lemma_spec_find_at(self.accums.deep_view(), d.index, j as int);
        }
        let base: ToolCallStreamDelta = if j < n {
            clone_delta(&self.accums[j])
        } else {
            ToolCallStreamDelta { index: d.index, id: None, function: None }
        };
        proof {
            if j < n {
                assert(base@ == old(self)@.accums[j as int]);
            } else {
                assert(base@ == fresh_accum(d@.index));
            }
        }
        let merged_id: Option<String> = first_write_string(&base.id, &d.id);
        let merged_fn: Option<ToolCallFunctionStreamDelta> = match &d.function {
            None => match &base.function {
                Some(f) => Some(clone_fn_delta(f)),
                None => None,
            },
            Some(df) => {
                let (base_name, base_args): (Option<String>, Option<String>) = match
                    &base.function {
                    Some(bf) => (clone_opt_string(&bf.name), clone_opt_string(&bf.arguments)),
                    None => (None, None),
                };
                let name: Option<String> = first_write_string(&base_name, &df.name);
                let arguments: Option<String> = match &df.arguments {
                    None => base_args,
                    Some(frag) => {
                        let cur: String = match base_args {
                            Some(a) => a,
                            None => String::new(),
                        };
                        proof {
                            if base@.function is None || (match base@.function {
                                Some(bf) => bf.arguments is None,
                                None => true,
                            }) {
                                assert(cur@ =~= Seq::<char>::empty());
                            }
                        }
                        Some(cur.concat(frag.as_str()))
                    },
                };
                Some(ToolCallFunctionStreamDelta { name, arguments })
            },
        };
        let upd = ToolCallStreamDelta { index: base.index, id: merged_id, function: merged_fn };
        proof {
            assert(upd@ == merge_accum(base@, d@));
        }
        let snap = clone_delta(&upd);
        if j < n {
            self.accums.set(j, upd);
            proof {
                assert(final(self)@.accums =~= spec_apply_delta(old(self)@.accums, d@).0);
            }
        } else {
            self.accums.push(upd);
            proof {
                assert(final(self)@.accums =~= spec_apply_delta(old(self)@.accums, d@).0);
            }
        }
        snap
    }

    /// Applies every delta of one payload in arrival order and returns the
    /// emitted snapshots, in that same order.
    fn apply_tool_deltas(&mut self, ds: &Vec<ToolCallStreamDelta>) -> (snaps: Vec<
        ToolCallStreamDelta,
    >)
        requires
            unique_indices(old(self)@.accums),
        ensures
            final(self)@.accums == spec_apply_deltas(old(self)@.accums, ds.deep_view()).0,
            snaps.deep_view() == spec_apply_deltas(old(self)@.accums, ds.deep_view()).1,
            final(self)@.usage == old(self)@.usage,
            final(self)@.finish_reason == old(self)@.finish_reason,
            unique_indices(final(self)@.accums),
    {
        let mut snaps: Vec<ToolCallStreamDelta> = Vec::new();
        let n = ds.len();
        let mut i: usize = 0;
        while i < n
            invariant
                n == ds.len(),
                i <= n,
                self@.accums == spec_apply_deltas(
                    old(self)@.accums,
                    ds.deep_view().subrange(0, i as int),
                ).0,
                snaps.deep_view() == spec_apply_deltas(
                    old(self)@.accums,
                    ds.deep_view().subrange(0, i as int),
                ).1,
                self@.usage == old(self)@.usage,
                self@.finish_reason == old(self)@.finish_reason,
                unique_indices(self@.accums),
            decreases n - i,
        {
            let ghost pre_accums = self@.accums;
            let ghost pre_snaps = snaps.deep_view();
            let snap = self.apply_tool_delta(&ds[i]);
            snaps.push(snap);
            proof {
                let whole = ds.deep_view();
                let before = whole.subrange(0, i as int);
                let after = whole.subrange(0, i + 1);
                assert(after.drop_last() =~= before);
                assert(after.last() == whole[i as int]);
                assert(snaps.deep_view() =~= pre_snaps.push(snap@));
            }
            i = i + 1;
        }
        proof {
            assert(ds.deep_view().subrange(0, n as int) =~= ds.deep_view());
        }
        snaps
    }

    /// Applies one decoded streaming payload, returning the chunk to hand
    /// to the caller, exactly as [`spec_apply_payload`] describes.
    pub fn apply_payload(&mut self, p: StreamPayload) -> (out: Option<CompletionStreamChunk>)
        requires
            unique_indices(old(self)@.accums),
        ensures
            final(self)@ == spec_apply_payload(old(self)@, p@).0,
            out.deep_view() == spec_apply_payload(old(self)@, p@).1,
            unique_indices(final(self)@.accums),
    {
        let ghost pv = p@;
        let StreamPayload { content, tool_deltas, usage, finish_reason } = p;
        let had_info = usage.is_some() || finish_reason.is_some();
        if usage.is_some() {
            self.usage = usage;
        }
        match finish_reason {
            Some(fr) => {
                self.finish_reason = Some(fr);
            },
            None => {},
        }
        let ghost r1 = self@;
        match content {
            Some(t) => {
                if !t.as_str().is_empty() {
                    self.accums = Vec::new();
                    proof {
                        assert(self@.accums =~= Seq::<ToolCallStreamDeltaV>::empty());
                    }
                    Some(
                        CompletionStreamChunk {
                            delta: StreamContentDelta::Text(t),
                            usage: None,
                            finish_reason: None,
                        },
                    )
                } else {
                    self.terminal_chunk(had_info)
                }
            },
            None => match tool_deltas {
                Some(ds) => {
                    if ds.len() > 0 {
                        let snaps = self.apply_tool_deltas(&ds);
                        Some(
                            CompletionStreamChunk {
                                delta: StreamContentDelta::ToolCallDelta(snaps),
                                usage: None,
                                finish_reason: None,
                            },
                        )
                    } else {
                        self.terminal_chunk(had_info)
                    }
                },
                None => self.terminal_chunk(had_info),
            },
        }
    }

    /// Processes one transport chunk of an SSE stream: splits it into its
    /// data payloads, decodes each, applies them in arrival order through
    /// [`spec_apply_payload`], and returns every chunk to emit.  A chunk
    /// with no data payloads changes nothing and emits nothing.  A
    /// malformed payload is a hard stream failure: processing stops there
    /// — nothing is emitted for the corrupt frame, and the accumulated
    /// partial tool-call state is discarded — and its parse error is
    /// returned, as the caller abandons the stream.  Success therefore
    /// requires every payload to be a well-formed JSON document.  Which
    /// `StreamPayload` a document decodes to runs through the opaque JSON
    /// tree and is stated existentially: the result is the exact fold of
    /// one decoded payload per data line, in order.
    pub fn process_chunk(&mut self, bytes: &[u8]) -> (r: Result<
        Vec<CompletionStreamChunk>,
        crate::protocol::ProviderError,
    >)
        requires
            unique_indices(old(self)@.accums),
        ensures
            unique_indices(final(self)@.accums),
            r matches Err(e) ==> e@ is ParseError,
            r matches Ok(cs) ==> (forall|i: int|
                0 <= i < crate::sse::spec_extract_payloads(bytes@).len()
                    ==> crate::jsonval::json_doc_ok(
                    #[trigger] crate::sse::spec_extract_payloads(bytes@)[i],
                )),
            r matches Ok(cs) ==> exists|ps: Seq<StreamPayloadV>|
                ps.len() == crate::sse::spec_extract_payloads(bytes@).len() && final(self)@
                    == spec_apply_payloads(old(self)@, ps).0 && cs.deep_view()
                    == #[trigger] spec_apply_payloads(old(self)@, ps).1,
            r matches Err(e) ==> final(self)@.accums == Seq::<ToolCallStreamDeltaV>::empty(),
            crate::sse::spec_extract_payloads(bytes@).len() == 0 ==> (final(self)@ == old(self)@
                && (r matches Ok(cs) && cs@.len() == 0)),
    {
        let ghost spec_pl = crate::sse::spec_extract_payloads(bytes@);
        let payloads = crate::sse::extract_payloads(bytes);
        let mut out: Vec<CompletionStreamChunk> = Vec::new();
        let n = payloads.len();
        proof {
            assert(payloads.deep_view().len() == spec_pl.len());
        }
        let ghost mut ps: Seq<StreamPayloadV> = Seq::empty();
        let mut i: usize = 0;
        while i < n
            invariant
                n == payloads.len(),
                i <= n,
                spec_pl == crate::sse::spec_extract_payloads(bytes@),
                spec_pl == payloads.deep_view(),
                n as int == spec_pl.len(),
                ps.len() == i as int,
                self@ == spec_apply_payloads(old(self)@, ps).0,
                out.deep_view() == spec_apply_payloads(old(self)@, ps).1,
                unique_indices(self@.accums),
                forall|j: int| 0 <= j < i ==> crate::jsonval::json_doc_ok(#[trigger] spec_pl[j]),
            decreases n - i,
        {
            proof {
                assert(payloads@[i as int].deep_view() =~= payloads@[i as int]@);
                assert(payloads.deep_view()[i as int] == payloads@[i as int]@);
            }
            let payload = match crate::unmarshal::extract_stream_payload(payloads[i].as_slice()) {
                Ok(p) => p,
                Err(e) => {
                    // hard failure: the in-progress accumulation is
                    // worthless to the abandoned stream
                    self.accums = Vec::new();
                    proof {
                        assert(self@.accums =~= Seq::<ToolCallStreamDeltaV>::empty());
                    }
                    return Err(e);
                },
            };
            let ghost pv = payload@;
            let ghost pre = self@;
            let ghost prev_out = out.deep_view();
            let maybe_chunk = self.apply_payload(payload);
            match maybe_chunk {
                Some(c) => {
                    out.push(c);
                    proof {
                        assert(out.deep_view() =~= prev_out.push(c@));
                    }
                },
                None => {},
            }
            proof {
                let ps2 = ps.push(pv);
                assert(ps2.drop_last() =~= ps);
                assert(ps2.last() == pv);
                assert(spec_apply_payloads(old(self)@, ps2).0 == spec_apply_payload(pre, pv).0);
                assert(out.deep_view() =~= spec_apply_payloads(old(self)@, ps2).1);
                ps = ps2;
            }
            i = i + 1;
        }
        proof {
            assert(ps.len() == spec_pl.len() && self@ == spec_apply_payloads(old(self)@, ps).0
                && out.deep_view() == spec_apply_payloads(old(self)@, ps).1);
            if spec_pl.len() == 0 {
                assert(spec_apply_payloads(old(self)@, ps).0 == old(self)@);
                assert(out.deep_view() =~= Seq::<CompletionStreamChunkV>::empty());
            }
        }
        Ok(out)
    }

    /// The terminal flush owed at transport end-of-stream: the marker
    /// chunk carrying everything collected, if a finish reason or usage
    /// was ever seen, so that callers always observe a terminal marker
    /// even when it arrived alongside content.
    pub fn finish(&self) -> (out: Option<CompletionStreamChunk>)
        ensures
            out.deep_view() == spec_finish(self@),
    {
        if self.usage.is_some() || self.finish_reason.is_some() {
            Some(
                CompletionStreamChunk {
                    delta: StreamContentDelta::Text(String::new()),
                    usage: self.usage,
                    finish_reason: clone_opt_string(&self.finish_reason),
                },
            )
        } else {
            None
        }
    }

    /// Emits the terminal marker carrying everything collected, when the
    /// current payload carried any terminal information at all.
    fn terminal_chunk(&self, had_info: bool) -> (out: Option<CompletionStreamChunk>)
        ensures
            had_info ==> out.deep_view() == Some(
                CompletionStreamChunkV {
                    delta: StreamContentDeltaV::Text(Seq::empty()),
                    usage: self@.usage,
                    finish_reason: self@.finish_reason,
                },
            ),
            !had_info ==> out is None,
    {
        if had_info {
            let out = CompletionStreamChunk {
                delta: StreamContentDelta::Text(String::new()),
                usage: self.usage,
                finish_reason: clone_opt_string(&self.finish_reason),
            };
            Some(out)
        } else {
            None
        }
    }
}

/// Fragments concatenated in arrival order.
pub open spec fn concat_all(frags: Seq<Seq<char>>) -> Seq<char>
    decreases frags.len(),
{
    if frags.len() == 0 {
        Seq::empty()
    } else {
        concat_all(frags.drop_last()) + frags.last()
    }
}

/// A delta carrying one argument fragment for call index `i` and nothing
/// else.
pub open spec fn fragment_delta(i: usize, frag: Seq<char>) -> ToolCallStreamDeltaV {
    ToolCallStreamDeltaV {
        index: i,
        id: None,
        function: Some(ToolCallFunctionStreamDeltaV { name: None, arguments: Some(frag) }),
    }
}

/// The delta list splitting a call's arguments into the given fragments.
pub open spec fn fragment_deltas(i: usize, frags: Seq<Seq<char>>) -> Seq<ToolCallStreamDeltaV> {
    frags.map_values(|frag: Seq<char>| fragment_delta(i, frag))
}

/// Reassembly order law: for any ordered sequence of argument fragments
/// for a fixed index, starting from an empty accumulator map, the
/// reassembled call holds exactly the concatenation of the fragments in
/// arrival order — however the original string was split.
pub proof fn lemma_reassembly_order(i: usize, frags: Seq<Seq<char>>)
    requires
        frags.len() > 0,
    ensures
        spec_apply_deltas(Seq::empty(), fragment_deltas(i, frags)).0 == seq![
            ToolCallStreamDeltaV {
                index: i,
                id: None,
                function: Some(
                    ToolCallFunctionStreamDeltaV { name: None, arguments: Some(concat_all(frags)) },
                ),
            },
        ],
    decreases frags.len(),
{
    let ds = fragment_deltas(i, frags);
    if frags.len() == 1 {
        assert(ds.drop_last() =~= fragment_deltas(i, frags.drop_last()));
        assert(frags.drop_last().len() == 0);
        assert(spec_apply_deltas(Seq::empty(), ds.drop_last()).0 =~= Seq::<
            ToolCallStreamDeltaV,
        >::empty());
        let applied = spec_apply_delta(Seq::empty(), ds.last());
        assert(Seq::<char>::empty() + frags[0] =~= frags[0]);
        assert(concat_all(frags) == concat_all(frags.drop_last()) + frags.last());
        assert(Seq::<char>::empty() + frags.last() =~= frags.last());
        assert(concat_all(frags) =~= frags[0]);
        assert(spec_apply_deltas(Seq::empty(), ds).0 =~= seq![
            ToolCallStreamDeltaV {
                index: i,
                id: None,
                function: Some(
                    ToolCallFunctionStreamDeltaV {
                        name: None,
                        arguments: Some(concat_all(frags)),
                    },
                ),
            },
        ]);
    } else {
        lemma_reassembly_order(i, frags.drop_last());
        assert(ds.drop_last() =~= fragment_deltas(i, frags.drop_last()));
        let prefix = spec_apply_deltas(Seq::empty(), ds.drop_last());
        let entry = ToolCallStreamDeltaV {
            index: i,
            id: None,
            function: Some(
                ToolCallFunctionStreamDeltaV {
                    name: None,
                    arguments: Some(concat_all(frags.drop_last())),
                },
            ),
        };
        assert(prefix.0 == seq![entry]);
        assert(prefix.0[0].index == i);
        lemma_spec_find_at(prefix.0, i, 0);
        let applied = spec_apply_delta(prefix.0, ds.last());
        assert(ds.last() == fragment_delta(i, frags.last()));
        assert(applied.0 =~= seq![merge_accum(entry, ds.last())]);
        assert(merge_accum(entry, ds.last()).function == Some(
            ToolCallFunctionStreamDeltaV {
                name: None,
                arguments: Some(concat_all(frags.drop_last()) + frags.last()),
            },
        ));
        assert(spec_apply_deltas(Seq::empty(), ds).0 =~= seq![
            ToolCallStreamDeltaV {
                index: i,
                id: None,
                function: Some(
                    ToolCallFunctionStreamDeltaV {
                        name: None,
                        arguments: Some(concat_all(frags)),
                    },
                ),
            },
        ]);
    }
}

/// First-write-wins law: once the accumulator for an index holds a
/// non-empty id or function name, no later delta for that index changes
/// it, whatever value the delta carries.
pub proof fn lemma_first_write_wins(
    accums: Seq<ToolCallStreamDeltaV>,
    d: ToolCallStreamDeltaV,
    j: int,
)
    requires
        unique_indices(accums),
        0 <= j < accums.len(),
        accums[j].index == d.index,
    ensures
        (accums[j].id matches Some(s) && s.len() > 0) ==> spec_apply_delta(accums, d).0[j].id
            == accums[j].id,
        (accums[j].function matches Some(f) && f.name matches Some(nm) && nm.len() > 0) ==> (
        spec_apply_delta(accums, d).0[j].function matches Some(g) && g.name
            == accums[j].function->0.name),
{
    lemma_spec_find(accums, d.index);
    let found = spec_find(accums, d.index);
    if found != j {
        assert(accums[found].index == d.index);
        assert(false);
    }
}

/// Text/tool exclusivity law: a text delta clears all accumulation, so a
/// tool-call delta that follows text starts a fresh accumulation for its
/// index — shown here on the interleaving tool(d1), text, tool(d3).
pub proof fn lemma_text_clears(
    r: StreamReassemblerV,
    d1: ToolCallStreamDeltaV,
    t: Seq<char>,
    d3: ToolCallStreamDeltaV,
)
    requires
        t.len() > 0,
    ensures
        spec_apply_payload(
            spec_apply_payload(r, tool_payload(seq![d1])).0,
            text_payload(t),
        ).0.accums == Seq::<ToolCallStreamDeltaV>::empty(),
        spec_apply_payload(
            spec_apply_payload(spec_apply_payload(r, tool_payload(seq![d1])).0, text_payload(t)).0,
            tool_payload(seq![d3]),
        ).0.accums == seq![merge_accum(fresh_accum(d3.index), d3)],
{
    let r1 = spec_apply_payload(r, tool_payload(seq![d1])).0;
    let r2 = spec_apply_payload(r1, text_payload(t)).0;
    assert(r2.accums =~= Seq::<ToolCallStreamDeltaV>::empty());
    let ds3 = seq![d3];
    assert(ds3.drop_last() =~= Seq::<ToolCallStreamDeltaV>::empty());
    assert(spec_apply_deltas(r2.accums, ds3.drop_last()).0 =~= Seq::<
        ToolCallStreamDeltaV,
    >::empty());
    let applied = spec_apply_delta(Seq::empty(), d3);
    assert(spec_apply_payload(r2, tool_payload(ds3)).0.accums =~= seq![
        merge_accum(fresh_accum(d3.index), d3),
    ]);
}

} // verus!
