use merco_llmproxy::protocol::{
    ProviderError, StreamContentDelta, ToolCallFunctionStreamDelta, ToolCallStreamDelta,
};
use merco_llmproxy::stream::{StreamPayload, StreamReassembler};

fn tool_payload(deltas: Vec<ToolCallStreamDelta>) -> StreamPayload {
    StreamPayload { content: None, tool_deltas: Some(deltas), usage: None, finish_reason: None }
}

fn text_payload(text: &str) -> StreamPayload {
    StreamPayload {
        content: Some(text.to_string()),
        tool_deltas: None,
        usage: None,
        finish_reason: None,
    }
}

fn fragment(index: usize, args: &str) -> ToolCallStreamDelta {
    ToolCallStreamDelta {
        index,
        id: None,
        function: Some(ToolCallFunctionStreamDelta {
            name: None,
            arguments: Some(args.to_string()),
        }),
    }
}

fn snapshot_of(chunk: merco_llmproxy::protocol::CompletionStreamChunk) -> Vec<ToolCallStreamDelta> {
    match chunk.delta {
        StreamContentDelta::ToolCallDelta(ds) => ds,
        _ => panic!("expected a tool-call delta chunk"),
    }
}

#[test]
fn fragments_concatenate_in_arrival_order() {
    let mut r = StreamReassembler::new();
    let full = "{\"a\":123,\"b\":456}";
    // an arbitrary split of the arguments string
    let parts = ["{\"a\":", "123,", "\"b\"", ":456}"];
    let mut last = None;
    for p in parts {
        let out = r.apply_payload(tool_payload(vec![fragment(0, p)])).unwrap();
        last = Some(out);
    }
    let snaps = snapshot_of(last.unwrap());
    assert_eq!(snaps.len(), 1);
    let args = snaps[0].function.as_ref().unwrap().arguments.as_ref().unwrap();
    assert_eq!(args, full);
}

#[test]
fn id_and_name_are_first_write_wins() {
    let mut r = StreamReassembler::new();
    let first = ToolCallStreamDelta {
        index: 0,
        id: Some("call_1".to_string()),
        function: Some(ToolCallFunctionStreamDelta {
            name: Some("sum_numbers".to_string()),
            arguments: None,
        }),
    };
    r.apply_payload(tool_payload(vec![first])).unwrap();
    let second = ToolCallStreamDelta {
        index: 0,
        id: Some("other".to_string()),
        function: Some(ToolCallFunctionStreamDelta {
            name: Some("different".to_string()),
            arguments: Some("{}".to_string()),
        }),
    };
    let out = r.apply_payload(tool_payload(vec![second])).unwrap();
    let snaps = snapshot_of(out);
    assert_eq!(snaps[0].id.as_deref(), Some("call_1"));
    assert_eq!(
        snaps[0].function.as_ref().unwrap().name.as_deref(),
        Some("sum_numbers")
    );
    assert_eq!(
        snaps[0].function.as_ref().unwrap().arguments.as_deref(),
        Some("{}")
    );
}

#[test]
fn text_after_tool_deltas_clears_accumulation() {
    let mut r = StreamReassembler::new();
    r.apply_payload(tool_payload(vec![fragment(0, "{\"x\":1")])).unwrap();
    let text_chunk = r.apply_payload(text_payload("hello")).unwrap();
    match text_chunk.delta {
        StreamContentDelta::Text(t) => assert_eq!(t, "hello"),
        _ => panic!("expected text"),
    }
    // the next delta for index 0 starts a fresh accumulation
    let out = r.apply_payload(tool_payload(vec![fragment(0, "{\"y\":2}")])).unwrap();
    let snaps = snapshot_of(out);
    let args = snaps[0].function.as_ref().unwrap().arguments.as_ref().unwrap();
    assert_eq!(args, "{\"y\":2}");
    assert!(snaps[0].id.is_none());
}

#[test]
fn parallel_indices_accumulate_independently() {
    let mut r = StreamReassembler::new();
    let out = r
        .apply_payload(tool_payload(vec![fragment(0, "{\"a\""), fragment(1, "{\"b\"")]))
        .unwrap();
    let snaps = snapshot_of(out);
    assert_eq!(snaps.len(), 2);
    let out = r.apply_payload(tool_payload(vec![fragment(1, ":2}")])).unwrap();
    let snaps = snapshot_of(out);
    assert_eq!(snaps.len(), 1);
    assert_eq!(snaps[0].index, 1);
    let args = snaps[0].function.as_ref().unwrap().arguments.as_ref().unwrap();
    assert_eq!(args, "{\"b\":2}");
}

#[test]
fn empty_text_does_not_clear_or_emit() {
    let mut r = StreamReassembler::new();
    r.apply_payload(tool_payload(vec![fragment(0, "{\"x\"")])).unwrap();
    assert!(r.apply_payload(text_payload("")).is_none());
    let out = r.apply_payload(tool_payload(vec![fragment(0, ":1}")])).unwrap();
    let snaps = snapshot_of(out);
    let args = snaps[0].function.as_ref().unwrap().arguments.as_ref().unwrap();
    assert_eq!(args, "{\"x\":1}");
}

#[test]
fn terminal_marker_carries_finish_reason_and_usage() {
    let mut r = StreamReassembler::new();
    let payload = StreamPayload {
        content: None,
        tool_deltas: None,
        usage: Some(merco_llmproxy::protocol::TokenUsage {
            prompt_tokens: 1,
            completion_tokens: 2,
            total_tokens: 3,
        }),
        finish_reason: Some("stop".to_string()),
    };
    let chunk = r.apply_payload(payload).unwrap();
    match chunk.delta {
        StreamContentDelta::Text(t) => assert_eq!(t, ""),
        _ => panic!("expected empty text marker"),
    }
    assert_eq!(chunk.finish_reason.as_deref(), Some("stop"));
    assert_eq!(chunk.usage.unwrap().total_tokens, 3);
}

#[test]
fn payload_without_information_emits_nothing() {
    let mut r = StreamReassembler::new();
    let payload = StreamPayload {
        content: None,
        tool_deltas: None,
        usage: None,
        finish_reason: None,
    };
    assert!(r.apply_payload(payload).is_none());
}

#[test]
fn process_chunk_splits_sse_lines_and_drops_done() {
    let mut r = StreamReassembler::new();
    let bytes = b"data: {\"model\":\"m\",\"choices\":[{\"index\":0,\
        \"delta\":{\"content\":\"he\"}}]}\n\n\
        data: {\"model\":\"m\",\"choices\":[{\"index\":0,\
        \"delta\":{\"content\":\"llo\"}}]}\n\n\
        data: [DONE]\n";
    let chunks = r.process_chunk(bytes).unwrap();
    assert_eq!(chunks.len(), 2);
    match (&chunks[0].delta, &chunks[1].delta) {
        (StreamContentDelta::Text(a), StreamContentDelta::Text(b)) => {
            assert_eq!(a, "he");
            assert_eq!(b, "llo");
        }
        _ => panic!("expected two text chunks"),
    }
}

#[test]
fn process_chunk_final_line_yields_terminal_marker() {
    let mut r = StreamReassembler::new();
    let bytes = b"data: {\"model\":\"m\",\"choices\":[{\"index\":0,\"delta\":{},\
        \"finish_reason\":\"stop\"}],\
        \"usage\":{\"prompt_tokens\":7,\"completion_tokens\":8,\"total_tokens\":15}}\n";
    let chunks = r.process_chunk(bytes).unwrap();
    assert_eq!(chunks.len(), 1);
    assert_eq!(chunks[0].finish_reason.as_deref(), Some("stop"));
    assert_eq!(chunks[0].usage.unwrap().prompt_tokens, 7);
}

#[test]
fn malformed_payload_is_a_hard_stream_failure() {
    let mut r = StreamReassembler::new();
    let bytes = b"data: {oops\n";
    assert!(matches!(r.process_chunk(bytes), Err(ProviderError::ParseError(_))));
}

#[test]
fn non_data_lines_and_empty_payloads_are_ignored() {
    let mut r = StreamReassembler::new();
    let bytes = b": keep-alive\n\ndata: \nevent: x\n";
    let chunks = r.process_chunk(bytes).unwrap();
    assert!(chunks.is_empty());
}

#[test]
fn streamed_tool_call_reassembles_across_chunks() {
    let mut r = StreamReassembler::new();
    let c1 = b"data: {\"model\":\"m\",\"choices\":[{\"index\":0,\"delta\":{\"tool_calls\":[\
        {\"index\":0,\"id\":\"call_9\",\"function\":{\"name\":\"sum_numbers\",\
         \"arguments\":\"{\\\"a\\\":\"}}]}}]}\n";
    let c2 = b"data: {\"model\":\"m\",\"choices\":[{\"index\":0,\"delta\":{\"tool_calls\":[\
        {\"index\":0,\"function\":{\"arguments\":\"1}\"}}]}}]}\n";
    r.process_chunk(c1).unwrap();
    let chunks = r.process_chunk(c2).unwrap();
    let snaps = snapshot_of(chunks.into_iter().next().unwrap());
    assert_eq!(snaps[0].id.as_deref(), Some("call_9"));
    assert_eq!(
        snaps[0].function.as_ref().unwrap().arguments.as_deref(),
        Some("{\"a\":1}")
    );
}

#[test]
fn empty_id_and_name_do_not_block_the_real_values() {
    let mut r = StreamReassembler::new();
    let first = ToolCallStreamDelta {
        index: 0,
        id: Some(String::new()),
        function: Some(ToolCallFunctionStreamDelta {
            name: Some(String::new()),
            arguments: None,
        }),
    };
    r.apply_payload(tool_payload(vec![first])).unwrap();
    let second = ToolCallStreamDelta {
        index: 0,
        id: Some("call_1".to_string()),
        function: Some(ToolCallFunctionStreamDelta {
            name: Some("sum_numbers".to_string()),
            arguments: None,
        }),
    };
    let out = r.apply_payload(tool_payload(vec![second])).unwrap();
    let snaps = snapshot_of(out);
    assert_eq!(snaps[0].id.as_deref(), Some("call_1"));
    assert_eq!(
        snaps[0].function.as_ref().unwrap().name.as_deref(),
        Some("sum_numbers")
    );
}

#[test]
fn finish_flushes_a_reason_that_arrived_with_text() {
    let mut r = StreamReassembler::new();
    let payload = StreamPayload {
        content: Some("done".to_string()),
        tool_deltas: None,
        usage: None,
        finish_reason: Some("stop".to_string()),
    };
    // the payload emits the text chunk; the finish reason is remembered
    let chunk = r.apply_payload(payload).unwrap();
    assert!(matches!(chunk.delta, StreamContentDelta::Text(ref t) if t == "done"));
    assert!(chunk.finish_reason.is_none());
    // at end of stream the collected reason is flushed as the terminal
    // marker
    let marker = r.finish().unwrap();
    assert!(matches!(marker.delta, StreamContentDelta::Text(ref t) if t.is_empty()));
    assert_eq!(marker.finish_reason.as_deref(), Some("stop"));
}

#[test]
fn finish_without_collected_information_is_none() {
    let mut r = StreamReassembler::new();
    r.apply_payload(text_payload("hi")).unwrap();
    assert!(r.finish().is_none());
}

#[test]
fn hard_failure_discards_partial_accumulation() {
    let mut r = StreamReassembler::new();
    let start = b"data: {\"model\":\"m\",\"choices\":[{\"index\":0,\"delta\":{\"tool_calls\":[\
        {\"index\":0,\"id\":\"call_1\",\"function\":{\"arguments\":\"{\\\"a\\\":\"}}]}}]}\n";
    r.process_chunk(start).unwrap();
    assert!(r.process_chunk(b"data: {oops\n").is_err());
    // the next fragment for index 0 starts from nothing: no id, only the
    // new fragment
    let resume = b"data: {\"model\":\"m\",\"choices\":[{\"index\":0,\"delta\":{\"tool_calls\":[\
        {\"index\":0,\"function\":{\"arguments\":\"1}\"}}]}}]}\n";
    let chunks = r.process_chunk(resume).unwrap();
    let snaps = snapshot_of(chunks.into_iter().next().unwrap());
    assert!(snaps[0].id.is_none());
    assert_eq!(
        snaps[0].function.as_ref().unwrap().arguments.as_deref(),
        Some("1}")
    );
}
