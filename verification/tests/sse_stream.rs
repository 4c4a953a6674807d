use orchestrator::chat::{ChatCompletionChunk, ChoiceChunk, DeltaChunk, FunctionCallChunk, ToolCallChunk};
use orchestrator::registry::Registry;
use orchestrator::sse;
use orchestrator::sse::{SseDecoder, SseLine, StreamEvent, ToolCallAccumulator};

fn delta(content: Option<&str>, reasoning: Option<&str>, tool_calls: Option<Vec<ToolCallChunk>>) -> DeltaChunk {
    DeltaChunk {
        role: None,
        content: content.map(|s| s.to_string()),
        reasoning: reasoning.map(|s| s.to_string()),
        tool_calls,
    }
}

fn chunk(d: DeltaChunk, finish: Option<&str>) -> ChatCompletionChunk {
    ChatCompletionChunk {
        id: "c1".to_string(),
        choices: vec![ChoiceChunk { delta: d, index: Some(0), finish_reason: finish.map(|s| s.to_string()) }],
        created: None,
    }
}

fn args_fragment(index: u32, args: &str) -> ToolCallChunk {
    ToolCallChunk {
        index: Some(index),
        id: None,
        call_type: None,
        function: Some(FunctionCallChunk { name: None, arguments: Some(args.to_string()) }),
    }
}

#[test]
fn split_arguments_concatenate() {
    let mut acc = ToolCallAccumulator::new();
    let opener = ToolCallChunk {
        index: Some(0),
        id: Some("call_1".to_string()),
        call_type: Some("function".to_string()),
        function: Some(FunctionCallChunk { name: Some("lookup".to_string()), arguments: None }),
    };
    let (_, t) = sse::process_chunk(&mut acc, &chunk(delta(None, None, Some(vec![opener])), None));
    assert!(!t);
    let (_, _) = sse::process_chunk(
        &mut acc,
        &chunk(delta(None, None, Some(vec![args_fragment(0, "{\"a\":")])), None),
    );
    let (_, _) = sse::process_chunk(
        &mut acc,
        &chunk(delta(None, None, Some(vec![args_fragment(0, "1}")])), None),
    );
    let (events, terminal) =
        sse::process_chunk(&mut acc, &chunk(delta(None, None, None), Some("tool_calls")));
    assert!(!terminal);
    assert_eq!(events.len(), 1);
    match &events[0] {
        StreamEvent::ToolCalls(calls) => {
            assert_eq!(calls.len(), 1);
            assert_eq!(calls[0].id, "call_1");
            assert_eq!(calls[0].call_type, "function");
            assert_eq!(calls[0].function.name, "lookup");
            assert_eq!(calls[0].function.arguments, "{\"a\":1}");
        }
        other => panic!("unexpected event: {:?}", event_kind(other)),
    }
}

fn event_kind(e: &StreamEvent) -> &'static str {
    match e {
        StreamEvent::Content(_) => "content",
        StreamEvent::Reasoning(_) => "reasoning",
        StreamEvent::ToolCalls(_) => "tool_calls",
        StreamEvent::Done => "done",
        StreamEvent::Stopped => "stopped",
    }
}

#[test]
fn missing_fields_default_on_flush() {
    let mut acc = ToolCallAccumulator::new();
    let (_, _) = sse::process_chunk(
        &mut acc,
        &chunk(delta(None, None, Some(vec![args_fragment(2, "{}")])), None),
    );
    let (events, _) = sse::process_chunk(&mut acc, &chunk(delta(None, None, None), Some("tool_calls")));
    match &events[0] {
        StreamEvent::ToolCalls(calls) => {
            assert_eq!(calls[0].id, "");
            assert_eq!(calls[0].call_type, "function");
            assert_eq!(calls[0].function.name, "");
            assert_eq!(calls[0].function.arguments, "{}");
        }
        other => panic!("unexpected event: {:?}", event_kind(other)),
    }
}

#[test]
fn accumulator_never_leaks_across_flushes() {
    let mut acc = ToolCallAccumulator::new();
    let (_, _) = sse::process_chunk(
        &mut acc,
        &chunk(delta(None, None, Some(vec![args_fragment(0, "{\"x\":1}")])), None),
    );
    let (events, _) = sse::process_chunk(&mut acc, &chunk(delta(None, None, None), Some("tool_calls")));
    assert_eq!(events.len(), 1);
    assert!(acc.is_empty());
    // a second flush without new fragments emits nothing
    let (events, terminal) =
        sse::process_chunk(&mut acc, &chunk(delta(None, None, None), Some("tool_calls")));
    assert_eq!(events.len(), 0);
    assert!(!terminal);
}

#[test]
fn content_and_reasoning_are_independent_tokens() {
    let mut acc = ToolCallAccumulator::new();
    let (events, terminal) =
        sse::process_chunk(&mut acc, &chunk(delta(Some("hi"), Some("because"), None), None));
    assert!(!terminal);
    assert_eq!(events.len(), 2);
    match &events[0] {
        StreamEvent::Content(c) => assert_eq!(c, "hi"),
        other => panic!("unexpected event: {:?}", event_kind(other)),
    }
    match &events[1] {
        StreamEvent::Reasoning(r) => assert_eq!(r, "because"),
        other => panic!("unexpected event: {:?}", event_kind(other)),
    }
}

#[test]
fn non_tool_finish_is_terminal() {
    let mut acc = ToolCallAccumulator::new();
    let (events, terminal) = sse::process_chunk(&mut acc, &chunk(delta(None, None, None), Some("stop")));
    assert!(terminal);
    assert_eq!(events.len(), 1);
    assert!(matches!(events[0], StreamEvent::Done));
}

#[test]
fn decode_sse_framing() {
    let line: Vec<char> = "data: {\"x\":1}\r".chars().collect();
    match sse::decode_sse_line(&line) {
        SseLine::Payload(p) => assert_eq!(p, "{\"x\":1}"),
        _ => panic!("expected a payload"),
    }
    let done: Vec<char> = "data: [DONE]".chars().collect();
    assert!(matches!(sse::decode_sse_line(&done), SseLine::Done));
    let other: Vec<char> = ": keep-alive".chars().collect();
    assert!(matches!(sse::decode_sse_line(&other), SseLine::Ignored));
    let blank: Vec<char> = "   ".chars().collect();
    assert!(matches!(sse::decode_sse_line(&blank), SseLine::Ignored));
}

#[test]
fn decoder_handles_arbitrary_chunk_boundaries() {
    let mut dec = SseDecoder::new();
    let (events, terminal) = dec.feed("data: {\"id\":\"c\",\"choices\":[{\"delta\":{\"content\":\"he");
    assert!(events.is_empty());
    assert!(!terminal);
    let (events, terminal) = dec.feed("llo\"}}]}\n");
    assert!(!terminal);
    assert_eq!(events.len(), 1);
    match &events[0] {
        StreamEvent::Content(c) => assert_eq!(c, "hello"),
        other => panic!("unexpected event: {:?}", event_kind(other)),
    }
}

#[test]
fn tool_call_deltas_across_sse_chunks() {
    let mut dec = SseDecoder::new();
    let (_, _) = dec.feed("data: {\"id\":\"c\",\"choices\":[{\"delta\":{\"tool_calls\":[{\"index\":0,\"id\":\"call_9\",\"type\":\"function\",\"function\":{\"name\":\"q\",\"arguments\":\"{\\\"a\\\":\"}}]}}]}\n");
    let (_, _) = dec.feed("data: {\"id\":\"c\",\"choices\":[{\"delta\":{\"tool_calls\":[{\"index\":0,\"function\":{\"arguments\":\"1}\"}}]}}]}\n");
    let (events, terminal) = dec.feed("data: {\"id\":\"c\",\"choices\":[{\"delta\":{},\"finish_reason\":\"tool_calls\"}]}\n");
    assert!(!terminal);
    assert_eq!(events.len(), 1);
    match &events[0] {
        StreamEvent::ToolCalls(calls) => {
            assert_eq!(calls.len(), 1);
            assert_eq!(calls[0].id, "call_9");
            assert_eq!(calls[0].function.name, "q");
            assert_eq!(calls[0].function.arguments, "{\"a\":1}");
        }
        other => panic!("unexpected event: {:?}", event_kind(other)),
    }
}

#[test]
fn done_sentinel_emits_one_terminal_event() {
    let mut dec = SseDecoder::new();
    let (events, terminal) = dec.feed("data: {\"id\":\"c\",\"choices\":[{\"delta\":{\"content\":\"x\"}}]}\ndata: [DONE]\ndata: {\"id\":\"c2\",\"choices\":[]}\n");
    assert!(terminal);
    let done_count = events.iter().filter(|e| matches!(e, StreamEvent::Done)).count();
    assert_eq!(done_count, 1);
    assert!(matches!(events.last(), Some(StreamEvent::Done)));
}

#[test]
fn sentinel_as_first_line_yields_exactly_one_event() {
    let mut dec = SseDecoder::new();
    let (events, terminal) = dec.feed("data: [DONE]\ndata: whatever comes later");
    assert!(terminal);
    assert_eq!(events.len(), 1);
    assert!(matches!(events[0], StreamEvent::Done));
    // the text after the sentinel's line stayed buffered, so a later [DONE]
    // line still decodes on its own
    let mut dec = SseDecoder::new();
    let (_, terminal) = dec.feed("data: [DO");
    assert!(!terminal);
    let (events, terminal) = dec.feed("NE]\n");
    assert!(terminal);
    assert_eq!(events.len(), 1);
}

#[test]
fn done_removes_stream_and_stop_reports_not_found() {
    let mut streams: Registry<u64> = Registry::new();
    let id = "evt-1".to_string();
    streams.insert(id.clone(), 11);
    // the stream finished: its entry goes exactly once
    let h = sse::finish_stream(&mut streams, &id);
    assert_eq!(h, Some(11));
    // stopping afterwards reports "not found" and corrupts nothing
    let r = sse::stop_stream(&mut streams, &id);
    assert_eq!(r, Err("no stream is registered under this event id".to_string()));
    assert!(!streams.contains(&id));
}

#[test]
fn stop_stream_aborts_live_stream() {
    let mut streams: Registry<u64> = Registry::new();
    streams.insert("evt-2".to_string(), 5);
    let r = sse::stop_stream(&mut streams, &"evt-2".to_string());
    assert_eq!(r, Ok(5));
    assert!(!streams.contains(&"evt-2".to_string()));
}

#[test]
fn malformed_payloads_are_skipped() {
    let mut dec = SseDecoder::new();
    let (events, terminal) = dec.feed("data: not json at all\ndata: {\"id\":\"c\",\"choices\":[{\"delta\":{\"content\":\"ok\"}}]}\n");
    assert!(!terminal);
    assert_eq!(events.len(), 1);
    match &events[0] {
        StreamEvent::Content(c) => assert_eq!(c, "ok"),
        other => panic!("unexpected event: {:?}", event_kind(other)),
    }
}

#[test]
fn chunk_walker_reads_wire_shape() {
    let doc: serde_json::Value = serde_json::from_str(
        "{\"id\":\"abc\",\"created\":7,\"choices\":[{\"index\":0,\"delta\":{\"role\":\"assistant\",\"content\":\"t\",\"reasoning\":\"r\"},\"finish_reason\":\"stop\"}]}",
    )
    .unwrap();
    let chunk = sse::chunk_of_json(&doc);
    assert_eq!(chunk.id, "abc");
    assert_eq!(chunk.created, Some(7));
    assert_eq!(chunk.choices.len(), 1);
    let choice = &chunk.choices[0];
    assert_eq!(choice.finish_reason.as_deref(), Some("stop"));
    assert_eq!(choice.delta.role.as_deref(), Some("assistant"));
    assert_eq!(choice.delta.content.as_deref(), Some("t"));
    assert_eq!(choice.delta.reasoning.as_deref(), Some("r"));
}
