use ai_write_novel::gemini::{FunctionCallData, GeminiPart};
use ai_write_novel::stream::{
    absorb_candidate_part, sse_payload, stream_event_name, stream_url, CandidatePart, SseBuffer,
};

fn text_part(t: &str) -> CandidatePart {
    CandidatePart { text: Some(t.to_string()), function_call: None, thought: None }
}

#[test]
fn buffer_yields_complete_trimmed_lines() {
    let mut b = SseBuffer::new();
    b.push_chunk("data: {\"a\"");
    assert_eq!(b.next_line(), None);
    b.push_chunk(":1}\r\n\ndata: [DONE]\n  tail");
    assert_eq!(b.next_line(), Some("data: {\"a\":1}".to_string()));
    assert_eq!(b.next_line(), Some("".to_string()));
    assert_eq!(b.next_line(), Some("data: [DONE]".to_string()));
    assert_eq!(b.next_line(), None);
    assert_eq!(b.buffer, "  tail");
}

#[test]
fn event_payloads() {
    assert_eq!(sse_payload("data: {\"x\":1}"), Some("{\"x\":1}".to_string()));
    assert_eq!(sse_payload("data:   {\"x\":1}  "), Some("{\"x\":1}".to_string()));
    assert_eq!(sse_payload("data: [DONE]"), None);
    assert_eq!(sse_payload("event: ping"), None);
    assert_eq!(sse_payload("data:{}"), None);
    assert_eq!(sse_payload(""), None);
}

#[test]
fn texts_are_merged_and_calls_appended() {
    let mut acc: Vec<GeminiPart> = Vec::new();
    absorb_candidate_part(&mut acc, text_part("Xin "));
    absorb_candidate_part(&mut acc, text_part("chào"));
    assert_eq!(acc.len(), 1);
    absorb_candidate_part(
        &mut acc,
        CandidatePart {
            text: None,
            function_call: Some(FunctionCallData { name: "read_file".to_string(), args: "{}".to_string() }),
            thought: None,
        },
    );
    absorb_candidate_part(&mut acc, text_part("!"));
    absorb_candidate_part(&mut acc, CandidatePart { text: None, function_call: None, thought: Some(true) });
    assert_eq!(acc.len(), 3);
    match &acc[0] {
        GeminiPart::Text { text } => assert_eq!(text, "Xin chào"),
        _ => panic!("expected text"),
    }
    match &acc[1] {
        GeminiPart::FunctionCall { function_call } => assert_eq!(function_call.name, "read_file"),
        _ => panic!("expected a call"),
    }
    match &acc[2] {
        GeminiPart::Text { text } => assert_eq!(text, "!"),
        _ => panic!("expected text"),
    }
}

#[test]
fn event_names() {
    assert_eq!(stream_event_name("ai-chat-stream", Some(true)), "ai-chat-stream-thought");
    assert_eq!(stream_event_name("ai-chat-stream", Some(false)), "ai-chat-stream");
    assert_eq!(stream_event_name("ai-chat-stream", None), "ai-chat-stream");
}

#[test]
fn endpoint_address() {
    assert_eq!(
        stream_url("gemma-4-31b-it", "KEY"),
        "https://generativelanguage.googleapis.com/v1beta/models/gemma-4-31b-it:streamGenerateContent?key=KEY&alt=sse"
    );
}

fn lines_by_chunks(chunks: &[&str]) -> (Vec<String>, String) {
    let mut b = SseBuffer::new();
    let mut lines = Vec::new();
    for c in chunks {
        b.push_chunk(c);
        lines.extend(b.take_lines());
    }
    (lines, b.buffer)
}

#[test]
fn taking_all_lines() {
    let mut b = SseBuffer::new();
    b.push_chunk(" a \nb\r\n\nrest");
    assert_eq!(b.take_lines(), vec!["a", "b", ""]);
    assert_eq!(b.buffer, "rest");
    assert!(b.take_lines().is_empty());
    assert_eq!(b.buffer, "rest");
}

#[test]
fn chunking_does_not_change_the_lines() {
    let whole = lines_by_chunks(&["data: {\"a\":1}\n\ndata: [DONE]\nta", "il"]);
    let split = lines_by_chunks(&["da", "ta: {\"a\"", ":1}\n", "\nd", "ata: [DONE]\n", "tail"]);
    let one = lines_by_chunks(&["data: {\"a\":1}\n\ndata: [DONE]\ntail"]);
    assert_eq!(whole, one);
    assert_eq!(split, one);
    assert_eq!(one.0, vec!["data: {\"a\":1}", "", "data: [DONE]"]);
    assert_eq!(one.1, "tail");
}

#[test]
fn absorbing_many_parts() {
    let parts = vec![
        text_part("a"),
        text_part("b"),
        CandidatePart {
            text: Some("c".to_string()),
            function_call: Some(FunctionCallData { name: "f".to_string(), args: "{}".to_string() }),
            thought: None,
        },
        text_part("d"),
    ];
    let mut acc: Vec<GeminiPart> = Vec::new();
    for p in parts {
        absorb_candidate_part(&mut acc, p);
    }
    assert_eq!(acc.len(), 3);
    assert!(matches!(&acc[0], GeminiPart::Text { text } if text == "abc"));
    assert!(matches!(&acc[1], GeminiPart::FunctionCall { function_call } if function_call.name == "f"));
    assert!(matches!(&acc[2], GeminiPart::Text { text } if text == "d"));
}
