use ai_write_novel::agent_loop::{
    begin_round, process_model_parts, prune_history, record_model_reply, record_tool_responses,
    shrink_answer,
};
use ai_write_novel::gemini::{
    FunctionCallData, FunctionResponseData, GeminiContent, GeminiPart, ToolResponse,
};

const NOTICE: &str =
    "Content truncated to save tokens (information already processed in previous steps).";

fn text_msg(role: &str, text: &str) -> GeminiContent {
    GeminiContent { role: role.to_string(), parts: vec![GeminiPart::Text { text: text.to_string() }] }
}

fn answer_msg(result: &str) -> GeminiContent {
    GeminiContent {
        role: "function".to_string(),
        parts: vec![GeminiPart::FunctionResponse {
            function_response: FunctionResponseData {
                name: "read_file".to_string(),
                response: ToolResponse::Result(result.to_string()),
            },
        }],
    }
}

fn answer_of(c: &GeminiContent) -> (&str, bool) {
    match &c.parts[0] {
        GeminiPart::FunctionResponse { function_response } => match &function_response.response {
            ToolResponse::Result(t) => (t.as_str(), false),
            ToolResponse::Error(t) => (t.as_str(), true),
        },
        _ => panic!("expected a tool answer"),
    }
}

fn text_of(c: &GeminiContent) -> &str {
    match &c.parts[0] {
        GeminiPart::Text { text } => text.as_str(),
        _ => panic!("expected text"),
    }
}

fn call(name: &str) -> GeminiPart {
    GeminiPart::FunctionCall {
        function_call: FunctionCallData { name: name.to_string(), args: "{}".to_string() },
    }
}

#[test]
fn short_history_is_not_pruned() {
    let big = "x".repeat(3000);
    let mut c = vec![text_msg("user", "a"), answer_msg(&big), text_msg("model", "b")];
    prune_history(&mut c);
    assert_eq!(c.len(), 3);
    assert_eq!(answer_of(&c[1]).0, big);

    let mut c: Vec<GeminiContent> = (0..6).map(|i| text_msg("user", &i.to_string())).collect();
    prune_history(&mut c);
    assert_eq!(c.len(), 6);
}

#[test]
fn long_history_keeps_first_and_five_newest() {
    let big = "x".repeat(2000);
    let mut c = vec![
        text_msg("user", "first"),
        text_msg("model", "m1"),
        answer_msg(&big),
        answer_msg(&big),
        text_msg("model", "m4"),
        answer_msg("small"),
        text_msg("model", "m6"),
        answer_msg(&big),
    ];
    prune_history(&mut c);
    assert_eq!(c.len(), 6);
    assert_eq!(text_of(&c[0]), "first");
    // c[1] is the old message 3: a large answer, not the newest, so truncated.
    assert_eq!(answer_of(&c[1]), (NOTICE, false));
    assert_eq!(text_of(&c[2]), "m4");
    assert_eq!(answer_of(&c[3]), ("small", false));
    assert_eq!(text_of(&c[4]), "m6");
    // The newest message is never touched.
    assert_eq!(answer_of(&c[5]).0, big);

    // Pruning a pruned history changes nothing.
    prune_history(&mut c);
    assert_eq!(c.len(), 6);
    assert_eq!(answer_of(&c[1]), (NOTICE, false));
    assert_eq!(answer_of(&c[5]).0, big);
}

#[test]
fn truncation_counts_the_json_text() {
    // 995 bytes of text are under the limit, but the JSON `{"result":"..."}` is over it.
    let near = "y".repeat(995);
    let exact = "z".repeat(987);
    let mut c = vec![
        text_msg("user", "first"),
        text_msg("model", "m1"),
        text_msg("model", "m2"),
        answer_msg(&near),
        answer_msg(&exact),
        text_msg("model", "m5"),
        text_msg("model", "m6"),
        text_msg("model", "m7"),
    ];
    prune_history(&mut c);
    assert_eq!(c.len(), 6);
    assert_eq!(answer_of(&c[1]), (NOTICE, false));
    // `{"result":"` + 987 bytes + `"}` is exactly 1000 bytes: kept.
    assert_eq!(answer_of(&c[2]).0, exact);
}

#[test]
fn error_answers_are_truncated_as_results() {
    let big = "e".repeat(1500);
    let mut err = answer_msg("");
    if let GeminiPart::FunctionResponse { function_response } = &mut err.parts[0] {
        function_response.response = ToolResponse::Error(big.clone());
    }
    let mut c = vec![
        text_msg("user", "first"),
        text_msg("model", "m1"),
        text_msg("model", "m2"),
        err,
        text_msg("model", "m4"),
        text_msg("model", "m5"),
        text_msg("model", "m6"),
        text_msg("model", "m7"),
    ];
    prune_history(&mut c);
    assert_eq!(answer_of(&c[1]), (NOTICE, false));
}

#[test]
fn model_parts_calls_and_done() {
    let parts = vec![
        GeminiPart::Text { text: "Đang làm".to_string() },
        call("read_file"),
        call("write_file"),
    ];
    let (calls, done) = process_model_parts(&parts);
    assert_eq!(calls.len(), 2);
    assert_eq!(calls[0].name, "read_file");
    assert_eq!(calls[1].name, "write_file");
    assert!(!done);

    let parts = vec![GeminiPart::Text { text: "xong: DONE_EXECUTION".to_string() }, call("a")];
    assert!(process_model_parts(&parts).1);
    let parts = vec![GeminiPart::Text { text: "Mục tiêu đã hoàn thành!".to_string() }];
    let (calls, done) = process_model_parts(&parts);
    assert!(calls.is_empty());
    assert!(done);
}

#[test]
fn round_budget() {
    let mut local = 0u32;
    let mut total = 0u32;
    let mut rounds = 0;
    while begin_round(&mut local, &mut total, 3) {
        rounds += 1;
    }
    assert_eq!(rounds, 3);
    assert_eq!(local, 4);
    assert_eq!(total, 4);

    let mut local = 0u32;
    let mut total = 18u32;
    let mut rounds = 0;
    while begin_round(&mut local, &mut total, 5) {
        rounds += 1;
    }
    assert_eq!(rounds, 2);
    assert_eq!(total, 21);

    let mut local = 0u32;
    let mut total = 20u32;
    assert!(!begin_round(&mut local, &mut total, 5));
    assert_eq!(total, 21);
    let mut local = 0u32;
    let mut total = 0u32;
    assert!(!begin_round(&mut local, &mut total, 0));
}

#[test]
fn model_reply_is_recorded() {
    let mut c = vec![text_msg("user", "hi")];
    let (calls, stop) = record_model_reply(&mut c, vec![GeminiPart::Text { text: "Chào".to_string() }]);
    assert!(calls.is_empty());
    assert!(stop);
    assert_eq!(c.len(), 2);
    assert_eq!(c[1].role, "model");
    assert_eq!(text_of(&c[1]), "Chào");

    let (calls, stop) = record_model_reply(&mut c, vec![call("list_directory")]);
    assert_eq!(calls.len(), 1);
    assert!(!stop);
}

#[test]
fn tool_answers_are_recorded_and_pruned_by_phase() {
    let big = "x".repeat(2000);
    let base: Vec<GeminiContent> = (0..7)
        .map(|i| if i == 3 { answer_msg(&big) } else { text_msg("model", &i.to_string()) })
        .collect();

    let mut thinking: Vec<GeminiContent> = base.iter().map(|m| m.duplicate()).collect();
    record_tool_responses(&mut thinking, vec![], "thinking");
    assert_eq!(thinking.len(), 8);
    assert_eq!(thinking[7].role, "function");

    let mut finalize: Vec<GeminiContent> = base.iter().map(|m| m.duplicate()).collect();
    record_tool_responses(&mut finalize, vec![], "finalize");
    assert_eq!(finalize.len(), 6);
    assert_eq!(answer_of(&finalize[1]), (NOTICE, false));
    assert_eq!(finalize[5].role, "function");
}

#[test]
fn answers_are_shrunk_by_json_bytes() {
    let answer = || FunctionResponseData {
        name: "read_file".to_string(),
        response: ToolResponse::Error("kept".to_string()),
    };
    let r = shrink_answer(answer(), &"a".repeat(1001));
    assert_eq!(r.name, "read_file");
    assert!(matches!(&r.response, ToolResponse::Result(t) if t == NOTICE));
    let r = shrink_answer(answer(), &"a".repeat(1000));
    assert!(matches!(&r.response, ToolResponse::Error(t) if t == "kept"));
    // 501 characters, 1002 bytes.
    let r = shrink_answer(answer(), &"é".repeat(501));
    assert!(matches!(&r.response, ToolResponse::Result(t) if t == NOTICE));
}

#[test]
fn escaping_counts_toward_the_limit() {
    // 494 quotes are 494 bytes, but 988 bytes once escaped: the JSON has 1001 bytes.
    let quotes = "\"".repeat(494);
    // 493 quotes give exactly 1000 bytes of JSON: kept.
    let fewer = "\"".repeat(493);
    // Each control character is written as six bytes (`\u0001`): 165 of them make 1003
    // bytes of JSON, though the text has 165.
    let controls = "\u{1}".repeat(165);
    let mut c = vec![
        text_msg("user", "first"),
        text_msg("model", "m1"),
        text_msg("model", "m2"),
        answer_msg(&quotes),
        answer_msg(&fewer),
        answer_msg(&controls),
        text_msg("model", "m6"),
        text_msg("model", "m7"),
    ];
    prune_history(&mut c);
    assert_eq!(answer_of(&c[1]), (NOTICE, false));
    assert_eq!(answer_of(&c[2]).0, fewer);
    assert_eq!(answer_of(&c[3]), (NOTICE, false));
    assert_eq!(controls.len(), 165);
}
