use ai_write_novel::agent::{chat_flow, select_agent, selection_note_text, AgentState, AgentType, ChatFlow};
use ai_write_novel::writing::{ChapterDraft, SyncOutcome};
use ai_write_novel::coordinate::{
    coordinator_instruction, handle_coordinate_response, routing_note_text, CoordinatorReply,
};
use ai_write_novel::instructions::COORDINATOR_SYSTEM_PROMPT;
use ai_write_novel::gemini::{GeminiContent, GeminiPart};
use ai_write_novel::router::{
    classify_reply, has_reversed_braces, intent_json, intent_to_agent, AgentType as RouterAgent,
};

fn only_text(c: &GeminiContent) -> &str {
    assert_eq!(c.parts.len(), 1);
    match &c.parts[0] {
        GeminiPart::Text { text } => text.as_str(),
        _ => panic!("expected a text part"),
    }
}

#[test]
fn agent_names_and_descriptions() {
    assert_eq!(AgentType::Chat.as_str(), "chat");
    assert_eq!(AgentType::Ideation.as_str(), "ideation");
    assert_eq!(AgentType::Writing.as_str(), "writing");
    assert_eq!(AgentType::General.as_str(), "general");
    assert_eq!(AgentType::Chat.description(), "Chat Agent (Trò chuyện & Tìm kiếm)");
    assert_eq!(AgentType::Ideation.description(), "Ideation Agent (Lên ý tưởng)");
    assert_eq!(AgentType::Writing.description(), "Writing Agent (Sáng tác & Chỉnh sửa)");
    assert_eq!(AgentType::General.description(), "General Agent (Xử lý tác vụ tổng hợp)");
}

#[test]
fn agent_selected_case_insensitively() {
    assert_eq!(select_agent("CHAT"), AgentType::Chat);
    assert_eq!(select_agent("Ide"), AgentType::Ideation);
    assert_eq!(select_agent("ideation"), AgentType::Ideation);
    assert_eq!(select_agent("Writting"), AgentType::Writing);
    assert_eq!(select_agent("WRITING"), AgentType::Writing);
    assert_eq!(select_agent("anything"), AgentType::General);
    assert_eq!(select_agent(""), AgentType::General);
}

#[test]
fn chat_flow_per_agent() {
    match chat_flow(AgentType::Chat) {
        ChatFlow::AgentLoop { step, max_local_loops } => {
            assert_eq!(step, "chatting");
            assert_eq!(max_local_loops, 3);
        }
        ChatFlow::WriteThenSync => panic!("chat runs one loop"),
    }
    match chat_flow(AgentType::Ideation) {
        ChatFlow::AgentLoop { step, max_local_loops } => {
            assert_eq!(step, "thinking");
            assert_eq!(max_local_loops, 5);
        }
        ChatFlow::WriteThenSync => panic!("ideation runs one loop"),
    }
    assert!(matches!(chat_flow(AgentType::Writing), ChatFlow::WriteThenSync));
    assert!(matches!(chat_flow(AgentType::General), ChatFlow::WriteThenSync));
}

#[test]
fn selection_note_names_the_agent() {
    assert_eq!(
        selection_note_text(AgentType::Writing),
        "=> Đã chọn Agent chuyên biệt: Writing Agent (Sáng tác & Chỉnh sửa)\n"
    );
}

#[test]
fn new_agent_state_is_empty() {
    let s = AgentState::new(
        "/story".to_string(),
        "key".to_string(),
        "gemma-4-31b-it".to_string(),
        AgentType::Chat,
        "kb".to_string(),
    );
    assert_eq!(s.root_path, "/story");
    assert_eq!(s.api_key, "key");
    assert_eq!(s.model, "gemma-4-31b-it");
    assert_eq!(s.agent_type, AgentType::Chat);
    assert_eq!(s.selected_files_content, "kb");
    assert!(s.system_instruction.is_none());
    assert!(s.contents.is_empty());
    assert_eq!(s.loop_count, 0);
    assert_eq!(s.last_chapter_content, "");
    assert_eq!(s.last_saved_file, "");
    assert_eq!(s.last_word_count, 0);
    assert_eq!(s.last_wiki_updates_count, 0);
}

#[test]
fn router_intents() {
    assert_eq!(intent_to_agent(Some("chat")), RouterAgent::Chat);
    assert_eq!(intent_to_agent(Some("ideation")), RouterAgent::Ideation);
    assert_eq!(intent_to_agent(Some("writing")), RouterAgent::Writing);
    assert_eq!(intent_to_agent(Some("Chat")), RouterAgent::General);
    assert_eq!(intent_to_agent(None), RouterAgent::General);
    assert_eq!(RouterAgent::Writing.as_str(), "writing");
}

#[test]
fn router_cuts_the_json_answer() {
    let text = "```json\n{\"intent\": \"chat\"}\n```";
    assert!(!has_reversed_braces(text));
    assert_eq!(intent_json(text), "{\"intent\": \"chat\"}");
    assert_eq!(intent_json("no json here"), "no json here");
    assert_eq!(intent_json("{ only open"), "{ only open");
    assert!(has_reversed_braces("} then {"));
    assert!(!has_reversed_braces("x}{y"));
    assert_eq!(intent_json("x}{y"), "");
}

#[test]
fn coordinator_answers_directly() {
    let mut contents: Vec<GeminiContent> = Vec::new();
    let reply = Some(CoordinatorReply {
        explanation: Some("Xin chào!".to_string()),
        agent: Some("null".to_string()),
    });
    assert_eq!(handle_coordinate_response(&mut contents, &reply), None);
    assert_eq!(contents.len(), 1);
    assert_eq!(contents[0].role, "model");
    assert_eq!(only_text(&contents[0]), "Xin chào!");

    let reply = Some(CoordinatorReply { explanation: None, agent: None });
    assert_eq!(handle_coordinate_response(&mut contents, &reply), None);
    assert_eq!(contents.len(), 2);
    assert_eq!(only_text(&contents[1]), "");
}

#[test]
fn coordinator_routes_to_an_agent() {
    let mut contents: Vec<GeminiContent> = Vec::new();
    let reply = Some(CoordinatorReply {
        explanation: Some("viết chương".to_string()),
        agent: Some("writing".to_string()),
    });
    assert_eq!(handle_coordinate_response(&mut contents, &reply), Some(AgentType::Writing));
    let reply = Some(CoordinatorReply { explanation: None, agent: Some("other".to_string()) });
    assert_eq!(handle_coordinate_response(&mut contents, &reply), Some(AgentType::General));
    assert_eq!(handle_coordinate_response(&mut contents, &None), None);
    assert!(contents.is_empty());
}

#[test]
fn routing_note_format() {
    assert_eq!(
        routing_note_text("Cần viết", AgentType::Chat),
        "=> Cần viết\n=> Đã điều phối tới: Chat Agent (Trò chuyện & Tìm kiếm)\n"
    );
}

#[test]
fn coordinator_system_instruction() {
    let c = coordinator_instruction();
    assert_eq!(c.role, "system");
    assert_eq!(only_text(&c), COORDINATOR_SYSTEM_PROMPT);
    assert!(COORDINATOR_SYSTEM_PROMPT.contains("BẠN LÀ AI COORDINATOR"));
}

#[test]
fn agent_labels_follow_their_names() {
    let all = [AgentType::Chat, AgentType::Ideation, AgentType::Writing, AgentType::General];
    for t in all {
        let name = t.as_str();
        let mut cap = name[..1].to_uppercase();
        cap.push_str(&name[1..]);
        assert!(t.description().starts_with(&format!("{cap} Agent (")));
        assert!(t.description().ends_with(')'));
        for u in all {
            if t != u {
                assert_ne!(t.description(), u.description());
            }
        }
    }
}

#[test]
fn drafts_and_syncs_are_recorded() {
    let mut s = AgentState::new("/r".to_string(), "k".to_string(), "m".to_string(), AgentType::Writing, String::new());
    s.record_draft(ChapterDraft { content: "a b c".to_string(), file: "chapters/c1.md".to_string(), word_count: 3 });
    assert_eq!(s.last_chapter_content, "a b c");
    assert_eq!(s.last_saved_file, "chapters/c1.md");
    assert_eq!(s.last_word_count, 3);
    assert_eq!(s.root_path, "/r");
    s.record_sync(&SyncOutcome { summary: String::new(), wiki_updates: Some(4), actions: None });
    assert_eq!(s.last_wiki_updates_count, 4);
    s.record_sync(&SyncOutcome { summary: String::new(), wiki_updates: None, actions: None });
    assert_eq!(s.last_wiki_updates_count, 4);
    assert_eq!(s.last_word_count, 3);
}

#[test]
fn classifier_answers() {
    assert_eq!(classify_reply("{}", &Ok(Some("writing".to_string()))), Ok(RouterAgent::Writing));
    assert_eq!(classify_reply("{}", &Ok(Some("other".to_string()))), Ok(RouterAgent::General));
    assert_eq!(classify_reply("{}", &Ok(None)), Ok(RouterAgent::General));
    assert_eq!(
        classify_reply("hello", &Err("expected value".to_string())),
        Err("Lỗi parse kết quả router: expected value | Text: hello".to_string())
    );
}
