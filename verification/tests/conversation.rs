use ai_write_novel::agent::AgentType;
use ai_write_novel::cancellation::CancellationState;
use ai_write_novel::conversation::{
    build_system_instruction, knowledge_context, plain_write_contents, prepare_conversation_contents,
    story_chat_contents, write_context, write_contents, writer_role, HistoryMessage,
};
use ai_write_novel::gemini::{GeminiContent, GeminiPart};
use ai_write_novel::instructions::{
    CHAT_AGENT_INSTRUCTIONS, NAMING_RULES, WIKI_GRAPH_RULES, WRITING_AGENT_INSTRUCTIONS,
};

fn text_of(c: &GeminiContent) -> &str {
    assert_eq!(c.parts.len(), 1);
    match &c.parts[0] {
        GeminiPart::Text { text } => text.as_str(),
        _ => panic!("expected text"),
    }
}

fn msg(role: Option<&str>, content: Option<&str>) -> HistoryMessage {
    HistoryMessage { role: role.map(String::from), content: content.map(String::from) }
}

const HINT: &str = "HÀNH ĐỘNG: Nếu cần thông tin cốt truyện, hãy đọc Wiki hoặc Chương cũ. Nếu cần thông tin thực tế, hãy dùng Google Search.";

#[test]
fn cancellation_flag() {
    let s = CancellationState::default();
    assert!(!s.is_cancelled());
    s.cancel();
    assert!(s.is_cancelled());
    s.reset();
    assert!(!s.is_cancelled());
    let t = CancellationState::new();
    assert!(!t.is_cancelled());
}

#[test]
fn system_instruction_without_context() {
    let c = build_system_instruction(AgentType::Chat, None, None, None, "");
    assert_eq!(c.role, "system");
    let expected = format!("{CHAT_AGENT_INSTRUCTIONS}\n\n{NAMING_RULES}\n\n{WIKI_GRAPH_RULES}\n\n{HINT}");
    assert_eq!(text_of(&c), expected);
}

#[test]
fn system_instruction_with_context() {
    let c = build_system_instruction(
        AgentType::Writing,
        Some("  nhớ điều này \n"),
        Some("📁 Chương (Chương)\n"),
        Some("--- DANH SÁCH THỰC THỂ WIKI ---\n"),
        "tệp",
    );
    let expected = format!(
        "{WRITING_AGENT_INSTRUCTIONS}\n\n{NAMING_RULES}\n\n{WIKI_GRAPH_RULES}\n\n{HINT}\
         \n\n--- PROJECT MEMORY (memory.md) ---\nnhớ điều này\n--- END OF PROJECT MEMORY ---\n\
         \n\n--- PROJECT DIRECTORY STRUCTURE ---\n📁 Chương (Chương)\n\n--- END OF DIRECTORY STRUCTURE ---\n\
         \n\n--- DANH SÁCH THỰC THỂ WIKI ---\n\n--- END OF WIKI ---\n\
         \n\n--- SELECTED KNOWLEDGE FILES ---\nYou MUST prioritize using the following information from the files selected by the user to answer the query:\ntệp"
    );
    assert_eq!(text_of(&c), expected);
}

#[test]
fn blank_memory_is_left_out() {
    let with_blank = build_system_instruction(AgentType::General, Some("   \n"), None, None, "");
    let without = build_system_instruction(AgentType::General, None, None, None, "");
    assert_eq!(text_of(&with_blank), text_of(&without));
}

#[test]
fn conversation_keeps_six_newest_and_adds_the_message() {
    let history: Vec<HistoryMessage> = (0..8)
        .map(|i| msg(Some(if i % 2 == 0 { "user" } else { "assistant" }), Some(&format!("m{i}"))))
        .collect();
    let mut contents: Vec<GeminiContent> = Vec::new();
    prepare_conversation_contents(&mut contents, "mới".to_string(), &history);
    assert_eq!(contents.len(), 7);
    assert_eq!(text_of(&contents[0]), "m2");
    assert_eq!(contents[0].role, "user");
    assert_eq!(contents[1].role, "model");
    assert_eq!(text_of(&contents[5]), "m7");
    assert_eq!(contents[6].role, "user");
    assert_eq!(text_of(&contents[6]), "mới");
}

#[test]
fn conversation_does_not_repeat_the_last_message() {
    let history = vec![msg(None, Some("xin chào")), msg(Some("user"), Some("hỏi"))];
    let mut contents: Vec<GeminiContent> = Vec::new();
    prepare_conversation_contents(&mut contents, "hỏi".to_string(), &history);
    assert_eq!(contents.len(), 2);
    assert_eq!(contents[0].role, "user");
    assert_eq!(text_of(&contents[0]), "xin chào");
    assert_eq!(text_of(&contents[1]), "hỏi");

    let history = vec![msg(Some("assistant"), None)];
    let mut contents: Vec<GeminiContent> = Vec::new();
    prepare_conversation_contents(&mut contents, "".to_string(), &history);
    assert_eq!(contents.len(), 2);
    assert_eq!(contents[0].role, "model");
    assert_eq!(text_of(&contents[0]), "");
}

#[test]
fn knowledge_blocks() {
    let files = vec![("a.md".to_string(), "A".to_string()), ("b.md".to_string(), "B".to_string())];
    assert_eq!(
        knowledge_context(&files),
        "\n\n--- KNOWLEDGE FILE: a.md ---\nA\n--- END OF FILE ---\n\n\n--- KNOWLEDGE FILE: b.md ---\nB\n--- END OF FILE ---\n"
    );
    assert_eq!(knowledge_context(&vec![]), "");
}

#[test]
fn story_chat_messages() {
    let history = vec![msg(Some("assistant"), Some("trước"))];
    let r = story_chat_contents("KB", &history, "câu hỏi".to_string());
    assert_eq!(r.len(), 4);
    assert_eq!(r[0].role, "user");
    assert_eq!(
        text_of(&r[0]),
        "Bạn là một trợ lý sáng tác chuyên nghiệp. Hãy sử dụng KIẾN THỨC VỀ TRUYỆN dưới đây để trả lời.\n\nKB\n"
    );
    assert_eq!(r[1].role, "model");
    assert_eq!(text_of(&r[1]), "Tôi đã nắm được toàn bộ kiến thức về truyện. Hãy hỏi tôi bất cứ điều gì!");
    assert_eq!(r[2].role, "model");
    assert_eq!(text_of(&r[2]), "trước");
    assert_eq!(text_of(&r[3]), "câu hỏi");
}

#[test]
fn writer_roles_by_folder() {
    assert!(writer_role("Chương/Chương 1.md").starts_with("Bạn là một NHÀ VĂN CHUYÊN NGHIỆP."));
    assert!(writer_role("Nhân vật\\An.md").starts_with("Bạn là một CHUYÊN GIA THIẾT KẾ NHÂN VẬT."));
    assert!(writer_role("Cốt truyện/x.md").starts_with("Bạn là một CHUYÊN GIA LÊN KẾ HOẠCH CỐT TRUYỆN."));
    assert!(writer_role("Bối cảnh/x.md").starts_with("Bạn là một CHUYÊN GIA XÂY DỰNG THẾ GIỚI"));
    assert_eq!(
        writer_role("Chương.md"),
        "Bạn là một TRỢ LÝ SÁNG TÁC ĐA NĂNG. Nhiệm vụ của bạn là HỖ TRỢ XỬ LÝ NỘI DUNG theo chỉ dẫn của người dùng."
    );
}

#[test]
fn writer_context() {
    assert_eq!(
        write_context("KB", "", "a.md", "nội dung"),
        "KB\n# NỘI DUNG HIỆN TẠI (a.md)\nnội dung\n"
    );
    assert_eq!(
        write_context("KB", "## c1\nx\n\n", "a.md", ""),
        "KB\n# TÓM TẮT CÁC CHƯƠNG TRƯỚC\n## c1\nx\n\n\n\n# NỘI DUNG HIỆN TẠI (a.md)\n\n"
    );
}

#[test]
fn writer_messages() {
    let r = write_contents("Ghi chú/a.md", "CTX", "viết tiếp", Some("đoạn"));
    assert_eq!(r.len(), 3);
    assert_eq!(
        text_of(&r[0]),
        "Bạn là một TRỢ LÝ SÁNG TÁC ĐA NĂNG. Nhiệm vụ của bạn là HỖ TRỢ XỬ LÝ NỘI DUNG theo chỉ dẫn của người dùng.\nHãy thực hiện dựa trên các kiến thức và chỉ dẫn dưới đây. Tuyệt đối bám sát các Quy tắc, Nhân vật và thông tin bối cảnh đã cung cấp.\n\nCTX\n"
    );
    assert_eq!(r[1].role, "model");
    assert_eq!(text_of(&r[1]), "Tôi đã nắm được toàn bộ ngữ cảnh. Sẵn sàng viết.");
    assert_eq!(
        text_of(&r[2]),
        "Phần văn bản được chọn: \"đoạn\"\n\nChỉ dẫn: viết tiếp\n\nChỉ trả về nội dung mới, không giải thích."
    );

    let r = plain_write_contents("CTX", "tiếp", None);
    assert_eq!(
        text_of(&r[0]),
        "Bạn là nhà văn chuyên nghiệp. Hãy viết tiếp hoặc sửa đổi dựa trên các kiến thức và chỉ dẫn sau.\nTuyệt đối bám sát các Quy tắc, Nhân vật và thông tin bối cảnh đã cung cấp.\n\nCTX\n"
    );
    assert_eq!(text_of(&r[2]), "Chỉ dẫn viết tiếp: tiếp\n\nChỉ trả về nội dung mới, không giải thích.");
}
