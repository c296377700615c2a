use ai_write_novel::gemini::{FunctionCallData, GeminiPart};
use ai_write_novel::text::{
    count_words, extract_json_block, join_strings, split_lines, trim_string,
    usize_to_decimal,
};
use ai_write_novel::writing::{
    analysis_from_block, chapter_from_block, ideation_from_block, AnalysisReply, IdeationReply,
    analysis_block, analyze_prompt_text, writing_completion_prompt, analysis_summary_text, bullet_list, chapter_draft, choose_project_summary, collect_text,
    final_report_text, finalize_feedback, get_full_text, ideation_summary_text,
    split_writing_reply, strip_code_fences, wiki_updates_count, written_chapter, ChapterReply,
    SyncReply, WritingReply,
};

fn s(x: &str) -> Option<String> {
    Some(x.to_string())
}

#[test]
fn reply_text_is_concatenated() {
    let parts = vec![
        GeminiPart::Text { text: "ab".to_string() },
        GeminiPart::FunctionCall {
            function_call: FunctionCallData { name: "x".to_string(), args: "{}".to_string() },
        },
        GeminiPart::Text { text: "cd".to_string() },
    ];
    assert_eq!(collect_text(&parts), "abcd");
    assert_eq!(get_full_text(&parts), Some("abcd".to_string()));
    assert_eq!(get_full_text(&vec![]), None);
    assert_eq!(get_full_text(&vec![GeminiPart::Text { text: String::new() }]), None);
}

#[test]
fn code_fences_are_stripped() {
    assert_eq!(strip_code_fences("a\n```json\n{}\n```\nb"), "a\nb\n");
    assert_eq!(strip_code_fences("  ```\nx"), "");
    assert_eq!(strip_code_fences(""), "");
}

#[test]
fn project_summary_choice() {
    assert_eq!(choose_project_summary("ignored", Some("  Tóm tắt  ")), "Tóm tắt");
    assert_eq!(choose_project_summary(" Văn bản\n```json\n{}\n``` ", Some("   ")), "Văn bản");
    assert_eq!(choose_project_summary("```\n{}\n```", None), "```\n{}\n```");
    assert_eq!(choose_project_summary("   ", None), "");
}

#[test]
fn wiki_update_count_saturates() {
    assert_eq!(wiki_updates_count(7), 7);
    assert_eq!(wiki_updates_count(u64::MAX) as u64, usize::MAX as u64);
}

#[test]
fn bullets() {
    assert_eq!(bullet_list(&vec![s("a"), None, s("c")]), "• a\n• -\n• c");
    assert_eq!(bullet_list(&vec![]), "");
}

#[test]
fn sync_feedback() {
    let reply = Some(SyncReply {
        project_summary: s(" Tiến độ "),
        wiki_updates_count: Some(3),
        actions_taken: Some(vec![s("Cập nhật An")]),
    });
    let out = finalize_feedback("toàn văn", &reply);
    assert_eq!(out.summary, "Tiến độ");
    assert_eq!(out.wiki_updates, Some(3));
    assert_eq!(out.actions, Some("• Cập nhật An".to_string()));

    let out = finalize_feedback("  Chỉ có chữ ", &None);
    assert_eq!(out.summary, "Chỉ có chữ");
    assert_eq!(out.wiki_updates, None);
    assert_eq!(out.actions, None);
}

#[test]
fn chapter_drafts() {
    let d = chapter_draft(&ChapterReply { chapter_content: s("Một hai  ba\nbốn"), suggested_filename: None });
    assert_eq!(d.content, "Một hai  ba\nbốn");
    assert_eq!(d.file, "chapters/Unnamed.md");
    assert_eq!(d.word_count, 4);
    let d = chapter_draft(&ChapterReply { chapter_content: None, suggested_filename: s("c.md") });
    assert_eq!(d.content, "");
    assert_eq!(d.file, "c.md");
    assert_eq!(d.word_count, 0);
}

#[test]
fn writing_reply_split() {
    assert_eq!(
        split_writing_reply("Đây: {\"a\": {}} xong"),
        Ok(("{\"a\": {}}".to_string(), "Đây:  xong".to_string()))
    );
    assert_eq!(
        split_writing_reply("không có"),
        Err("AI không trả về khối JSON hợp lệ. Nội dung gốc: không có".to_string())
    );
    assert_eq!(
        split_writing_reply("} {"),
        Err("AI không trả về khối JSON hợp lệ. Nội dung gốc: } {".to_string())
    );
}

#[test]
fn written_chapters() {
    let w = written_chapter(&WritingReply {
        chapter_content: s("a b"),
        suggested_filename: None,
        thought_process: None,
    })
    .unwrap();
    assert_eq!(w.content, "a b");
    assert_eq!(w.file, "chapters/Unsaved_Chapter.md");
    assert_eq!(w.thought, "Không có suy nghĩ.");
    assert_eq!(w.word_count, 2);
    let e = written_chapter(&WritingReply {
        chapter_content: None,
        suggested_filename: s("x"),
        thought_process: s("y"),
    });
    assert_eq!(e.err(), Some("AI không trả về chapter_content".to_string()));
}

#[test]
fn final_report_prompt() {
    assert_eq!(
        final_report_text("chapters/c1.md", 1234),
        "HỆ THỐNG NHẮC NHỞ: Bạn đã hoàn thành việc sáng tác chương truyện mới, lưu thành công vào file 'chapters/c1.md' (khoảng 1234 từ), và đã đồng bộ hóa đầy đủ thực thể mới vào Wiki. Hãy viết một báo cáo ngắn gọn, thân thiện bằng Tiếng Việt để thông báo cho tác giả và mời họ tiếp tục sáng tác."
    );
    assert!(final_report_text("", 0).contains("(khoảng 0 từ)"));
}

#[test]
fn ideation_and_analysis_summaries() {
    let ideas = Some(vec![(s("Rồng"), s("Một con rồng")), (None, None)]);
    assert_eq!(
        ideation_summary_text(&s("nghĩ"), &ideas, &s("chọn 1")),
        "\n💡 **Phân tích**: nghĩ\n\n### Rồng\nMột con rồng\n\n### Ý tưởng\n\n\n🌟 **Khuyến nghị**: chọn 1\n"
    );
    assert_eq!(
        ideation_summary_text(&None, &None, &None),
        "\n💡 **Phân tích**: \n\n\n🌟 **Khuyến nghị**: \n"
    );
    assert_eq!(
        analysis_summary_text(&s("t"), &s("ok"), &Some(vec![s("b1"), s("b2")])),
        "\n💡 **Phân tích**: t\n🧐 **Đánh giá**: ok\n\n📋 **Kế hoạch hành động**:\n• b1\n• b2\n"
    );
}

#[test]
fn text_helpers() {
    assert_eq!(trim_string(" \t a b \n"), "a b");
    assert_eq!(count_words("  một  hai\tba\n"), 3);
    assert_eq!(count_words(""), 0);
    assert_eq!(split_lines("a\r\nb\n\nc\n"), vec!["a", "b", "", "c"]);
    assert_eq!(split_lines(""), Vec::<String>::new());
    assert_eq!(join_strings(&vec!["a".to_string(), "b".to_string()], ", "), "a, b");
    assert_eq!(extract_json_block("x {\"a\":1} y } z"), Some("{\"a\":1} y }".to_string()));
    assert_eq!(extract_json_block("no braces"), None);
    assert_eq!(extract_json_block("} {"), None);
    assert_eq!(usize_to_decimal(0), "0");
    assert_eq!(usize_to_decimal(907), "907");
}

#[test]
fn analysis_prompt_and_block() {
    assert_eq!(
        analyze_prompt_text("G", &Ok("L".to_string()), &Some("M".to_string()), &Ok("W".to_string())),
        "PHÂN TÍCH VÀ NẠP KIẾN THỨC:\nG\n\n### CẤU TRÚC THƯ MỤC:\nL\n\n### NỘI DUNG MEMORY.MD:\nM\n\n### DANH SÁCH WIKI:\nW\n"
    );
    assert_eq!(
        analyze_prompt_text("", &Err("e1".to_string()), &None, &Err("e2".to_string())),
        "PHÂN TÍCH VÀ NẠP KIẾN THỨC:\n\n\n### CẤU TRÚC THƯ MỤC:\nLỗi liệt kê: e1\n\n### NỘI DUNG MEMORY.MD:\nChưa có file memory.md hoặc file trống.\n\n### DANH SÁCH WIKI:\nLỗi Wiki: e2\n"
    );
    assert_eq!(analysis_block("a {\"plan\": []} b"), Ok("{\"plan\": []}".to_string()));
    assert_eq!(
        analysis_block("none"),
        Err("AI không trả về khối JSON Analyze hợp lệ. Nội dung gốc: none".to_string())
    );
}

#[test]
fn writing_completion() {
    assert_eq!(
        writing_completion_prompt("P", 250, "chapters/c2.md", 3),
        "P\n\n[HỆ THỐNG NHẮC NHỞ]: Bạn vừa hoàn thành việc viết khoảng 250 từ, lưu vào file 'chapters/c2.md'. Đã tự động cập nhật 3 thực thể vào Wiki. Hãy dùng thông tin này để báo cáo ngắn gọn, thân thiện cho người dùng."
    );
}

#[test]
fn reply_blocks_that_do_not_parse() {
    let e = chapter_from_block("{oops", &Err("expected value at line 1 column 2".to_string()));
    assert_eq!(
        e.err(),
        Some("Lỗi parse JSON từ AI: expected value at line 1 column 2. Nội dung gốc: {oops".to_string())
    );
    let ok = chapter_from_block(
        "{}",
        &Ok(WritingReply { chapter_content: s("x y"), suggested_filename: s("c.md"), thought_process: None }),
    )
    .unwrap();
    assert_eq!(ok.file, "c.md");
    assert_eq!(ok.word_count, 2);
    let missing = chapter_from_block(
        "{}",
        &Ok(WritingReply { chapter_content: None, suggested_filename: None, thought_process: None }),
    );
    assert_eq!(missing.err(), Some("AI không trả về chapter_content".to_string()));

    assert_eq!(ideation_from_block(&Err("bad".to_string())), Err("Lỗi parse JSON Ideation: bad".to_string()));
    assert_eq!(
        ideation_from_block(&Ok(IdeationReply { thought_process: None, ideas: None, recommendation: None })),
        Ok("\n💡 **Phân tích**: \n\n\n🌟 **Khuyến nghị**: \n".to_string())
    );
    assert_eq!(analysis_from_block(&Err("bad".to_string())), Err("Lỗi parse JSON Analyze: bad".to_string()));
    assert_eq!(
        analysis_from_block(&Ok(AnalysisReply { thought_process: s("t"), status_check: s("ok"), plan: None })),
        Ok("\n💡 **Phân tích**: t\n🧐 **Đánh giá**: ok\n\n📋 **Kế hoạch hành động**:\n\n".to_string())
    );
}
