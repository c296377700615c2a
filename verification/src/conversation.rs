//! Building what is sent to the model: the system instruction, the conversation history,
//! and the prompts of the chat and writing commands.

use vstd::prelude::*;
use vstd::string::*;
use crate::agent::AgentType;
use crate::gemini::{content_views, text_message, ContentView, GeminiContent, PartView};
use crate::instructions::{
    AGENT_INSTRUCTIONS, CHAT_AGENT_INSTRUCTIONS, IDEATION_AGENT_INSTRUCTIONS, NAMING_RULES,
    WIKI_GRAPH_RULES, WRITING_AGENT_INSTRUCTIONS,
};
use crate::text::{is_blank, starts_with, str_eq, trim, trim_string};

verus! {

/// The instruction of each agent.
pub open spec fn base_instruction(a: AgentType) -> Seq<char> {
    match a {
        AgentType::Chat => CHAT_AGENT_INSTRUCTIONS@,
        AgentType::Ideation => IDEATION_AGENT_INSTRUCTIONS@,
        AgentType::Writing => WRITING_AGENT_INSTRUCTIONS@,
        AgentType::General => AGENT_INSTRUCTIONS@,
    }
}

/// The closing line of every system instruction.
pub open spec fn action_hint() -> Seq<char> {
    "HÀNH ĐỘNG: Nếu cần thông tin cốt truyện, hãy đọc Wiki hoặc Chương cũ. Nếu cần thông tin thực tế, hãy dùng Google Search."@
}

/// The project memory block, present when the memory file was read and is not blank.
pub open spec fn memory_block(memory: Option<Seq<char>>) -> Seq<char> {
    match memory {
        Some(m) => if trim(m).len() == 0 {
            Seq::empty()
        } else {
            "\n\n--- PROJECT MEMORY (memory.md) ---\n"@ + trim(m) + "\n--- END OF PROJECT MEMORY ---\n"@
        },
        None => Seq::empty(),
    }
}

/// The directory listing block, present when the root was listed.
pub open spec fn directory_block(listing: Option<Seq<char>>) -> Seq<char> {
    match listing {
        Some(d) => "\n\n--- PROJECT DIRECTORY STRUCTURE ---\n"@ + d
            + "\n--- END OF DIRECTORY STRUCTURE ---\n"@,
        None => Seq::empty(),
    }
}

/// The wiki block, present when the wiki was listed.
pub open spec fn wiki_block(wiki: Option<Seq<char>>) -> Seq<char> {
    match wiki {
        Some(w) => "\n\n"@ + w + "\n--- END OF WIKI ---\n"@,
        None => Seq::empty(),
    }
}

/// The block of the files the author selected, present when there is any.
pub open spec fn selected_block(selected: Seq<char>) -> Seq<char> {
    if selected.len() == 0 {
        Seq::empty()
    } else {
        "\n\n--- SELECTED KNOWLEDGE FILES ---\nYou MUST prioritize using the following information from the files selected by the user to answer the query:\n"@
            + selected
    }
}

/// The full system instruction of an agent, with the project context injected.
pub open spec fn system_instruction_text(
    a: AgentType,
    memory: Option<Seq<char>>,
    listing: Option<Seq<char>>,
    wiki: Option<Seq<char>>,
    selected: Seq<char>,
) -> Seq<char> {
    base_instruction(a) + "\n\n"@ + NAMING_RULES@ + "\n\n"@ + WIKI_GRAPH_RULES@ + "\n\n"@
        + action_hint() + memory_block(memory) + directory_block(listing) + wiki_block(wiki)
        + selected_block(selected)
}

/// The part shared by every system instruction after the agent's own instruction: the
/// naming rules, the wiki rules and the closing hint.
pub open spec fn shared_rules() -> Seq<char> {
    "\n\n"@ + NAMING_RULES@ + "\n\n"@ + WIKI_GRAPH_RULES@ + "\n\n"@ + action_hint()
}

/// Each agent's system instruction begins with that agent's own instruction, followed by
/// the shared rules; the project context only comes after them.
pub proof fn law_each_agent_has_its_own_instruction(
    a: AgentType,
    memory: Option<Seq<char>>,
    listing: Option<Seq<char>>,
    wiki: Option<Seq<char>>,
    selected: Seq<char>,
)
    ensures
        a == AgentType::Chat ==> starts_with(
            system_instruction_text(a, memory, listing, wiki, selected),
            CHAT_AGENT_INSTRUCTIONS@ + shared_rules(),
        ),
        a == AgentType::Ideation ==> starts_with(
            system_instruction_text(a, memory, listing, wiki, selected),
            IDEATION_AGENT_INSTRUCTIONS@ + shared_rules(),
        ),
        a == AgentType::Writing ==> starts_with(
            system_instruction_text(a, memory, listing, wiki, selected),
            WRITING_AGENT_INSTRUCTIONS@ + shared_rules(),
        ),
        a == AgentType::General ==> starts_with(
            system_instruction_text(a, memory, listing, wiki, selected),
            AGENT_INSTRUCTIONS@ + shared_rules(),
        ),
{
    let t = system_instruction_text(a, memory, listing, wiki, selected);
    let own = match a {
        AgentType::Chat => CHAT_AGENT_INSTRUCTIONS@,
        AgentType::Ideation => IDEATION_AGENT_INSTRUCTIONS@,
        AgentType::Writing => WRITING_AGENT_INSTRUCTIONS@,
        AgentType::General => AGENT_INSTRUCTIONS@,
    };
    let head = own + shared_rules();
    let rest = memory_block(memory) + directory_block(listing) + wiki_block(wiki) + selected_block(
        selected,
    );
    assert(t =~= head + rest);
    assert(t.subrange(0, head.len() as int) =~= head);
}

/// Builds the system instruction of an agent: its own instruction, the naming and wiki
/// rules, then the project memory (`memory`: the memory file, when it could be read), the
/// directory listing and the wiki listing (when they could be made), and the files the
/// author selected.
pub fn build_system_instruction(
    agent_type: AgentType,
    memory: Option<&str>,
    listing: Option<&str>,
    wiki: Option<&str>,
    selected_files_content: &str,
) -> (r: GeminiContent)
    ensures
        r@ == text_message(
            "system"@,
            system_instruction_text(
                agent_type,
                match memory {
                    Some(s) => Some(s@),
                    None => None,
                },
                match listing {
                    Some(s) => Some(s@),
                    None => None,
                },
                match wiki {
                    Some(s) => Some(s@),
                    None => None,
                },
                selected_files_content@,
            ),
        ),
{
    let base = match agent_type {
        AgentType::Chat => CHAT_AGENT_INSTRUCTIONS,
        AgentType::Ideation => IDEATION_AGENT_INSTRUCTIONS,
        AgentType::Writing => WRITING_AGENT_INSTRUCTIONS,
        AgentType::General => AGENT_INSTRUCTIONS,
    };
    let mut s = String::from_str(base);
    s.append("\n\n");
    s.append(NAMING_RULES);
    s.append("\n\n");
    s.append(WIKI_GRAPH_RULES);
    s.append("\n\n");
    s.append(
        "HÀNH ĐỘNG: Nếu cần thông tin cốt truyện, hãy đọc Wiki hoặc Chương cũ. Nếu cần thông tin thực tế, hãy dùng Google Search.",
    );
    let ghost head = s@;
    let ghost mem = match memory {
        Some(x) => Some(x@),
        None => None,
    };
    let ghost lst = match listing {
        Some(x) => Some(x@),
        None => None,
    };
    let ghost wk = match wiki {
        Some(x) => Some(x@),
        None => None,
    };
    assert(head =~= base_instruction(agent_type) + "\n\n"@ + NAMING_RULES@ + "\n\n"@ + WIKI_GRAPH_RULES@ + "\n\n"@ + action_hint());
    if let Some(m) = memory {
        let t = trim_string(m);
        if !t.as_str().is_empty() {
            s.append("\n\n--- PROJECT MEMORY (memory.md) ---\n");
            s.append(t.as_str());
            s.append("\n--- END OF PROJECT MEMORY ---\n");
        }
    }
    assert(s@ =~= head + memory_block(mem));
    if let Some(d) = listing {
        s.append("\n\n--- PROJECT DIRECTORY STRUCTURE ---\n");
        s.append(d);
        s.append("\n--- END OF DIRECTORY STRUCTURE ---\n");
    }
    assert(s@ =~= head + memory_block(mem) + directory_block(lst));
    if let Some(w) = wiki {
        s.append("\n\n");
        s.append(w);
        s.append("\n--- END OF WIKI ---\n");
    }
    assert(s@ =~= head + memory_block(mem) + directory_block(lst) + wiki_block(wk));
    if !selected_files_content.is_empty() {
        s.append(
            "\n\n--- SELECTED KNOWLEDGE FILES ---\nYou MUST prioritize using the following information from the files selected by the user to answer the query:\n",
        );
        s.append(selected_files_content);
    }
    assert(s@ =~= system_instruction_text(agent_type, mem, lst, wk, selected_files_content@));
    GeminiContent::from_text(String::from_str("system"), s)
}

} // verus!

verus! {

/// A message of the saved chat history: its `role` and `content` when they are strings.
pub struct HistoryMessage {
    pub role: Option<String>,
    pub content: Option<String>,
}

/// The value of an optional string, or `default`.
pub open spec fn or_default(o: Option<String>, default: Seq<char>) -> Seq<char> {
    match o {
        Some(s) => s@,
        None => default,
    }
}

/// The API role of a history message: `assistant` is sent as `model`; no role is `user`.
pub open spec fn api_role(role: Option<String>) -> Seq<char> {
    let r = or_default(role, "user"@);
    if r == "assistant"@ {
        "model"@
    } else {
        r
    }
}

/// A history message as sent to the model.
pub open spec fn history_content(m: HistoryMessage) -> ContentView {
    text_message(api_role(m.role), or_default(m.content, ""@))
}

/// The newest (at most) six messages of a history.
pub open spec fn recent_history(h: Seq<HistoryMessage>) -> Seq<HistoryMessage> {
    if h.len() <= 6 {
        h
    } else {
        h.skip(h.len() - 6)
    }
}

/// Whether the history already ends with the new message.
pub open spec fn ends_with_message(h: Seq<HistoryMessage>, message: Seq<char>) -> bool {
    h.len() > 0 && (h.last().content matches Some(c) && c@ == message)
}

/// What is appended for a new request: the newest six history messages, then the new
/// message from the user unless the history already ends with it.
pub open spec fn conversation_tail(h: Seq<HistoryMessage>, message: Seq<char>) -> Seq<ContentView> {
    let past = recent_history(h).map_values(|m: HistoryMessage| history_content(m));
    if ends_with_message(h, message) {
        past
    } else {
        past.push(text_message("user"@, message))
    }
}

/// A request carries at most the six newest history messages and the new one; the new
/// message is always the last one sent.
pub proof fn law_conversation_tail(h: Seq<HistoryMessage>, message: Seq<char>)
    ensures
        1 <= conversation_tail(h, message).len() <= 7,
        conversation_tail(h, message).last().parts == seq![PartView::Text(message)],
{
    let recent = recent_history(h);
    let past = recent.map_values(|m: HistoryMessage| history_content(m));
    assert(recent.len() <= 6);
    if ends_with_message(h, message) {
        assert(recent.last() == h.last());
        assert(past.last() == history_content(h.last()));
    }
}

fn or_default_exec(o: &Option<String>, default: &str) -> (r: String)
    ensures
        r@ == or_default(*o, default@),
{
    match o {
        Some(s) => s.clone(),
        None => String::from_str(default),
    }
}

/// One history message as sent to the model.
pub fn history_to_content(m: &HistoryMessage) -> (r: GeminiContent)
    ensures
        r@ == history_content(*m),
{
    let role = or_default_exec(&m.role, "user");
    let api = if str_eq(role.as_str(), "assistant") {
        String::from_str("model")
    } else {
        role
    };
    GeminiContent::from_text(api, or_default_exec(&m.content, ""))
}

/// Adds the conversation to the request: the newest six history messages, then the new
/// message unless the history already ends with it.
pub fn prepare_conversation_contents(
    contents: &mut Vec<GeminiContent>,
    message: String,
    chat_history: &Vec<HistoryMessage>,
)
    ensures
        content_views(final(contents)@) == content_views(old(contents)@) + conversation_tail(
            chat_history@,
            message@,
        ),
{
    let ghost start = content_views(contents@);
    let ghost h = chat_history@;
    let n = chat_history.len();
    let first = if n > 6 {
        n - 6
    } else {
        0
    };
    let ghost recent = recent_history(h);
    assert(recent =~= h.subrange(first as int, n as int));
    let mut i = first;
    while i < n
        invariant
            first <= i <= n == chat_history.len(),
            h == chat_history@,
            recent == h.subrange(first as int, n as int),
            content_views(contents@) == start + recent.take(i - first).map_values(
                |m: HistoryMessage| history_content(m),
            ),
        decreases n - i,
    {
        let ghost before = content_views(contents@);
        contents.push(history_to_content(&chat_history[i]));
        proof {
            assert(content_views(contents@) =~= before.push(history_content(h[i as int])));
            assert(recent.take(i + 1 - first) =~= recent.take(i - first).push(h[i as int]));
        }
        i += 1;
    }
    assert(recent.take(n - first) =~= recent);
    let ghost past = content_views(contents@);
    let already = if n > 0 {
        match &chat_history[n - 1].content {
            Some(c) => str_eq(c.as_str(), message.as_str()),
            None => false,
        }
    } else {
        false
    };
    if !already {
        contents.push(GeminiContent::from_text(String::from_str("user"), message));
        assert(content_views(contents@) =~= past.push(text_message("user"@, message@)));
    }
    assert(content_views(contents@) =~= start + conversation_tail(h, message@));
}

} // verus!

verus! {

/// The block of one knowledge file the author selected.
pub open spec fn knowledge_block(name: Seq<char>, content: Seq<char>) -> Seq<char> {
    "\n\n--- KNOWLEDGE FILE: "@ + name + " ---\n"@ + content + "\n--- END OF FILE ---\n"@
}

/// The blocks of the knowledge files, in order.
pub open spec fn knowledge_text(files: Seq<(String, String)>) -> Seq<char>
    decreases files.len(),
{
    if files.len() == 0 {
        Seq::empty()
    } else {
        knowledge_text(files.drop_last()) + knowledge_block(files.last().0@, files.last().1@)
    }
}

/// The context of the selected knowledge files, given as (file name, content) pairs of the
/// files that could be read.
pub fn knowledge_context(files: &Vec<(String, String)>) -> (r: String)
    ensures
        r@ == knowledge_text(files@),
{
    let mut r = String::new();
    let mut i: usize = 0;
    while i < files.len()
        invariant
            i <= files.len(),
            r@ == knowledge_text(files@.take(i as int)),
        decreases files.len() - i,
    {
        assert(files@.take(i + 1).drop_last() =~= files@.take(i as int));
        r.append("\n\n--- KNOWLEDGE FILE: ");
        r.append(files[i].0.as_str());
        r.append(" ---\n");
        r.append(files[i].1.as_str());
        r.append("\n--- END OF FILE ---\n");
        assert(r@ =~= knowledge_text(files@.take(i + 1)));
        i += 1;
    }
    assert(files@.take(files.len() as int) =~= files@);
    r
}

/// The opening prompt of a story chat, carrying the story's knowledge.
pub open spec fn story_chat_prompt(kb: Seq<char>) -> Seq<char> {
    "Bạn là một trợ lý sáng tác chuyên nghiệp. Hãy sử dụng KIẾN THỨC VỀ TRUYỆN dưới đây để trả lời.\n\n"@
        + kb + "\n"@
}

/// The model's acknowledgement of the story's knowledge.
pub open spec fn story_chat_ack() -> Seq<char> {
    "Tôi đã nắm được toàn bộ kiến thức về truyện. Hãy hỏi tôi bất cứ điều gì!"@
}

/// The messages of a story chat: the knowledge prompt, the acknowledgement, the whole
/// history, then the new message.
pub open spec fn story_chat_messages(
    kb: Seq<char>,
    h: Seq<HistoryMessage>,
    message: Seq<char>,
) -> Seq<ContentView> {
    seq![text_message("user"@, story_chat_prompt(kb)), text_message("model"@, story_chat_ack())]
        + h.map_values(|m: HistoryMessage| history_content(m)) + seq![
        text_message("user"@, message),
    ]
}

/// Builds the messages of a story chat.
pub fn story_chat_contents(kb_context: &str, chat_history: &Vec<HistoryMessage>, message: String) -> (r: Vec<
    GeminiContent,
>)
    ensures
        content_views(r@) == story_chat_messages(kb_context@, chat_history@, message@),
{
    let mut r: Vec<GeminiContent> = Vec::new();
    let prompt = String::from_str(
        "Bạn là một trợ lý sáng tác chuyên nghiệp. Hãy sử dụng KIẾN THỨC VỀ TRUYỆN dưới đây để trả lời.\n\n",
    ).concat(kb_context).concat("\n");
    r.push(GeminiContent::from_text(String::from_str("user"), prompt));
    r.push(
        GeminiContent::from_text(
            String::from_str("model"),
            String::from_str(
                "Tôi đã nắm được toàn bộ kiến thức về truyện. Hãy hỏi tôi bất cứ điều gì!",
            ),
        ),
    );
    let ghost head = content_views(r@);
    let ghost h = chat_history@;
    let mut i: usize = 0;
    while i < chat_history.len()
        invariant
            i <= chat_history.len(),
            h == chat_history@,
            content_views(r@) == head + h.take(i as int).map_values(
                |m: HistoryMessage| history_content(m),
            ),
        decreases chat_history.len() - i,
    {
        let ghost before = content_views(r@);
        r.push(history_to_content(&chat_history[i]));
        proof {
            assert(content_views(r@) =~= before.push(history_content(h[i as int])));
            assert(h.take(i + 1) =~= h.take(i as int).push(h[i as int]));
        }
        i += 1;
    }
    assert(h.take(h.len() as int) =~= h);
    let ghost past = content_views(r@);
    r.push(GeminiContent::from_text(String::from_str("user"), message));
    assert(content_views(r@) =~= past.push(text_message("user"@, message@)));
    assert(content_views(r@) =~= story_chat_messages(kb_context@, chat_history@, message@));
    r
}

} // verus!

verus! {

/// Whether a file lies in the folder `f` (`f/` or `f\` prefix).
pub open spec fn in_folder(file: Seq<char>, f: Seq<char>) -> bool {
    crate::text::starts_with(file, f + "/"@) || crate::text::starts_with(file, f + "\\"@)
}

/// The writer's role for the file being edited, chosen by the folder it lies in.
pub open spec fn writer_role_text(file: Seq<char>) -> Seq<char> {
    if in_folder(file, "Chương"@) {
        "Bạn là một NHÀ VĂN CHUYÊN NGHIỆP. Nhiệm vụ của bạn là VIẾT TIẾP hoặc CHỈNH SỬA nội dung CHƯƠNG TRUYỆN.\n- Phong cách văn phong phải mạch lạc, lôi cuốn.\n- Mô tả hành động, cảm xúc và bối cảnh sống động.\n- Phát triển cốt truyện và giữ đúng tính cách nhân vật."@
    } else if in_folder(file, "Nhân vật"@) {
        "Bạn là một CHUYÊN GIA THIẾT KẾ NHÂN VẬT. Nhiệm vụ của bạn là TẠO MỚI hoặc CẬP NHẬT HỒ SƠ NHÂN VẬT.\n- Trình bày rõ ràng: Ngoại hình, Tính cách, Tiểu sử, Kỹ năng/Sức mạnh, và Mục tiêu.\n- Đảm bảo nhân vật có chiều sâu và phù hợp với toàn bộ thế giới của truyện."@
    } else if in_folder(file, "Cốt truyện"@) {
        "Bạn là một CHUYÊN GIA LÊN KẾ HOẠCH CỐT TRUYỆN. Nhiệm vụ của bạn là PHÁT TRIỂN CỐT TRUYỆN (PLOT).\n- Đề xuất các tình tiết hấp dẫn, cao trào, thắt nút và mở nút logic.\n- Đảm bảo mạch truyện liên kết chặt chẽ từ đầu đến cuối."@
    } else if in_folder(file, "Bối cảnh"@) {
        "Bạn là một CHUYÊN GIA XÂY DỰNG THẾ GIỚI (World Builder). Nhiệm vụ của bạn là MÔ TẢ BỐI CẢNH, ĐỊA DANH, VẬT PHẨM, HỆ THỐNG PHÉP THUẬT.\n- Miêu tả chi tiết, mang lại cảm giác chân thực và sống động.\n- Giữ vững logic của thế giới (world-building rules)."@
    } else {
        "Bạn là một TRỢ LÝ SÁNG TÁC ĐA NĂNG. Nhiệm vụ của bạn là HỖ TRỢ XỬ LÝ NỘI DUNG theo chỉ dẫn của người dùng."@
    }
}

/// The writer's role for the file being edited.
pub fn writer_role(current_file: &str) -> (r: &'static str)
    ensures
        r@ == writer_role_text(current_file@),
{
    proof {
        reveal_strlit("/");
        reveal_strlit("\\");
    }
    if crate::text::str_starts_with(current_file, "Chương/") || crate::text::str_starts_with(
        current_file,
        "Chương\\",
    ) {
        proof {
            reveal_strlit("Chương");
            reveal_strlit("Chương/");
            reveal_strlit("Chương\\");
            assert("Chương"@ + "/"@ =~= "Chương/"@);
            assert("Chương"@ + "\\"@ =~= "Chương\\"@);
        }
        "Bạn là một NHÀ VĂN CHUYÊN NGHIỆP. Nhiệm vụ của bạn là VIẾT TIẾP hoặc CHỈNH SỬA nội dung CHƯƠNG TRUYỆN.\n- Phong cách văn phong phải mạch lạc, lôi cuốn.\n- Mô tả hành động, cảm xúc và bối cảnh sống động.\n- Phát triển cốt truyện và giữ đúng tính cách nhân vật."
    } else if crate::text::str_starts_with(current_file, "Nhân vật/") || crate::text::str_starts_with(
        current_file,
        "Nhân vật\\",
    ) {
        proof {
            reveal_strlit("Chương");
            reveal_strlit("Chương/");
            reveal_strlit("Chương\\");
            assert("Chương"@ + "/"@ =~= "Chương/"@);
            assert("Chương"@ + "\\"@ =~= "Chương\\"@);
            reveal_strlit("Nhân vật");
            reveal_strlit("Nhân vật/");
            reveal_strlit("Nhân vật\\");
            assert("Nhân vật"@ + "/"@ =~= "Nhân vật/"@);
            assert("Nhân vật"@ + "\\"@ =~= "Nhân vật\\"@);
        }
        "Bạn là một CHUYÊN GIA THIẾT KẾ NHÂN VẬT. Nhiệm vụ của bạn là TẠO MỚI hoặc CẬP NHẬT HỒ SƠ NHÂN VẬT.\n- Trình bày rõ ràng: Ngoại hình, Tính cách, Tiểu sử, Kỹ năng/Sức mạnh, và Mục tiêu.\n- Đảm bảo nhân vật có chiều sâu và phù hợp với toàn bộ thế giới của truyện."
    } else {
        proof {
            reveal_strlit("Chương");
            reveal_strlit("Chương/");
            reveal_strlit("Chương\\");
            assert("Chương"@ + "/"@ =~= "Chương/"@);
            assert("Chương"@ + "\\"@ =~= "Chương\\"@);
            reveal_strlit("Nhân vật");
            reveal_strlit("Nhân vật/");
            reveal_strlit("Nhân vật\\");
            assert("Nhân vật"@ + "/"@ =~= "Nhân vật/"@);
            assert("Nhân vật"@ + "\\"@ =~= "Nhân vật\\"@);
        }
        writer_role_other_folders(current_file)
    }
}

fn writer_role_other_folders(current_file: &str) -> (r: &'static str)
    requires
        !in_folder(current_file@, "Chương"@),
        !in_folder(current_file@, "Nhân vật"@),
    ensures
        r@ == writer_role_text(current_file@),
{
    proof {
        reveal_strlit("/");
        reveal_strlit("\\");
        reveal_strlit("Cốt truyện");
        reveal_strlit("Cốt truyện/");
        reveal_strlit("Cốt truyện\\");
        assert("Cốt truyện"@ + "/"@ =~= "Cốt truyện/"@);
        assert("Cốt truyện"@ + "\\"@ =~= "Cốt truyện\\"@);
        reveal_strlit("Bối cảnh");
        reveal_strlit("Bối cảnh/");
        reveal_strlit("Bối cảnh\\");
        assert("Bối cảnh"@ + "/"@ =~= "Bối cảnh/"@);
        assert("Bối cảnh"@ + "\\"@ =~= "Bối cảnh\\"@);
    }
    if crate::text::str_starts_with(current_file, "Cốt truyện/") || crate::text::str_starts_with(
        current_file,
        "Cốt truyện\\",
    ) {
        "Bạn là một CHUYÊN GIA LÊN KẾ HOẠCH CỐT TRUYỆN. Nhiệm vụ của bạn là PHÁT TRIỂN CỐT TRUYỆN (PLOT).\n- Đề xuất các tình tiết hấp dẫn, cao trào, thắt nút và mở nút logic.\n- Đảm bảo mạch truyện liên kết chặt chẽ từ đầu đến cuối."
    } else if crate::text::str_starts_with(current_file, "Bối cảnh/") || crate::text::str_starts_with(
        current_file,
        "Bối cảnh\\",
    ) {
        "Bạn là một CHUYÊN GIA XÂY DỰNG THẾ GIỚI (World Builder). Nhiệm vụ của bạn là MÔ TẢ BỐI CẢNH, ĐỊA DANH, VẬT PHẨM, HỆ THỐNG PHÉP THUẬT.\n- Miêu tả chi tiết, mang lại cảm giác chân thực và sống động.\n- Giữ vững logic của thế giới (world-building rules)."
    } else {
        "Bạn là một TRỢ LÝ SÁNG TÁC ĐA NĂNG. Nhiệm vụ của bạn là HỖ TRỢ XỬ LÝ NỘI DUNG theo chỉ dẫn của người dùng."
    }
}

} // verus!

verus! {

/// The writer's context: the story's knowledge, the previous chapters when there are any,
/// then the file being edited with its content.
pub open spec fn write_context_text(
    kb: Seq<char>,
    previous: Seq<char>,
    file: Seq<char>,
    content: Seq<char>,
) -> Seq<char> {
    kb + (if previous.len() == 0 {
        Seq::empty()
    } else {
        "\n# TÓM TẮT CÁC CHƯƠNG TRƯỚC\n"@ + previous + "\n"@
    }) + "\n# NỘI DUNG HIỆN TẠI ("@ + file + ")\n"@ + content + "\n"@
}

/// Builds the writer's context.
pub fn write_context(kb_context: &str, previous_chapters: &str, current_file: &str, current_content: &str) -> (r:
    String)
    ensures
        r@ == write_context_text(kb_context@, previous_chapters@, current_file@, current_content@),
{
    let mut r = String::from_str(kb_context);
    if !previous_chapters.is_empty() {
        r.append("\n# TÓM TẮT CÁC CHƯƠNG TRƯỚC\n");
        r.append(previous_chapters);
        r.append("\n");
    }
    r.append("\n# NỘI DUNG HIỆN TẠI (");
    r.append(current_file);
    r.append(")\n");
    r.append(current_content);
    r.append("\n");
    assert(r@ =~= write_context_text(kb_context@, previous_chapters@, current_file@, current_content@));
    r
}

/// The writer's instruction: the selected passage when there is one, the author's
/// instruction, and the demand for new text only.
pub open spec fn write_user_prompt(instruction: Seq<char>, selection: Option<Seq<char>>) -> Seq<char> {
    match selection {
        Some(sel) => "Phần văn bản được chọn: \""@ + sel + "\"\n\nChỉ dẫn: "@ + instruction
            + "\n\nChỉ trả về nội dung mới, không giải thích."@,
        None => "Chỉ dẫn viết tiếp: "@ + instruction
            + "\n\nChỉ trả về nội dung mới, không giải thích."@,
    }
}

/// The system prompt of the writer, for the file being edited.
pub open spec fn write_system_prompt(file: Seq<char>, context: Seq<char>) -> Seq<char> {
    writer_role_text(file)
        + "\nHãy thực hiện dựa trên các kiến thức và chỉ dẫn dưới đây. Tuyệt đối bám sát các Quy tắc, Nhân vật và thông tin bối cảnh đã cung cấp.\n\n"@
        + context + "\n"@
}

/// The system prompt of the plain writer (the same for every file).
pub open spec fn plain_write_system_prompt(context: Seq<char>) -> Seq<char> {
    "Bạn là nhà văn chuyên nghiệp. Hãy viết tiếp hoặc sửa đổi dựa trên các kiến thức và chỉ dẫn sau.\nTuyệt đối bám sát các Quy tắc, Nhân vật và thông tin bối cảnh đã cung cấp.\n\n"@
        + context + "\n"@
}

/// The model's acknowledgement before writing.
pub open spec fn write_ack() -> Seq<char> {
    "Tôi đã nắm được toàn bộ ngữ cảnh. Sẵn sàng viết."@
}

fn user_prompt(instruction: &str, selection: Option<&str>) -> (r: String)
    ensures
        r@ == write_user_prompt(
            instruction@,
            match selection {
                Some(s) => Some(s@),
                None => None,
            },
        ),
{
    match selection {
        Some(sel) => {
            let r = String::from_str("Phần văn bản được chọn: \"").concat(sel).concat(
                "\"\n\nChỉ dẫn: ",
            ).concat(instruction).concat("\n\nChỉ trả về nội dung mới, không giải thích.");
            r
        },
        None => String::from_str("Chỉ dẫn viết tiếp: ").concat(instruction).concat(
            "\n\nChỉ trả về nội dung mới, không giải thích.",
        ),
    }
}

fn three_messages(system: String, user: String) -> (r: Vec<GeminiContent>)
    ensures
        content_views(r@) == seq![
            text_message("user"@, system@),
            text_message("model"@, write_ack()),
            text_message("user"@, user@),
        ],
{
    let mut r: Vec<GeminiContent> = Vec::new();
    let ghost sv = system@;
    let ghost uv = user@;
    r.push(GeminiContent::from_text(String::from_str("user"), system));
    r.push(
        GeminiContent::from_text(
            String::from_str("model"),
            String::from_str("Tôi đã nắm được toàn bộ ngữ cảnh. Sẵn sàng viết."),
        ),
    );
    r.push(GeminiContent::from_text(String::from_str("user"), user));
    assert(content_views(r@) =~= seq![
        text_message("user"@, sv),
        text_message("model"@, write_ack()),
        text_message("user"@, uv),
    ]);
    r
}

/// The messages that ask the writer for new text in the file being edited, in the role
/// chosen by the file's folder.
pub fn write_contents(
    current_file: &str,
    context: &str,
    instruction: &str,
    selection: Option<&str>,
) -> (r: Vec<GeminiContent>)
    ensures
        content_views(r@) == seq![
            text_message("user"@, write_system_prompt(current_file@, context@)),
            text_message("model"@, write_ack()),
            text_message(
                "user"@,
                write_user_prompt(
                    instruction@,
                    match selection {
                        Some(s) => Some(s@),
                        None => None,
                    },
                ),
            ),
        ],
{
    let system = String::from_str(writer_role(current_file)).concat(
        "\nHãy thực hiện dựa trên các kiến thức và chỉ dẫn dưới đây. Tuyệt đối bám sát các Quy tắc, Nhân vật và thông tin bối cảnh đã cung cấp.\n\n",
    ).concat(context).concat("\n");
    three_messages(system, user_prompt(instruction, selection))
}

/// The messages that ask the plain writer for new text.
pub fn plain_write_contents(context: &str, instruction: &str, selection: Option<&str>) -> (r: Vec<
    GeminiContent,
>)
    ensures
        content_views(r@) == seq![
            text_message("user"@, plain_write_system_prompt(context@)),
            text_message("model"@, write_ack()),
            text_message(
                "user"@,
                write_user_prompt(
                    instruction@,
                    match selection {
                        Some(s) => Some(s@),
                        None => None,
                    },
                ),
            ),
        ],
{
    let system = String::from_str(
        "Bạn là nhà văn chuyên nghiệp. Hãy viết tiếp hoặc sửa đổi dựa trên các kiến thức và chỉ dẫn sau.\nTuyệt đối bám sát các Quy tắc, Nhân vật và thông tin bối cảnh đã cung cấp.\n\n",
    ).concat(context).concat("\n");
    three_messages(system, user_prompt(instruction, selection))
}

} // verus!
