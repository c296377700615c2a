//! The writing flow: the chapter draft, the wiki and memory synchronisation, and the
//! summaries shown to the author.

use vstd::prelude::*;
use vstd::string::*;
use crate::gemini::{part_views, GeminiPart, PartView};
use crate::text::{
    chars_of, count_words, join, lines, push_char, seq_starts_with, split_lines, starts_with,
    trim, trim_string, views, word_count,
};

verus! {

/// The texts of the parts, concatenated in order.
pub open spec fn text_of(ps: Seq<PartView>) -> Seq<char>
    decreases ps.len(),
{
    if ps.len() == 0 {
        Seq::empty()
    } else {
        text_of(ps.drop_last()) + match ps.last() {
            PartView::Text(t) => t,
            _ => Seq::empty(),
        }
    }
}

/// The texts of a reply's parts, concatenated.
pub fn collect_text(parts: &Vec<GeminiPart>) -> (r: String)
    ensures
        r@ == text_of(part_views(parts@)),
{
    let ghost ps = part_views(parts@);
    let mut r = String::new();
    let mut i: usize = 0;
    while i < parts.len()
        invariant
            i <= parts.len(),
            ps == part_views(parts@),
            r@ == text_of(ps.take(i as int)),
        decreases parts.len() - i,
    {
        assert(ps.take(i + 1).drop_last() =~= ps.take(i as int));
        assert(ps.take(i + 1).last() == parts@[i as int]@);
        match &parts[i] {
            GeminiPart::Text { text } => {
                r.append(text.as_str());
            },
            _ => {
                assert(r@ =~= r@ + Seq::<char>::empty());
            },
        }
        i += 1;
    }
    assert(ps.take(parts.len() as int) =~= ps);
    r
}

/// The texts of a reply, or nothing when they are empty.
pub fn get_full_text(parts: &Vec<GeminiPart>) -> (r: Option<String>)
    ensures
        r matches Some(t) ==> t@ == text_of(part_views(parts@)) && t@.len() > 0,
        r is None ==> text_of(part_views(parts@)).len() == 0,
{
    let t = collect_text(parts);
    if t.as_str().is_empty() {
        None
    } else {
        Some(t)
    }
}

/// Whether a line opens or closes a code fence.
pub open spec fn is_fence(l: Seq<char>) -> bool {
    starts_with(trim(l), "```"@)
}

/// The number of fence lines among `ls`.
pub open spec fn fence_count(ls: Seq<Seq<char>>) -> nat
    decreases ls.len(),
{
    if ls.len() == 0 {
        0
    } else {
        fence_count(ls.drop_last()) + if is_fence(ls.last()) {
            1nat
        } else {
            0nat
        }
    }
}

/// The lines outside code fences, each followed by `\n`.
pub open spec fn unfenced_text(ls: Seq<Seq<char>>) -> Seq<char>
    decreases ls.len(),
{
    if ls.len() == 0 {
        Seq::empty()
    } else {
        let prev = unfenced_text(ls.drop_last());
        let l = ls.last();
        if is_fence(l) || fence_count(ls.drop_last()) % 2 == 1 {
            prev
        } else {
            prev + l + "\n"@
        }
    }
}

/// The text outside code fences of `text`, each kept line followed by `\n`.
pub fn strip_code_fences(text: &str) -> (r: String)
    ensures
        r@ == unfenced_text(lines(text@)),
{
    let ls = split_lines(text);
    let ghost lv = views(ls@);
    let fence = chars_of("```");
    let mut out = String::new();
    let mut in_code = false;
    let mut i: usize = 0;
    while i < ls.len()
        invariant
            i <= ls.len(),
            lv == views(ls@),
            lv == lines(text@),
            fence@ == "```"@,
            out@ == unfenced_text(lv.take(i as int)),
            in_code == (fence_count(lv.take(i as int)) % 2 == 1),
        decreases ls.len() - i,
    {
        assert(lv.take(i + 1).drop_last() =~= lv.take(i as int));
        assert(lv.take(i + 1).last() == ls@[i as int]@);
        let t = trim_string(ls[i].as_str());
        let tv = chars_of(t.as_str());
        if seq_starts_with(&tv, &fence) {
            in_code = !in_code;
        } else if !in_code {
            out.append(ls[i].as_str());
            push_char(&mut out, '\n');
            proof {
                reveal_strlit("\n");
                assert(out@ =~= unfenced_text(lv.take(i as int)) + ls@[i as int]@ + "\n"@);
            }
        }
        i += 1;
    }
    assert(lv.take(ls.len() as int) =~= lv);
    out
}

/// The project summary taken from a sync reply that has no usable `project_summary`: the
/// reply without its code fences, or the whole reply when nothing is left outside them.
pub open spec fn fallback_summary(text: Seq<char>) -> Seq<char> {
    let t = trim(text);
    if t.len() == 0 {
        Seq::empty()
    } else {
        let cleaned = trim(unfenced_text(lines(t)));
        if cleaned.len() == 0 {
            t
        } else {
            cleaned
        }
    }
}

/// The project summary of a sync reply: its `project_summary`, trimmed, when that is not
/// blank; otherwise the fallback drawn from the reply's text.
pub open spec fn project_summary(text: Seq<char>, json_summary: Option<Seq<char>>) -> Seq<char> {
    match json_summary {
        Some(s) => if trim(s).len() > 0 {
            trim(s)
        } else {
            fallback_summary(text)
        },
        None => fallback_summary(text),
    }
}

/// Chooses the project summary to save into `memory.md` from the sync reply's text and the
/// `project_summary` string of its JSON block (when there is one); an empty result means
/// nothing is saved.
pub fn choose_project_summary(full_text: &str, json_summary: Option<&str>) -> (r: String)
    ensures
        r@ == project_summary(
            full_text@,
            match json_summary {
                Some(s) => Some(s@),
                None => None,
            },
        ),
{
    if let Some(s) = json_summary {
        let t = trim_string(s);
        if !t.as_str().is_empty() {
            return t;
        }
    }
    let t = trim_string(full_text);
    if t.as_str().is_empty() {
        return t;
    }
    let cleaned = strip_code_fences(t.as_str());
    let c = trim_string(cleaned.as_str());
    if c.as_str().is_empty() {
        t
    } else {
        c
    }
}

/// The count of wiki updates a sync reply reports, as a `usize` (saturating).
pub fn wiki_updates_count(count: u64) -> (r: usize)
    ensures
        r as int == if count as int <= usize::MAX as int {
            count as int
        } else {
            usize::MAX as int
        },
{
    if count as u128 <= usize::MAX as u128 {
        count as usize
    } else {
        usize::MAX
    }
}

} // verus!

verus! {

/// The value of an optional string, or `default`.
pub open spec fn or_default(o: Option<String>, default: Seq<char>) -> Seq<char> {
    match o {
        Some(s) => s@,
        None => default,
    }
}

fn or_default_exec(o: &Option<String>, default: &str) -> (r: String)
    ensures
        r@ == or_default(*o, default@),
{
    match o {
        Some(s) => s.clone(),
        None => String::from_str(default),
    }
}

/// One bullet: the item, or `-` when it is not a string.
pub open spec fn bullet(o: Option<String>) -> Seq<char> {
    "• "@ + or_default(o, "-"@)
}

/// The items as bullets, one per line.
pub open spec fn bullet_lines(items: Seq<Option<String>>) -> Seq<char> {
    join(items.map_values(|o: Option<String>| bullet(o)), "\n"@)
}

/// The items as bullets, one per line.
pub fn bullet_list(items: &Vec<Option<String>>) -> (r: String)
    ensures
        r@ == bullet_lines(items@),
{
    let mut parts: Vec<String> = Vec::new();
    let mut i: usize = 0;
    while i < items.len()
        invariant
            i <= items.len(),
            views(parts@) == items@.take(i as int).map_values(|o: Option<String>| bullet(o)),
        decreases items.len() - i,
    {
        let ghost before = views(parts@);
        parts.push(String::from_str("• ").concat(or_default_exec(&items[i], "-").as_str()));
        proof {
            assert(views(parts@) =~= before.push(bullet(items@[i as int])));
            assert(items@.take(i + 1) =~= items@.take(i as int).push(items@[i as int]));
        }
        i += 1;
    }
    assert(items@.take(items.len() as int) =~= items@);
    crate::text::join_strings(&parts, "\n")
}

/// What the JSON block of a sync reply holds: `project_summary` and the items of
/// `actions_taken` when they are strings, and `wiki_updates_count` when it is an unsigned
/// integer.
pub struct SyncReply {
    pub project_summary: Option<String>,
    pub wiki_updates_count: Option<u64>,
    pub actions_taken: Option<Vec<Option<String>>>,
}

/// What the sync step draws from the last message: the summary to save into `memory.md`
/// (nothing to save when empty), the new count of wiki updates, and the actions to show.
pub struct SyncOutcome {
    pub summary: String,
    pub wiki_updates: Option<usize>,
    pub actions: Option<String>,
}

/// Reads the sync step's reply: `full_text` is the text of the last message, `reply` what
/// its JSON block holds when it has one that parses.
pub fn finalize_feedback(full_text: &str, reply: &Option<SyncReply>) -> (r: SyncOutcome)
    ensures
        r.summary@ == project_summary(
            full_text@,
            match reply {
                Some(j) => match &j.project_summary {
                    Some(s) => Some(s@),
                    None => None,
                },
                None => None,
            },
        ),
        r.wiki_updates == match reply {
            Some(j) => match j.wiki_updates_count {
                Some(c) => Some(
                    if c as int <= usize::MAX as int {
                        c as usize
                    } else {
                        usize::MAX
                    },
                ),
                None => None,
            },
            None => None,
        },
        match reply {
            Some(j) => match &j.actions_taken {
                Some(a) => r.actions matches Some(t) && t@ == bullet_lines(a@),
                None => r.actions is None,
            },
            None => r.actions is None,
        },
{
    let json_summary = match reply {
        Some(j) => match &j.project_summary {
            Some(s) => Some(s.as_str()),
            None => None,
        },
        None => None,
    };
    let summary = choose_project_summary(full_text, json_summary);
    let wiki_updates = match reply {
        Some(j) => match j.wiki_updates_count {
            Some(c) => Some(wiki_updates_count(c)),
            None => None,
        },
        None => None,
    };
    let actions = match reply {
        Some(j) => match &j.actions_taken {
            Some(a) => Some(bullet_list(a)),
            None => None,
        },
        None => None,
    };
    SyncOutcome { summary, wiki_updates, actions }
}

/// What the JSON block of a chapter draft holds: `chapter_content` and
/// `suggested_filename` when they are strings.
pub struct ChapterReply {
    pub chapter_content: Option<String>,
    pub suggested_filename: Option<String>,
}

/// A chapter draft to save: its text, the file it goes to, and its word count.
pub struct ChapterDraft {
    pub content: String,
    pub file: String,
    pub word_count: usize,
}

/// The draft drawn from a chapter reply: the content (empty when missing), the suggested
/// file (`chapters/Unnamed.md` when missing) and the content's word count.
pub fn chapter_draft(reply: &ChapterReply) -> (r: ChapterDraft)
    ensures
        r.content@ == or_default(reply.chapter_content, ""@),
        r.file@ == or_default(reply.suggested_filename, "chapters/Unnamed.md"@),
        r.word_count == word_count(r.content@),
{
    let content = or_default_exec(&reply.chapter_content, "");
    let file = or_default_exec(&reply.suggested_filename, "chapters/Unnamed.md");
    let word_count = count_words(content.as_str());
    ChapterDraft { content, file, word_count }
}

} // verus!

verus! {

/// The text around the JSON block: before its first `{` and after its last `}`.
pub open spec fn text_around_block(t: Seq<char>) -> Seq<char> {
    match (crate::text::first_pos(t, '{'), crate::text::last_pos(t, '}')) {
        (Some(a), Some(b)) => t.take(a) + t.skip(b + 1),
        _ => t,
    }
}

/// The error given when a reply has no JSON block.
pub open spec fn missing_block_error(t: Seq<char>) -> Seq<char> {
    "AI không trả về khối JSON hợp lệ. Nội dung gốc: "@ + t
}

/// Splits a chapter reply into its JSON block and the remarks around it; a reply with no
/// block is an error that quotes the reply.
pub fn split_writing_reply(full_text: &str) -> (r: Result<(String, String), String>)
    ensures
        match crate::text::json_span(full_text@) {
            Some(block) => r matches Ok((b, extra)) && b@ == block && extra@ == text_around_block(
                full_text@,
            ),
            None => r matches Err(e) && e@ == missing_block_error(full_text@),
        },
{
    let v = chars_of(full_text);
    match (crate::text::find_char(&v, '{'), crate::text::rfind_char(&v, '}')) {
        (Some(a), Some(b)) => {
            if a <= b {
                let block = crate::text::string_from_chars(&v, a, b + 1);
                let before = crate::text::string_from_chars(&v, 0, a);
                let after = crate::text::string_from_chars(&v, b + 1, v.len());
                let extra = before.concat(after.as_str());
                assert(v@.take(a as int) =~= v@.subrange(0, a as int));
                assert(v@.skip(b + 1) =~= v@.subrange(b + 1, v.len() as int));
                Ok((block, extra))
            } else {
                Err(String::from_str("AI không trả về khối JSON hợp lệ. Nội dung gốc: ").concat(full_text))
            }
        },
        _ => Err(String::from_str("AI không trả về khối JSON hợp lệ. Nội dung gốc: ").concat(full_text)),
    }
}

/// What the JSON block of a written chapter holds: `chapter_content`,
/// `suggested_filename` and `thought_process` when they are strings.
pub struct WritingReply {
    pub chapter_content: Option<String>,
    pub suggested_filename: Option<String>,
    pub thought_process: Option<String>,
}

/// A written chapter to save, with the model's reasoning.
pub struct WrittenChapter {
    pub content: String,
    pub file: String,
    pub thought: String,
    pub word_count: usize,
}

/// Whether `r` is the chapter drawn from `reply`: the content is required; the file
/// defaults to `chapters/Unsaved_Chapter.md` and the reasoning to a fixed note.
pub open spec fn chapter_of(reply: WritingReply, r: Result<WrittenChapter, String>) -> bool {
    match reply.chapter_content {
        Some(c) => r matches Ok(w) && w.content@ == c@ && w.file@ == or_default(
            reply.suggested_filename,
            "chapters/Unsaved_Chapter.md"@,
        ) && w.thought@ == or_default(reply.thought_process, "Không có suy nghĩ."@)
            && w.word_count == word_count(c@),
        None => r matches Err(e) && e@ == "AI không trả về chapter_content"@,
    }
}

/// The chapter drawn from a writing reply: the content is required; the file defaults to
/// `chapters/Unsaved_Chapter.md` and the reasoning to a fixed note.
pub fn written_chapter(reply: &WritingReply) -> (r: Result<WrittenChapter, String>)
    ensures
        chapter_of(*reply, r),
{
    match &reply.chapter_content {
        Some(c) => {
            let content = c.clone();
            let file = or_default_exec(&reply.suggested_filename, "chapters/Unsaved_Chapter.md");
            let thought = or_default_exec(&reply.thought_process, "Không có suy nghĩ.");
            let word_count = count_words(content.as_str());
            Ok(WrittenChapter { content, file, thought, word_count })
        },
        None => Err(String::from_str("AI không trả về chapter_content")),
    }
}

/// The prompt that asks for the final report once a chapter is written and synchronised.
pub open spec fn final_report_prompt(file: Seq<char>, words: nat) -> Seq<char> {
    "HỆ THỐNG NHẮC NHỞ: Bạn đã hoàn thành việc sáng tác chương truyện mới, lưu thành công vào file '"@
        + file + "' (khoảng "@ + crate::text::decimal(words)
        + " từ), và đã đồng bộ hóa đầy đủ thực thể mới vào Wiki. Hãy viết một báo cáo ngắn gọn, thân thiện bằng Tiếng Việt để thông báo cho tác giả và mời họ tiếp tục sáng tác."@
}

/// The prompt that asks for the final report.
pub fn final_report_text(last_saved_file: &str, last_word_count: usize) -> (r: String)
    ensures
        r@ == final_report_prompt(last_saved_file@, last_word_count as nat),
{
    String::from_str(
        "HỆ THỐNG NHẮC NHỞ: Bạn đã hoàn thành việc sáng tác chương truyện mới, lưu thành công vào file '",
    ).concat(last_saved_file).concat("' (khoảng ").concat(
        crate::text::usize_to_decimal(last_word_count).as_str(),
    ).concat(
        " từ), và đã đồng bộ hóa đầy đủ thực thể mới vào Wiki. Hãy viết một báo cáo ngắn gọn, thân thiện bằng Tiếng Việt để thông báo cho tác giả và mời họ tiếp tục sáng tác.",
    )
}

/// One idea: a heading (`Ý tưởng` when missing) and its content.
pub open spec fn idea_text(idea: (Option<String>, Option<String>)) -> Seq<char> {
    "### "@ + or_default(idea.0, "Ý tưởng"@) + "\n"@ + or_default(idea.1, ""@) + "\n"@
}

/// The summary of an ideation reply shown to the author.
pub open spec fn ideation_summary(
    thought: Option<String>,
    ideas: Option<Seq<(Option<String>, Option<String>)>>,
    recommendation: Option<String>,
) -> Seq<char> {
    let ideas_text = match ideas {
        Some(v) => join(v.map_values(|i: (Option<String>, Option<String>)| idea_text(i)), "\n"@),
        None => Seq::empty(),
    };
    "\n💡 **Phân tích**: "@ + or_default(thought, ""@) + "\n\n"@ + ideas_text + "\n🌟 **Khuyến nghị**: "@
        + or_default(recommendation, ""@) + "\n"@
}

/// The summary of an ideation reply: the reasoning, each idea (`title`, `content`), and the
/// recommendation.
pub fn ideation_summary_text(
    thought: &Option<String>,
    ideas: &Option<Vec<(Option<String>, Option<String>)>>,
    recommendation: &Option<String>,
) -> (r: String)
    ensures
        r@ == ideation_summary(
            *thought,
            match ideas {
                Some(v) => Some(v@),
                None => None,
            },
            *recommendation,
        ),
{
    let ideas_text = match ideas {
        Some(v) => {
            let mut parts: Vec<String> = Vec::new();
            let mut i: usize = 0;
            while i < v.len()
                invariant
                    i <= v.len(),
                    views(parts@) == v@.take(i as int).map_values(
                        |x: (Option<String>, Option<String>)| idea_text(x),
                    ),
                decreases v.len() - i,
            {
                let ghost before = views(parts@);
                let t = String::from_str("### ").concat(or_default_exec(&v[i].0, "Ý tưởng").as_str()).concat(
                    "\n",
                ).concat(or_default_exec(&v[i].1, "").as_str()).concat("\n");
                parts.push(t);
                proof {
                    assert(views(parts@) =~= before.push(idea_text(v@[i as int])));
                    assert(v@.take(i + 1) =~= v@.take(i as int).push(v@[i as int]));
                }
                i += 1;
            }
            assert(v@.take(v.len() as int) =~= v@);
            crate::text::join_strings(&parts, "\n")
        },
        None => String::new(),
    };
    String::from_str("\n💡 **Phân tích**: ").concat(or_default_exec(thought, "").as_str()).concat(
        "\n\n",
    ).concat(ideas_text.as_str()).concat("\n🌟 **Khuyến nghị**: ").concat(
        or_default_exec(recommendation, "").as_str(),
    ).concat("\n")
}

/// The summary of an analysis reply shown to the author.
pub open spec fn analysis_summary(
    thought: Option<String>,
    status: Option<String>,
    plan: Option<Seq<Option<String>>>,
) -> Seq<char> {
    "\n💡 **Phân tích**: "@ + or_default(thought, ""@) + "\n🧐 **Đánh giá**: "@ + or_default(
        status,
        ""@,
    ) + "\n\n📋 **Kế hoạch hành động**:\n"@ + match plan {
        Some(p) => bullet_lines(p),
        None => Seq::empty(),
    } + "\n"@
}

/// The summary of an analysis reply: the reasoning, the status check and the plan.
pub fn analysis_summary_text(
    thought: &Option<String>,
    status: &Option<String>,
    plan: &Option<Vec<Option<String>>>,
) -> (r: String)
    ensures
        r@ == analysis_summary(
            *thought,
            *status,
            match plan {
                Some(p) => Some(p@),
                None => None,
            },
        ),
{
    let plan_text = match plan {
        Some(p) => bullet_list(p),
        None => String::new(),
    };
    String::from_str("\n💡 **Phân tích**: ").concat(or_default_exec(thought, "").as_str()).concat(
        "\n🧐 **Đánh giá**: ",
    ).concat(or_default_exec(status, "").as_str()).concat("\n\n📋 **Kế hoạch hành động**:\n").concat(
        plan_text.as_str(),
    ).concat("\n")
}

/// What the analysis prompt shows of the folder: its listing, or the error that listing it
/// gave.
pub open spec fn listing_context(r: Result<String, String>) -> Seq<char> {
    match r {
        Ok(s) => s@,
        Err(e) => "Lỗi liệt kê: "@ + e@,
    }
}

/// What the analysis prompt shows of `memory.md`: its text, or a note that there is none.
pub open spec fn memory_context(m: Option<String>) -> Seq<char> {
    match m {
        Some(s) => s@,
        None => "Chưa có file memory.md hoặc file trống."@,
    }
}

/// What the analysis prompt shows of the wiki: its list of entities, or the error that
/// listing it gave.
pub open spec fn wiki_context(r: Result<String, String>) -> Seq<char> {
    match r {
        Ok(s) => s@,
        Err(e) => "Lỗi Wiki: "@ + e@,
    }
}

/// The prompt that loads the project into an analysis: the agent's guidance, then the
/// folder, the memory and the wiki.
pub open spec fn analyze_prompt(
    guidance: Seq<char>,
    listing: Seq<char>,
    memory: Seq<char>,
    wiki: Seq<char>,
) -> Seq<char> {
    "PHÂN TÍCH VÀ NẠP KIẾN THỨC:\n"@ + guidance + "\n\n### CẤU TRÚC THƯ MỤC:\n"@ + listing
        + "\n\n### NỘI DUNG MEMORY.MD:\n"@ + memory + "\n\n### DANH SÁCH WIKI:\n"@ + wiki + "\n"@
}

/// Builds the analysis prompt from the agent's guidance and what reading the project gave.
pub fn analyze_prompt_text(
    guidance: &str,
    listing: &Result<String, String>,
    memory: &Option<String>,
    wiki: &Result<String, String>,
) -> (r: String)
    ensures
        r@ == analyze_prompt(
            guidance@,
            listing_context(*listing),
            memory_context(*memory),
            wiki_context(*wiki),
        ),
{
    let l = match listing {
        Ok(s) => s.clone(),
        Err(e) => String::from_str("Lỗi liệt kê: ").concat(e.as_str()),
    };
    let m = match memory {
        Some(s) => s.clone(),
        None => String::from_str("Chưa có file memory.md hoặc file trống."),
    };
    let w = match wiki {
        Ok(s) => s.clone(),
        Err(e) => String::from_str("Lỗi Wiki: ").concat(e.as_str()),
    };
    String::from_str("PHÂN TÍCH VÀ NẠP KIẾN THỨC:\n").concat(guidance).concat(
        "\n\n### CẤU TRÚC THƯ MỤC:\n",
    ).concat(l.as_str()).concat("\n\n### NỘI DUNG MEMORY.MD:\n").concat(m.as_str()).concat(
        "\n\n### DANH SÁCH WIKI:\n",
    ).concat(w.as_str()).concat("\n")
}

/// The error given when an analysis reply has no JSON block.
pub open spec fn missing_analysis_error(t: Seq<char>) -> Seq<char> {
    "AI không trả về khối JSON Analyze hợp lệ. Nội dung gốc: "@ + t
}

/// The JSON block of an analysis reply; a reply without one is an error that quotes it.
pub fn analysis_block(full_text: &str) -> (r: Result<String, String>)
    ensures
        match crate::text::json_span(full_text@) {
            Some(b) => r matches Ok(t) && t@ == b,
            None => r matches Err(e) && e@ == missing_analysis_error(full_text@),
        },
{
    match crate::text::extract_json_block(full_text) {
        Some(b) => Ok(b),
        None => Err(String::from_str("AI không trả về khối JSON Analyze hợp lệ. Nội dung gốc: ").concat(full_text)),
    }
}

/// The closing prompt of a writing run: the agent's completion prompt, then what was
/// written, where, and how many wiki entities were updated.
pub open spec fn writing_completion(prefix: Seq<char>, words: nat, file: Seq<char>, updates: nat) -> Seq<
    char,
> {
    prefix + "\n\n[HỆ THỐNG NHẮC NHỞ]: Bạn vừa hoàn thành việc viết khoảng "@ + crate::text::decimal(words)
        + " từ, lưu vào file '"@ + file + "'. Đã tự động cập nhật "@ + crate::text::decimal(updates)
        + " thực thể vào Wiki. Hãy dùng thông tin này để báo cáo ngắn gọn, thân thiện cho người dùng."@
}

/// Builds the closing prompt of a writing run.
pub fn writing_completion_prompt(prefix: &str, words: usize, file: &str, updates: usize) -> (r: String)
    ensures
        r@ == writing_completion(prefix@, words as nat, file@, updates as nat),
{
    String::from_str(prefix).concat("\n\n[HỆ THỐNG NHẮC NHỞ]: Bạn vừa hoàn thành việc viết khoảng ").concat(
        crate::text::usize_to_decimal(words).as_str(),
    ).concat(" từ, lưu vào file '").concat(file).concat("'. Đã tự động cập nhật ").concat(
        crate::text::usize_to_decimal(updates).as_str(),
    ).concat(" thực thể vào Wiki. Hãy dùng thông tin này để báo cáo ngắn gọn, thân thiện cho người dùng.")
}

/// The error given when the JSON block of a chapter reply does not parse: the parser's
/// message, then the block.
pub open spec fn chapter_parse_error(message: Seq<char>, block: Seq<char>) -> Seq<char> {
    "Lỗi parse JSON từ AI: "@ + message + ". Nội dung gốc: "@ + block
}

/// The chapter drawn from the JSON block `block` of a writing reply, given what parsing the
/// block gave: the reply, or the parser's error message.
pub fn chapter_from_block(block: &str, parsed: &Result<WritingReply, String>) -> (r: Result<
    WrittenChapter,
    String,
>)
    ensures
        match parsed {
            Ok(reply) => chapter_of(*reply, r),
            Err(m) => r matches Err(e) && e@ == chapter_parse_error(m@, block@),
        },
{
    match parsed {
        Ok(reply) => written_chapter(reply),
        Err(m) => Err(
            String::from_str("Lỗi parse JSON từ AI: ").concat(m.as_str()).concat(". Nội dung gốc: ").concat(
                block,
            ),
        ),
    }
}

/// What the JSON block of an ideation reply holds: `thought_process`, the `ideas` (each
/// `title` and `content`, when they are strings) and `recommendation`.
pub struct IdeationReply {
    pub thought_process: Option<String>,
    pub ideas: Option<Vec<(Option<String>, Option<String>)>>,
    pub recommendation: Option<String>,
}

/// The summary shown for an ideation reply, given what parsing its JSON block gave; a
/// block that does not parse is an error carrying the parser's message.
pub fn ideation_from_block(parsed: &Result<IdeationReply, String>) -> (r: Result<String, String>)
    ensures
        match parsed {
            Ok(rep) => r matches Ok(t) && t@ == ideation_summary(
                rep.thought_process,
                match rep.ideas {
                    Some(v) => Some(v@),
                    None => None,
                },
                rep.recommendation,
            ),
            Err(m) => r matches Err(e) && e@ == "Lỗi parse JSON Ideation: "@ + m@,
        },
{
    match parsed {
        Ok(rep) => Ok(ideation_summary_text(&rep.thought_process, &rep.ideas, &rep.recommendation)),
        Err(m) => Err(String::from_str("Lỗi parse JSON Ideation: ").concat(m.as_str())),
    }
}

/// What the JSON block of an analysis reply holds: `thought_process`, `status_check` and
/// the items of `plan` (each when it is a string).
pub struct AnalysisReply {
    pub thought_process: Option<String>,
    pub status_check: Option<String>,
    pub plan: Option<Vec<Option<String>>>,
}

/// The summary shown for an analysis reply, given what parsing its JSON block gave; a
/// block that does not parse is an error carrying the parser's message.
pub fn analysis_from_block(parsed: &Result<AnalysisReply, String>) -> (r: Result<String, String>)
    ensures
        match parsed {
            Ok(rep) => r matches Ok(t) && t@ == analysis_summary(
                rep.thought_process,
                rep.status_check,
                match rep.plan {
                    Some(p) => Some(p@),
                    None => None,
                },
            ),
            Err(m) => r matches Err(e) && e@ == "Lỗi parse JSON Analyze: "@ + m@,
        },
{
    match parsed {
        Ok(rep) => Ok(analysis_summary_text(&rep.thought_process, &rep.status_check, &rep.plan)),
        Err(m) => Err(String::from_str("Lỗi parse JSON Analyze: ").concat(m.as_str())),
    }
}

} // verus!
