//! The specialised agents and the state of one agent run.

use vstd::prelude::*;
use vstd::string::*;
use crate::gemini::GeminiContent;
use crate::writing::{ChapterDraft, SyncOutcome};
use crate::text::{lowercase, str_eq, to_lowercase};

verus! {

/// The specialised agents the assistant can hand a request to.
#[derive(Clone, Copy, Debug, PartialEq, Eq, Structural)]
pub enum AgentType {
    Chat,
    Ideation,
    Writing,
    General,
}

impl AgentType {
    /// The agent's identifier.
    pub open spec fn name(self) -> Seq<char> {
        match self {
            AgentType::Chat => "chat"@,
            AgentType::Ideation => "ideation"@,
            AgentType::Writing => "writing"@,
            AgentType::General => "general"@,
        }
    }

    /// The agent's identifier.
    pub fn as_str(self) -> (r: &'static str)
        ensures
            r@ == self.name(),
    {
        match self {
            AgentType::Chat => "chat",
            AgentType::Ideation => "ideation",
            AgentType::Writing => "writing",
            AgentType::General => "general",
        }
    }

    /// The agent's label as shown to the author.
    pub open spec fn label(self) -> Seq<char> {
        match self {
            AgentType::Chat => "Chat Agent (Trò chuyện & Tìm kiếm)"@,
            AgentType::Ideation => "Ideation Agent (Lên ý tưởng)"@,
            AgentType::Writing => "Writing Agent (Sáng tác & Chỉnh sửa)"@,
            AgentType::General => "General Agent (Xử lý tác vụ tổng hợp)"@,
        }
    }

    /// The agent's label as shown to the author.
    pub fn description(self) -> (r: &'static str)
        ensures
            r@ == self.label(),
    {
        match self {
            AgentType::Chat => "Chat Agent (Trò chuyện & Tìm kiếm)",
            AgentType::Ideation => "Ideation Agent (Lên ý tưởng)",
            AgentType::Writing => "Writing Agent (Sáng tác & Chỉnh sửa)",
            AgentType::General => "General Agent (Xử lý tác vụ tổng hợp)",
        }
    }
}

/// `c` in upper case, for an ASCII lower-case letter; other characters as they are.
pub open spec fn ascii_upper(c: char) -> char {
    if 'a' as u32 <= c as u32 <= 'z' as u32 {
        ((c as u32) - 32) as char
    } else {
        c
    }
}

/// `s` with its first character in upper case.
pub open spec fn capitalized(s: Seq<char>) -> Seq<char> {
    if s.len() == 0 {
        s
    } else {
        s.update(0, ascii_upper(s[0]))
    }
}

proof fn lemma_label_shape(t: AgentType)
    ensures
        crate::text::starts_with(t.label(), capitalized(t.name()) + " Agent ("@),
        t.label().len() > 0,
        t.label().last() == ')',
{
    reveal_strlit(" Agent (");
    match t {
        AgentType::Chat => {
            reveal_strlit("chat");
            reveal_strlit("Chat Agent (Trò chuyện & Tìm kiếm)");
            assert(t.label().subrange(0, 12) =~= capitalized(t.name()) + " Agent ("@);
        },
        AgentType::Ideation => {
            reveal_strlit("ideation");
            reveal_strlit("Ideation Agent (Lên ý tưởng)");
            assert(t.label().subrange(0, 16) =~= capitalized(t.name()) + " Agent ("@);
        },
        AgentType::Writing => {
            reveal_strlit("writing");
            reveal_strlit("Writing Agent (Sáng tác & Chỉnh sửa)");
            assert(t.label().subrange(0, 15) =~= capitalized(t.name()) + " Agent ("@);
        },
        AgentType::General => {
            reveal_strlit("general");
            reveal_strlit("General Agent (Xử lý tác vụ tổng hợp)");
            assert(t.label().subrange(0, 15) =~= capitalized(t.name()) + " Agent ("@);
        },
    }
}

/// Each agent's label is its identifier capitalised, then ` Agent (`, a description and
/// a closing `)`; different agents have different labels (and identifiers).
pub proof fn law_agent_labels(t: AgentType, u: AgentType)
    ensures
        crate::text::starts_with(t.label(), capitalized(t.name()) + " Agent ("@),
        t.label().len() > 0 && t.label().last() == ')',
        t != u ==> t.label() != u.label() && t.name() != u.name(),
{
    lemma_label_shape(t);
    lemma_label_shape(u);
    if t != u {
        reveal_strlit("chat");
        reveal_strlit("ideation");
        reveal_strlit("writing");
        reveal_strlit("general");
        assert(t.name()[0] != u.name()[0]);
        assert(capitalized(t.name())[0] != capitalized(u.name())[0]);
        let pt = capitalized(t.name()) + " Agent ("@;
        let pu = capitalized(u.name()) + " Agent ("@;
        assert(t.label().subrange(0, pt.len() as int)[0] == pt[0]);
        assert(u.label().subrange(0, pu.len() as int)[0] == pu[0]);
        assert(t.label()[0] != u.label()[0]);
    }
}

/// The agent chosen for a lower-cased agent name: `chat`; `ideation` or `ide`; `writing` or
/// `writting`; anything else is the general agent.
pub open spec fn agent_for_name(s: Seq<char>) -> AgentType {
    if s == "chat"@ {
        AgentType::Chat
    } else if s == "ideation"@ || s == "ide"@ {
        AgentType::Ideation
    } else if s == "writing"@ || s == "writting"@ {
        AgentType::Writing
    } else {
        AgentType::General
    }
}

/// The agent for an already lower-cased agent name.
pub fn agent_from_lowercase(s: &str) -> (a: AgentType)
    ensures
        a == agent_for_name(s@),
{
    if str_eq(s, "chat") {
        AgentType::Chat
    } else if str_eq(s, "ideation") || str_eq(s, "ide") {
        AgentType::Ideation
    } else if str_eq(s, "writing") || str_eq(s, "writting") {
        AgentType::Writing
    } else {
        AgentType::General
    }
}

/// The agent the author asked for, by name, case-insensitively.
pub fn select_agent(agent_type: &str) -> (a: AgentType)
    ensures
        a == agent_for_name(lowercase(agent_type@)),
{
    let lower = to_lowercase(agent_type);
    agent_from_lowercase(lower.as_str())
}

/// The state of one run of an agent over the author's request.
pub struct AgentState {
    pub root_path: String,
    pub api_key: String,
    pub model: String,
    pub agent_type: AgentType,
    pub system_instruction: Option<GeminiContent>,
    pub contents: Vec<GeminiContent>,
    /// Model calls made so far in this run, over all its steps.
    pub loop_count: u32,
    pub last_chapter_content: String,
    pub last_saved_file: String,
    pub last_word_count: usize,
    pub last_wiki_updates_count: usize,
    /// The knowledge files the author selected, as one block of text.
    pub selected_files_content: String,
}

impl AgentState {
    /// The state at the start of a run: no messages, no instruction, nothing written yet.
    pub fn new(
        root_path: String,
        api_key: String,
        model: String,
        agent_type: AgentType,
        selected_files_content: String,
    ) -> (r: Self)
        ensures
            r.root_path == root_path,
            r.api_key == api_key,
            r.model == model,
            r.agent_type == agent_type,
            r.selected_files_content == selected_files_content,
            r.system_instruction is None,
            r.contents@.len() == 0,
            r.loop_count == 0,
            r.last_chapter_content@.len() == 0,
            r.last_saved_file@.len() == 0,
            r.last_word_count == 0,
            r.last_wiki_updates_count == 0,
    {
        AgentState {
            root_path,
            api_key,
            model,
            agent_type,
            system_instruction: None,
            contents: Vec::new(),
            loop_count: 0,
            last_chapter_content: String::new(),
            last_saved_file: String::new(),
            last_word_count: 0,
            last_wiki_updates_count: 0,
            selected_files_content,
        }
    }
}

/// Whether `a` and `b` agree on every field but the records of the last draft and sync.
pub open spec fn same_run(a: AgentState, b: AgentState) -> bool {
    &&& a.root_path == b.root_path
    &&& a.api_key == b.api_key
    &&& a.model == b.model
    &&& a.agent_type == b.agent_type
    &&& a.system_instruction == b.system_instruction
    &&& a.contents == b.contents
    &&& a.loop_count == b.loop_count
    &&& a.selected_files_content == b.selected_files_content
}

impl AgentState {
    /// Records the chapter draft just written: its text, its file and its word count.
    pub fn record_draft(&mut self, draft: ChapterDraft)
        ensures
            final(self).last_chapter_content == draft.content,
            final(self).last_saved_file == draft.file,
            final(self).last_word_count == draft.word_count,
            final(self).last_wiki_updates_count == old(self).last_wiki_updates_count,
            same_run(*final(self), *old(self)),
    {
        self.last_chapter_content = draft.content;
        self.last_saved_file = draft.file;
        self.last_word_count = draft.word_count;
    }

    /// Records what the sync step reported: the count of wiki updates, when it gave one.
    pub fn record_sync(&mut self, outcome: &SyncOutcome)
        ensures
            final(self).last_wiki_updates_count == match outcome.wiki_updates {
                Some(n) => n,
                None => old(self).last_wiki_updates_count,
            },
            final(self).last_chapter_content == old(self).last_chapter_content,
            final(self).last_saved_file == old(self).last_saved_file,
            final(self).last_word_count == old(self).last_word_count,
            same_run(*final(self), *old(self)),
    {
        if let Some(n) = outcome.wiki_updates {
            self.last_wiki_updates_count = n;
        }
    }
}

/// How a chat request is carried out once its agent is chosen.
pub enum ChatFlow {
    /// One tool-using loop of at most `max_local_loops` model calls, announced as `step`.
    AgentLoop { step: &'static str, max_local_loops: u32 },
    /// A writing step, then a step that brings the wiki and the memory up to date.
    WriteThenSync,
}

/// The flow of each agent: the chat agent talks in a loop of up to three calls, the
/// ideation agent thinks in a loop of up to five, the writing and general agents write
/// and then synchronise.
pub open spec fn flow_matches(a: AgentType, f: ChatFlow) -> bool {
    match a {
        AgentType::Chat => f matches ChatFlow::AgentLoop { step, max_local_loops } && step@
            == "chatting"@ && max_local_loops == 3,
        AgentType::Ideation => f matches ChatFlow::AgentLoop { step, max_local_loops } && step@
            == "thinking"@ && max_local_loops == 5,
        _ => f is WriteThenSync,
    }
}

/// The flow by which agent `a` carries out a chat request.
pub fn chat_flow(a: AgentType) -> (f: ChatFlow)
    ensures
        flow_matches(a, f),
{
    match a {
        AgentType::Chat => ChatFlow::AgentLoop { step: "chatting", max_local_loops: 3 },
        AgentType::Ideation => ChatFlow::AgentLoop { step: "thinking", max_local_loops: 5 },
        _ => ChatFlow::WriteThenSync,
    }
}

/// The note streamed to the author when an agent is chosen.
pub open spec fn selection_note(a: AgentType) -> Seq<char> {
    "=> Đã chọn Agent chuyên biệt: "@ + a.label() + "\n"@
}

/// The note announcing the chosen agent.
pub fn selection_note_text(a: AgentType) -> (r: String)
    ensures
        r@ == selection_note(a),
{
    String::from_str("=> Đã chọn Agent chuyên biệt: ").concat(a.description()).concat("\n")
}

/// The agent the author names is the one chosen: an agent's own identifier selects it,
/// `ide` and `writting` select the ideation and writing agents, and any other name
/// selects the general agent.
pub proof fn law_agent_name_selects(s: Seq<char>)
    ensures
        s == "chat"@ || s == "ideation"@ || s == "writing"@ || s == "general"@ ==> agent_for_name(
            s,
        ).name() == s,
        s == "ide"@ ==> agent_for_name(s) == AgentType::Ideation,
        s == "writting"@ ==> agent_for_name(s) == AgentType::Writing,
        !(s == "chat"@ || s == "ideation"@ || s == "writing"@ || s == "ide"@ || s
            == "writting"@) ==> agent_for_name(s) == AgentType::General,
{
    reveal_strlit("chat");
    reveal_strlit("ideation");
    reveal_strlit("ide");
    reveal_strlit("writing");
    reveal_strlit("writting");
    reveal_strlit("general");
    assert("writting"@[0] != "ideation"@[0]);
    assert("general"@[0] != "writing"@[0]);
    assert("ide"@.len() != "chat"@.len());
    if s == "ide"@ {
        assert(s != "chat"@);
        assert(agent_for_name(s) == AgentType::Ideation);
    }
}

} // verus!
