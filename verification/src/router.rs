//! The intent router: which agent a message is for, from the classifier model's reply.

use vstd::prelude::*;
use crate::text::{chars_of, find_char, first_pos, last_pos, rfind_char, str_eq, string_from_chars};

verus! {

/// The agents the router can choose.
#[derive(Clone, Copy, Debug, PartialEq, Eq, Structural)]
pub enum AgentType {
    Chat,
    Ideation,
    Writing,
    General,
}

impl AgentType {
    /// The label of the agent in the classifier's replies.
    pub open spec fn label(&self) -> Seq<char> {
        match self {
            AgentType::Chat => "chat"@,
            AgentType::Ideation => "ideation"@,
            AgentType::Writing => "writing"@,
            AgentType::General => "general"@,
        }
    }

    /// The label of the agent in the classifier's replies.
    pub fn as_str(&self) -> (r: &'static str)
        ensures
            r@ == self.label(),
    {
        match self {
            AgentType::Chat => "chat",
            AgentType::Ideation => "ideation",
            AgentType::Writing => "writing",
            AgentType::General => "general",
        }
    }
}

/// The agent for the `intent` the classifier answered; anything else, or no intent, is the
/// general agent.
pub open spec fn agent_for_intent(intent: Option<Seq<char>>) -> AgentType {
    match intent {
        Some(l) => if l == "chat"@ {
            AgentType::Chat
        } else if l == "ideation"@ {
            AgentType::Ideation
        } else if l == "writing"@ {
            AgentType::Writing
        } else {
            AgentType::General
        },
        None => AgentType::General,
    }
}

/// The agent for the `intent` the classifier answered.
pub fn intent_to_agent(intent: Option<&str>) -> (a: AgentType)
    ensures
        a == agent_for_intent(match intent {
            Some(s) => Some(s@),
            None => None,
        }),
{
    match intent {
        Some(l) => if str_eq(l, "chat") {
            AgentType::Chat
        } else if str_eq(l, "ideation") {
            AgentType::Ideation
        } else if str_eq(l, "writing") {
            AgentType::Writing
        } else {
            AgentType::General
        },
        None => AgentType::General,
    }
}

/// Whether the classifier's text has its last `}` before its first `{` with something in
/// between, the one shape on which cutting out the JSON object is not possible (a `}`
/// right before the first `{` cuts out nothing).
pub open spec fn braces_reversed(t: Seq<char>) -> bool {
    match (first_pos(t, '{'), last_pos(t, '}')) {
        (Some(a), Some(b)) => b + 1 < a,
        _ => false,
    }
}

/// The part of the classifier's text that holds its JSON answer: from the first `{` to the
/// last `}` when both occur, otherwise the whole text.
pub open spec fn intent_json_text(t: Seq<char>) -> Seq<char> {
    match (first_pos(t, '{'), last_pos(t, '}')) {
        (Some(a), Some(b)) => t.subrange(a, b + 1),
        _ => t,
    }
}

/// Cuts the JSON answer out of the classifier's text (which may wrap it in a code fence).
pub fn intent_json(text: &str) -> (r: String)
    requires
        !braces_reversed(text@),
    ensures
        r@ == intent_json_text(text@),
{
    let v = chars_of(text);
    match find_char(&v, '{') {
        Some(a) => match rfind_char(&v, '}') {
            Some(b) => string_from_chars(&v, a, b + 1),
            None => string_from_chars(&v, 0, v.len()),
        },
        None => string_from_chars(&v, 0, v.len()),
    }
}

} // verus!

verus! {

/// Whether cutting the JSON answer out of the classifier's text is not possible.
pub fn has_reversed_braces(text: &str) -> (b: bool)
    ensures
        b == braces_reversed(text@),
{
    let v = chars_of(text);
    match (find_char(&v, '{'), rfind_char(&v, '}')) {
        (Some(a), Some(b)) => b + 1 < a,
        _ => false,
    }
}

/// The error given when the classifier's answer is not JSON: the parser's message, then
/// the answer.
pub open spec fn classifier_parse_error(message: Seq<char>, text: Seq<char>) -> Seq<char> {
    "Lỗi parse kết quả router: "@ + message + " | Text: "@ + text
}

/// The agent chosen by the classifier's answer `text`, given what parsing its JSON part
/// gave: its `intent` when that is a string, or the parser's error message.
pub fn classify_reply(text: &str, parsed: &Result<Option<String>, String>) -> (r: Result<
    AgentType,
    String,
>)
    ensures
        match parsed {
            Ok(intent) => r == Ok::<AgentType, String>(
                agent_for_intent(
                    match intent {
                        Some(s) => Some(s@),
                        None => None,
                    },
                ),
            ),
            Err(m) => r matches Err(e) && e@ == classifier_parse_error(m@, text@),
        },
{
    match parsed {
        Ok(intent) => {
            let i = match intent {
                Some(s) => Some(s.as_str()),
                None => None,
            };
            Ok(intent_to_agent(i))
        },
        Err(m) => Err(
            String::from_str("Lỗi parse kết quả router: ").concat(m.as_str()).concat(" | Text: ").concat(
                text,
            ),
        ),
    }
}

/// The intent the classifier answers is the agent chosen: when it is one of the labels
/// `chat`, `ideation`, `writing` or `general`, the chosen agent has that label; any other
/// answer, or none, gives the general agent.
pub proof fn law_intent_names_the_agent(intent: Option<Seq<char>>)
    ensures
        match intent {
            Some(s) => (s == "chat"@ || s == "ideation"@ || s == "writing"@ || s == "general"@)
                ==> agent_for_intent(intent).label() == s,
            None => agent_for_intent(intent) == AgentType::General,
        },
        match intent {
            Some(s) => !(s == "chat"@ || s == "ideation"@ || s == "writing"@) ==> agent_for_intent(
                intent,
            ) == AgentType::General,
            None => true,
        },
{
}

} // verus!
