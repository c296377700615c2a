//! The coordinator: routing a request to an agent, or answering it directly.

use vstd::prelude::*;
use vstd::string::*;
use crate::agent::AgentType;
use crate::gemini::{content_views, text_message, GeminiContent};
use crate::instructions::COORDINATOR_SYSTEM_PROMPT;
use crate::text::str_eq;

verus! {

/// What the coordinator's JSON reply holds: `explanation` and `agent` when they are strings.
pub struct CoordinatorReply {
    pub explanation: Option<String>,
    pub agent: Option<String>,
}

/// The agent named by the coordinator.
pub open spec fn agent_named(s: Seq<char>) -> AgentType {
    if s == "chat"@ {
        AgentType::Chat
    } else if s == "ideation"@ {
        AgentType::Ideation
    } else if s == "writing"@ {
        AgentType::Writing
    } else {
        AgentType::General
    }
}

/// Whether the coordinator answered directly (no agent, or `null`, or an empty name).
pub open spec fn answers_directly(agent: Option<String>) -> bool {
    match agent {
        Some(a) => a@ == "null"@ || a@ == ""@,
        None => true,
    }
}

/// The explanation, empty when missing.
pub open spec fn explanation_text(r: CoordinatorReply) -> Seq<char> {
    match r.explanation {
        Some(e) => e@,
        None => Seq::empty(),
    }
}

/// Acts on the coordinator's reply (when its text parsed as JSON): a direct answer is added
/// to the history as the model's message and no agent is chosen; otherwise the named agent
/// is chosen and the history is unchanged.
pub fn handle_coordinate_response(contents: &mut Vec<GeminiContent>, reply: &Option<CoordinatorReply>) -> (r:
    Option<AgentType>)
    ensures
        match reply {
            None => r is None && final(contents)@ == old(contents)@,
            Some(rep) => if answers_directly(rep.agent) {
                r is None && content_views(final(contents)@) == content_views(old(contents)@).push(
                    text_message("model"@, explanation_text(*rep)),
                )
            } else {
                r == Some(agent_named(rep.agent->0@)) && final(contents)@ == old(contents)@
            },
        },
{
    match reply {
        None => None,
        Some(rep) => {
            let direct = match &rep.agent {
                Some(a) => str_eq(a.as_str(), "null") || str_eq(a.as_str(), ""),
                None => true,
            };
            if direct {
                let explanation = match &rep.explanation {
                    Some(e) => e.clone(),
                    None => String::new(),
                };
                let ghost before = content_views(contents@);
                let ghost ev = explanation@;
                contents.push(GeminiContent::from_text(String::from_str("model"), explanation));
                assert(content_views(contents@) =~= before.push(text_message("model"@, ev)));
                None
            } else {
                let name = match &rep.agent {
                    Some(a) => a.as_str(),
                    None => "",
                };
                let agent = if str_eq(name, "chat") {
                    AgentType::Chat
                } else if str_eq(name, "ideation") {
                    AgentType::Ideation
                } else if str_eq(name, "writing") {
                    AgentType::Writing
                } else {
                    AgentType::General
                };
                Some(agent)
            }
        },
    }
}

/// The note shown when the coordinator routes a request.
pub open spec fn routing_note(explanation: Seq<char>, agent: AgentType) -> Seq<char> {
    "=> "@ + explanation + "\n=> Đã điều phối tới: "@ + agent.label() + "\n"@
}

/// The note shown when the coordinator routes a request.
pub fn routing_note_text(explanation: &str, agent: AgentType) -> (r: String)
    ensures
        r@ == routing_note(explanation@, agent),
{
    String::from_str("=> ").concat(explanation).concat("\n=> Đã điều phối tới: ").concat(
        agent.description(),
    ).concat("\n")
}

/// The system instruction used while the coordinator routes a request.
pub fn coordinator_instruction() -> (r: GeminiContent)
    ensures
        r@ == text_message("system"@, COORDINATOR_SYSTEM_PROMPT@),
{
    GeminiContent::from_text(String::from_str("system"), String::from_str(COORDINATOR_SYSTEM_PROMPT))
}

/// The agent the coordinator names is the one chosen: when the name is one of the agents'
/// identifiers `chat`, `ideation` or `writing`, the chosen agent has that identifier; any
/// other name routes to the general agent.
pub proof fn law_coordinator_names_the_agent(s: Seq<char>)
    ensures
        s == "chat"@ || s == "ideation"@ || s == "writing"@ ==> agent_named(s).name() == s,
        !(s == "chat"@ || s == "ideation"@ || s == "writing"@) ==> agent_named(s)
            == AgentType::General,
{
}

} // verus!
