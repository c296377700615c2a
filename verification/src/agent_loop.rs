//! The shared agent loop: reading the model's reply, bounding the rounds, and pruning the
//! conversation history.

use vstd::prelude::*;
use vstd::utf8::encode_utf8;
use crate::gemini::{
    content_views, part_views, ContentView, FunctionCallData, FunctionResponseData,
    GeminiContent, GeminiPart, PartView, ToolResponse,
};
use vstd::string::*;
use crate::text::{chars_of, contains_seq, seq_contains, str_eq};

verus! {

/// A hexadecimal digit, in lower case, of the value `n` (below 16).
pub open spec fn hex_digit(n: int) -> char {
    if n < 10 {
        (48 + n) as char
    } else {
        (87 + n) as char
    }
}

/// How `serde_json` writes one character inside a JSON string: `"` and `\` behind a
/// backslash, the control characters with a short escape (`\b`, `\t`, `\n`, `\f`, `\r`) or
/// as `\u00XX` (lower-case hexadecimal), every other character as it is.
pub open spec fn json_escape_char(c: char) -> Seq<char> {
    let n = c as int;
    if c == '"' {
        seq!['\\', '"']
    } else if c == '\\' {
        seq!['\\', '\\']
    } else if n == 8 {
        seq!['\\', 'b']
    } else if n == 9 {
        seq!['\\', 't']
    } else if n == 10 {
        seq!['\\', 'n']
    } else if n == 12 {
        seq!['\\', 'f']
    } else if n == 13 {
        seq!['\\', 'r']
    } else if n < 32 {
        seq!['\\', 'u', '0', '0', hex_digit(n / 16), hex_digit(n % 16)]
    } else {
        seq![c]
    }
}

/// The escaped characters of `s`, in order.
pub open spec fn json_escaped(s: Seq<char>) -> Seq<char>
    decreases s.len(),
{
    if s.len() == 0 {
        Seq::empty()
    } else {
        json_escaped(s.drop_last()) + json_escape_char(s.last())
    }
}

/// `s` as a JSON string: escaped, between double quotes.
pub open spec fn json_string(s: Seq<char>) -> Seq<char> {
    seq!['"'] + json_escaped(s) + seq!['"']
}

/// The compact JSON text of the one-entry object `{key: value}`, as `serde_json` writes it.
pub open spec fn json_pair(key: Seq<char>, value: Seq<char>) -> Seq<char> {
    seq!['{'] + json_string(key) + seq![':'] + json_string(value) + seq!['}']
}

/// `serde_json::to_string` of the object `{key: value}`: a brace, the key and the value as
/// escaped JSON strings separated by `:`, and a closing brace, with no spaces (the compact
/// formatter). Writing a map of strings cannot fail; the error arm gives the empty string.
#[verifier::external_body]
fn serialize_pair(key: &str, value: &str) -> (r: String)
    ensures
        r@ == json_pair(key@, value@),
{
    match serde_json::to_string(&std::collections::BTreeMap::from([(key, value)])) {
        Ok(s) => s,
        Err(_) => String::new(),
    }
}

/// The notice that replaces a large tool answer already used in earlier rounds.
pub open spec fn truncated_notice() -> Seq<char> {
    "Content truncated to save tokens (information already processed in previous steps)."@
}

/// The JSON key under which a tool answer is sent.
pub open spec fn response_key(is_error: bool) -> Seq<char> {
    if is_error {
        "error"@
    } else {
        "result"@
    }
}

/// Whether the JSON text of a tool answer takes more than 1000 bytes.
pub open spec fn json_oversized(json: Seq<char>) -> bool {
    encode_utf8(json).len() as usize > 1000
}

/// Whether a tool answer, written as JSON, takes more than 1000 bytes.
pub open spec fn oversized(is_error: bool, text: Seq<char>) -> bool {
    json_oversized(json_pair(response_key(is_error), text))
}

/// A part after pruning: a large tool answer is replaced by the notice.
pub open spec fn shrink_part(p: PartView) -> PartView {
    match p {
        PartView::Response { name, is_error, text } => if oversized(is_error, text) {
            PartView::Response { name, is_error: false, text: truncated_notice() }
        } else {
            p
        },
        _ => p,
    }
}

/// A kept message after pruning; `pos` is its place among the five newest (0 the oldest).
pub open spec fn shrink_message(m: ContentView, pos: int) -> ContentView {
    if m.role == "function"@ && pos < 4 {
        ContentView { role: m.role, parts: m.parts.map_values(|p: PartView| shrink_part(p)) }
    } else {
        m
    }
}

/// The history after pruning: unchanged up to six messages; otherwise the first message and
/// the five newest, the tool answers of all but the newest of them shrunk.
pub open spec fn pruned(c: Seq<ContentView>) -> Seq<ContentView> {
    if c.len() <= 6 {
        c
    } else {
        seq![c[0]] + Seq::new(5, |i: int| shrink_message(c[c.len() - 5 + i], i))
    }
}

/// A tool answer once its JSON text `json` is known: over 1000 bytes it is replaced by the
/// notice (sent as a result), otherwise it is kept.
pub fn shrink_answer(answer: FunctionResponseData, json: &str) -> (r: FunctionResponseData)
    ensures
        json_oversized(json@) ==> r.name == answer.name && (r.response matches ToolResponse::Result(
            t,
        ) && t@ == truncated_notice()),
        !json_oversized(json@) ==> r == answer,
{
    if json.len() > 1000 {
        let notice = "Content truncated to save tokens (information already processed in previous steps).";
        FunctionResponseData { name: answer.name, response: ToolResponse::Result(String::from_str(notice)) }
    } else {
        answer
    }
}

fn shrink_response(part: GeminiPart) -> (r: GeminiPart)
    ensures
        r@ == shrink_part(part@),
{
    match part {
        GeminiPart::FunctionResponse { function_response } => {
            let json = match &function_response.response {
                ToolResponse::Result(t) => serialize_pair("result", t.as_str()),
                ToolResponse::Error(t) => serialize_pair("error", t.as_str()),
            };
            GeminiPart::FunctionResponse {
                function_response: shrink_answer(function_response, json.as_str()),
            }
        },
        other => other,
    }
}

fn shrink_content(msg: GeminiContent, pos: usize) -> (r: GeminiContent)
    ensures
        r@ == shrink_message(msg@, pos as int),
{
    if pos < 4 && str_eq(msg.role.as_str(), "function") {
        let ghost all = part_views(msg.parts@);
        let mut out: Vec<GeminiPart> = Vec::new();
        let mut k: usize = 0;
        while k < msg.parts.len()
            invariant
                k <= msg.parts.len(),
                all == part_views(msg.parts@),
                part_views(out@) == all.take(k as int).map_values(|p: PartView| shrink_part(p)),
            decreases msg.parts.len() - k,
        {
            let p = msg.parts[k].duplicate();
            let ghost before = part_views(out@);
            out.push(shrink_response(p));
            proof {
                assert(part_views(out@) =~= before.push(shrink_part(all[k as int])));
                assert(all.take(k + 1) =~= all.take(k as int).push(all[k as int]));
            }
            k += 1;
        }
        assert(all.take(msg.parts.len() as int) =~= all);
        GeminiContent { role: msg.role, parts: out }
    } else {
        msg
    }
}

/// Prunes the history to save tokens: when it holds more than six messages, keeps the first
/// and the five newest, and in tool-answer messages other than the newest replaces answers
/// larger than 1000 bytes of JSON by a short notice.
pub fn prune_history(contents: &mut Vec<GeminiContent>)
    ensures
        content_views(final(contents)@) == pruned(content_views(old(contents)@)),
{
    if contents.len() <= 6 {
        return;
    }
    let ghost c = content_views(contents@);
    let n = contents.len();
    let mut new_contents: Vec<GeminiContent> = Vec::new();
    new_contents.push(contents[0].duplicate());
    let mut i: usize = 0;
    while i < 5
        invariant
            n == contents.len() > 6,
            c == content_views(contents@),
            i <= 5,
            new_contents.len() == i + 1,
            content_views(new_contents@) == seq![c[0]] + Seq::new(
                i as nat,
                |k: int| shrink_message(c[n - 5 + k], k),
            ),
        decreases 5 - i,
    {
        let msg = contents[n - 5 + i].duplicate();
        assert(msg@ == c[n - 5 + i]);
        let ghost before = content_views(new_contents@);
        new_contents.push(shrink_content(msg, i));
        proof {
            assert(content_views(new_contents@) =~= before.push(shrink_message(c[n - 5 + i], i as int)));
            assert(content_views(new_contents@) =~= seq![c[0]] + Seq::new(
                (i + 1) as nat,
                |k: int| shrink_message(c[n - 5 + k], k),
            ));
        }
        i += 1;
    }
    *contents = new_contents;
}

/// The `(name, arguments)` of the function calls among `ps`, in order.
pub open spec fn calls_of(ps: Seq<PartView>) -> Seq<(Seq<char>, Seq<char>)>
    decreases ps.len(),
{
    if ps.len() == 0 {
        Seq::empty()
    } else {
        let r = calls_of(ps.drop_last());
        match ps.last() {
            PartView::Call { name, args } => r.push((name, args)),
            _ => r,
        }
    }
}

/// Whether a text announces that the work is finished.
pub open spec fn announces_done(t: Seq<char>) -> bool {
    contains_seq(t, "DONE_EXECUTION"@) || contains_seq(t, "Mục tiêu đã hoàn thành"@)
}

/// Whether some text part of `ps` announces that the work is finished.
pub open spec fn signals_done(ps: Seq<PartView>) -> bool {
    exists|i: int| 0 <= i < ps.len() && (#[trigger] ps[i] matches PartView::Text(t) && announces_done(t))
}

/// The views of a sequence of calls.
pub open spec fn call_views(cs: Seq<FunctionCallData>) -> Seq<(Seq<char>, Seq<char>)> {
    cs.map_values(|c: FunctionCallData| c@)
}

/// Reads the model's reply: the function calls it asks for, and whether one of its texts
/// announces that the work is finished.
pub fn process_model_parts(parts: &Vec<GeminiPart>) -> (r: (Vec<FunctionCallData>, bool))
    ensures
        call_views(r.0@) == calls_of(part_views(parts@)),
        r.1 == signals_done(part_views(parts@)),
{
    let ghost ps = part_views(parts@);
    let done_a = chars_of("DONE_EXECUTION");
    let done_b = chars_of("Mục tiêu đã hoàn thành");
    let mut calls: Vec<FunctionCallData> = Vec::new();
    let mut done = false;
    let mut i: usize = 0;
    while i < parts.len()
        invariant
            i <= parts.len(),
            ps == part_views(parts@),
            done_a@ == "DONE_EXECUTION"@,
            done_b@ == "Mục tiêu đã hoàn thành"@,
            call_views(calls@) == calls_of(ps.take(i as int)),
            done == signals_done(ps.take(i as int)),
        decreases parts.len() - i,
    {
        let ghost before = ps.take(i as int);
        let ghost after = ps.take(i + 1);
        assert(after.drop_last() =~= before);
        assert(after.last() == parts@[i as int]@);
        let ghost old_calls = call_views(calls@);
        match &parts[i] {
            GeminiPart::FunctionCall { function_call } => {
                calls.push(function_call.duplicate());
                assert(call_views(calls@) =~= old_calls.push(function_call@));
            },
            GeminiPart::Text { text } => {
                let t = chars_of(text.as_str());
                if seq_contains(&t, &done_a) || seq_contains(&t, &done_b) {
                    done = true;
                }
            },
            GeminiPart::FunctionResponse { .. } => {},
        }
        proof {
            if signals_done(after) && !signals_done(before) {
                let k = choose|k: int|
                    0 <= k < after.len() && (#[trigger] after[k] matches PartView::Text(t)
                        && announces_done(t));
                assert(k == i);
            }
            if signals_done(before) {
                let k = choose|k: int|
                    0 <= k < before.len() && (#[trigger] before[k] matches PartView::Text(t)
                        && announces_done(t));
                assert(after[k] == before[k]);
            }
        }
        i += 1;
    }
    assert(ps.take(parts.len() as int) =~= ps);
    (calls, done)
}

} // verus!

verus! {

/// Pruning keeps at most six messages: the first message, and the newest messages with their
/// roles, the newest one untouched; pruning a pruned history changes nothing.
pub proof fn law_prune_history_shape(c: Seq<ContentView>)
    ensures
        pruned(c).len() == if c.len() <= 6 {
            c.len()
        } else {
            6
        },
        c.len() > 0 ==> pruned(c)[0] == c[0],
        c.len() > 0 ==> pruned(c).last() == c.last(),
        forall|i: int|
            0 <= i < pruned(c).len() ==> (#[trigger] pruned(c)[i]).role == c[if c.len() <= 6
                || i == 0 {
                i
            } else {
                c.len() - 6 + i
            }].role,
        pruned(pruned(c)) == pruned(c),
{
    if c.len() > 6 {
        let p = pruned(c);
        assert(p[0] == c[0]);
        assert(p.last() == shrink_message(c[c.len() - 1], 4));
        assert forall|i: int| 0 <= i < p.len() implies (#[trigger] p[i]).role == c[if i == 0 {
            i
        } else {
            c.len() - 6 + i
        }].role by {
            if i > 0 {
                assert(p[i] == shrink_message(c[c.len() - 5 + (i - 1)], i - 1));
            }
        }
    }
}

/// Pruning changes no part but tool answers, and changes those only into the notice.
pub proof fn law_prune_touches_only_tool_answers(c: Seq<ContentView>, i: int, j: int)
    requires
        c.len() > 6,
        1 <= i < 6,
        0 <= j < c[c.len() - 6 + i].parts.len(),
    ensures
        pruned(c)[i].parts.len() == c[c.len() - 6 + i].parts.len(),
        !(c[c.len() - 6 + i].parts[j] is Response) ==> pruned(c)[i].parts[j] == c[c.len() - 6
            + i].parts[j],
        pruned(c)[i].parts[j] != c[c.len() - 6 + i].parts[j] ==> pruned(c)[i].parts[j]
            == (PartView::Response {
            name: c[c.len() - 6 + i].parts[j]->Response_name,
            is_error: false,
            text: truncated_notice(),
        }),
{
    assert(pruned(c)[i] == shrink_message(c[c.len() - 5 + (i - 1)], i - 1));
}

} // verus!

verus! {

/// Whether another model round may start: at most `max_local` rounds in this run and at most
/// 20 in the whole request.
pub open spec fn round_allowed(local: int, total: int, max_local: int) -> bool {
    local <= max_local && total <= 20
}

/// Counts a new round of the agent loop and says whether the model may be called again.
pub fn begin_round(local_loops: &mut u32, loop_count: &mut u32, max_local_loops: u32) -> (go: bool)
    requires
        *old(local_loops) < u32::MAX,
        *old(loop_count) < u32::MAX,
    ensures
        *final(local_loops) == *old(local_loops) + 1,
        *final(loop_count) == *old(loop_count) + 1,
        go == round_allowed(*final(local_loops) as int, *final(loop_count) as int, max_local_loops as int),
{
    *local_loops = *local_loops + 1;
    *loop_count = *loop_count + 1;
    !(*local_loops > max_local_loops || *loop_count > 20)
}

/// The number of rounds a run of the agent loop is admitted when it starts with `total`
/// rounds already spent in the request and may make `max_local` rounds itself.
pub open spec fn round_limit(total: int, max_local: int) -> int {
    let l = if max_local < 20 - total {
        max_local
    } else {
        20 - total
    };
    if l < 0 {
        0
    } else {
        l
    }
}

/// A run of the agent loop that starts with `total` rounds already spent in the request
/// is admitted at most `round_limit(total, max_local)` rounds (at most `max_local`, and at
/// most 20 in the whole request), and is refused a further round exactly when it has had
/// that many. Each round, admitted or refused, adds one to the request's count, so a run
/// of `r` admitted rounds leaves the count at `total + r` (stopped by the model's reply) or
/// `total + r + 1` (stopped by a refusal).
pub proof fn law_run_budget(total: int, max_local: int, r: int)
    requires
        0 <= total,
        0 <= max_local,
        0 <= r,
        forall|j: int| 1 <= j <= r ==> #[trigger] round_allowed(j, total + j, max_local),
    ensures
        r <= round_limit(total, max_local),
        r <= max_local,
        r > 0 ==> total + r <= 20,
        !round_allowed(r + 1, total + r + 1, max_local) <==> r == round_limit(total, max_local),
{
    if r > 0 {
        assert(round_allowed(r, total + r, max_local));
    }
}

/// Adds the model's reply to the history and reads it: the calls it asks for, and whether
/// the loop stops here (no call asked, or the work announced as finished).
pub fn record_model_reply(contents: &mut Vec<GeminiContent>, parts: Vec<GeminiPart>) -> (r: (
    Vec<FunctionCallData>,
    bool,
))
    ensures
        content_views(final(contents)@) == content_views(old(contents)@).push(
            ContentView { role: "model"@, parts: part_views(parts@) },
        ),
        call_views(r.0@) == calls_of(part_views(parts@)),
        r.1 == (calls_of(part_views(parts@)).len() == 0 || signals_done(part_views(parts@))),
{
    let (calls, done) = process_model_parts(&parts);
    let stop = calls.len() == 0 || done;
    let ghost before = content_views(contents@);
    let ghost pv = part_views(parts@);
    contents.push(GeminiContent { role: String::from_str("model"), parts });
    assert(content_views(contents@) =~= before.push(ContentView { role: "model"@, parts: pv }));
    (calls, stop)
}

/// Whether a phase prunes the history after each tool round.
pub open spec fn phase_prunes(phase: Seq<char>) -> bool {
    phase == "finalize"@ || phase == "complete"@
}

/// The history after a tool round in `phase`: the answers added as a `function` message,
/// then the history pruned when the phase prunes.
pub open spec fn after_tool_round(c: Seq<ContentView>, answers: Seq<PartView>, phase: Seq<char>) -> Seq<
    ContentView,
> {
    let pushed = c.push(ContentView { role: "function"@, parts: answers });
    if phase_prunes(phase) {
        pruned(pushed)
    } else {
        pushed
    }
}

/// In the `finalize` phase and in the `complete` phase (the one the chat and ideation
/// agents run in), every tool round ends with the history pruned: at most six messages,
/// the first one kept, and the newest (the answers just added) untouched.
pub proof fn law_late_phases_prune(c: Seq<ContentView>, answers: Seq<PartView>, phase: Seq<char>)
    requires
        phase == "finalize"@ || phase == "complete"@,
    ensures
        after_tool_round(c, answers, phase) == pruned(
            c.push(ContentView { role: "function"@, parts: answers }),
        ),
        after_tool_round(c, answers, phase).len() <= 6,
        after_tool_round(c, answers, phase).last() == (ContentView {
            role: "function"@,
            parts: answers,
        }),
        c.len() > 0 ==> after_tool_round(c, answers, phase)[0] == c[0],
{
    let pushed = c.push(ContentView { role: "function"@, parts: answers });
    law_prune_history_shape(pushed);
    assert(pushed[0] == c[0] || c.len() == 0);
}

/// Adds the tools' answers to the history as a `function` message, then prunes the history
/// in the `finalize` and `complete` phases.
pub fn record_tool_responses(contents: &mut Vec<GeminiContent>, responses: Vec<GeminiPart>, phase: &str)
    ensures
        content_views(final(contents)@) == after_tool_round(
            content_views(old(contents)@),
            part_views(responses@),
            phase@,
        ),
{
    let ghost before = content_views(contents@);
    let ghost pv = part_views(responses@);
    contents.push(GeminiContent { role: String::from_str("function"), parts: responses });
    assert(content_views(contents@) =~= before.push(ContentView { role: "function"@, parts: pv }));
    if str_eq(phase, "finalize") || str_eq(phase, "complete") {
        prune_history(contents);
    }
}

} // verus!
