//! Reading the model's streamed reply: server-sent-event lines, and the parts accumulated
//! from them.

use vstd::prelude::*;
use vstd::string::*;
use crate::gemini::{part_views, FunctionCallData, GeminiPart, PartView};
use crate::text::{
    chars_of, first_pos, find_char, seq_starts_with, str_eq, string_from_chars, trim, trim_bounds,
};
use crate::writing::text_of;
use crate::text::views;
use crate::agent_loop::calls_of;

verus! {

/// The text received from the stream and not yet split into lines.
pub struct SseBuffer {
    pub buffer: String,
}

impl SseBuffer {
    /// An empty buffer.
    pub fn new() -> (r: Self)
        ensures
            r.buffer@ == Seq::<char>::empty(),
    {
        SseBuffer { buffer: String::new() }
    }

    /// Adds a decoded chunk of the stream.
    pub fn push_chunk(&mut self, text: &str)
        ensures
            final(self).buffer@ == old(self).buffer@ + text@,
    {
        self.buffer.append(text);
    }

    /// Takes the next complete line out of the buffer, trimmed; nothing when no line is
    /// complete yet.
    pub fn next_line(&mut self) -> (r: Option<String>)
        ensures
            match first_pos(old(self).buffer@, '\n') {
                Some(p) => r matches Some(l) && l@ == trim(old(self).buffer@.take(p))
                    && final(self).buffer@ == old(self).buffer@.skip(p + 1),
                None => r is None && final(self).buffer@ == old(self).buffer@,
            },
    {
        let v = chars_of(self.buffer.as_str());
        match find_char(&v, '\n') {
            Some(p) => {
                let head = string_from_chars(&v, 0, p);
                let hv = chars_of(head.as_str());
                let (lo, hi) = trim_bounds(&hv);
                let line = string_from_chars(&hv, lo, hi);
                let rest = string_from_chars(&v, p + 1, v.len());
                assert(v@.take(p as int) =~= v@.subrange(0, p as int));
                assert(v@.skip(p + 1) =~= v@.subrange(p + 1, v.len() as int));
                self.buffer = rest;
                Some(line)
            },
            None => None,
        }
    }

    /// Takes every complete line out of the buffer, trimmed and in order, leaving the text
    /// after the last line break.
    pub fn take_lines(&mut self) -> (r: Vec<String>)
        ensures
            views(r@) == drain(old(self).buffer@).0,
            final(self).buffer@ == drain(old(self).buffer@).1,
    {
        let ghost start = self.buffer@;
        let mut out: Vec<String> = Vec::new();
        loop
            invariant
                drain(start).0 == views(out@) + drain(self.buffer@).0,
                drain(start).1 == drain(self.buffer@).1,
            ensures
                views(out@) == drain(start).0,
                self.buffer@ == drain(start).1,
            decreases self.buffer@.len(),
        {
            let ghost before = self.buffer@;
            match self.next_line() {
                Some(l) => {
                    proof {
                        let p = first_pos(before, '\n')->0;
                        assert(crate::text::is_first(before, '\n', p));
                        assert(views(out@.push(l)) =~= views(out@).push(l@));
                        assert(views(out@).push(l@) + drain(self.buffer@).0 =~= views(out@) + drain(
                            before,
                        ).0);
                    }
                    out.push(l);
                },
                None => {
                    assert(drain(before).0 =~= Seq::<Seq<char>>::empty());
                    assert(views(out@) + Seq::<Seq<char>>::empty() =~= views(out@));
                    break;
                },
            }
        }
        out
    }
}

/// What draining the buffer `b` gives: the trimmed complete lines, in order, and the text
/// after the last line break, still waiting for the rest of its line.
pub open spec fn drain(b: Seq<char>) -> (Seq<Seq<char>>, Seq<char>)
    decreases b.len(),
{
    match first_pos(b, '\n') {
        Some(p) => {
            let rest = drain(b.skip(p + 1));
            (seq![trim(b.take(p))] + rest.0, rest.1)
        },
        None => (Seq::empty(), b),
    }
}

/// The text of a sequence of chunks, joined in order.
pub open spec fn concat_chunks(chunks: Seq<Seq<char>>) -> Seq<char>
    decreases chunks.len(),
{
    if chunks.len() == 0 {
        Seq::empty()
    } else {
        concat_chunks(chunks.drop_last()) + chunks.last()
    }
}

/// The lines taken, and the text left waiting, when the chunks are pushed into an empty
/// buffer one by one and the buffer is drained after each.
pub open spec fn lines_of_chunks(chunks: Seq<Seq<char>>) -> (Seq<Seq<char>>, Seq<char>)
    decreases chunks.len(),
{
    if chunks.len() == 0 {
        (Seq::empty(), Seq::empty())
    } else {
        let prev = lines_of_chunks(chunks.drop_last());
        let d = drain(prev.1 + chunks.last());
        (prev.0 + d.0, d.1)
    }
}

proof fn lemma_first_pos_append(b: Seq<char>, c: Seq<char>, p: int)
    requires
        first_pos(b, '\n') == Some(p),
    ensures
        first_pos(b + c, '\n') == Some(p),
        0 <= p < b.len(),
{
    assert(crate::text::is_first(b, '\n', p));
    let bc = b + c;
    assert forall|j: int| 0 <= j < p implies #[trigger] bc[j] != '\n' by {
        assert(bc[j] == b[j]);
    }
    assert(crate::text::is_first(bc, '\n', p));
    let k = choose|k: int| crate::text::is_first(bc, '\n', k);
    crate::text::lemma_first_unique(bc, '\n', p, k);
}

/// Draining `b + c` gives the lines of `b`, then those of what `b` left waiting followed
/// by `c`.
proof fn lemma_drain_append(b: Seq<char>, c: Seq<char>)
    ensures
        drain(b + c).0 == drain(b).0 + drain(drain(b).1 + c).0,
        drain(b + c).1 == drain(drain(b).1 + c).1,
    decreases b.len(),
{
    match first_pos(b, '\n') {
        Some(p) => {
            lemma_first_pos_append(b, c, p);
            let bc = b + c;
            assert(bc.take(p) =~= b.take(p));
            assert(bc.skip(p + 1) =~= b.skip(p + 1) + c);
            lemma_drain_append(b.skip(p + 1), c);
            let tail = drain(b.skip(p + 1));
            assert(drain(bc).0 =~= seq![trim(b.take(p))] + drain(b.skip(p + 1) + c).0);
            assert(drain(b).0 =~= seq![trim(b.take(p))] + tail.0);
            assert(drain(bc).0 =~= drain(b).0 + drain(drain(b).1 + c).0);
        },
        None => {
            assert(drain(b).0 + drain(b + c).0 =~= drain(b + c).0);
        },
    }
}

/// How the stream is cut into chunks does not matter: pushing the chunks one by one and
/// taking the complete lines after each gives the same lines, and leaves the same text
/// waiting, as taking the lines of the whole text at once.
pub proof fn law_chunking_does_not_matter(chunks: Seq<Seq<char>>)
    ensures
        lines_of_chunks(chunks) == drain(concat_chunks(chunks)),
    decreases chunks.len(),
{
    if chunks.len() == 0 {
        assert(drain(Seq::<char>::empty()).0 =~= Seq::<Seq<char>>::empty());
    } else {
        let init = chunks.drop_last();
        law_chunking_does_not_matter(init);
        lemma_drain_append(concat_chunks(init), chunks.last());
    }
}

/// The JSON payload of an event line: what follows `data: `, trimmed, unless it is the
/// `[DONE]` marker; other lines carry none.
pub open spec fn sse_payload_of(line: Seq<char>) -> Option<Seq<char>> {
    if crate::text::starts_with(line, "data: "@) {
        let p = trim(line.skip(6));
        if p == "[DONE]"@ {
            None
        } else {
            Some(p)
        }
    } else {
        None
    }
}

/// The JSON payload of an event line.
pub fn sse_payload(line: &str) -> (r: Option<String>)
    ensures
        crate::text::opt_seq(r) == sse_payload_of(line@),
{
    let v = chars_of(line);
    let prefix = chars_of("data: ");
    proof {
        reveal_strlit("data: ");
    }
    if seq_starts_with(&v, &prefix) {
        let rest = string_from_chars(&v, 6, v.len());
        assert(v@.subrange(6, v.len() as int) =~= v@.skip(6));
        let payload = crate::text::trim_string(rest.as_str());
        if str_eq(payload.as_str(), "[DONE]") {
            None
        } else {
            Some(payload)
        }
    } else {
        None
    }
}

/// One part of a streamed candidate: its text, its function call, and whether it is a
/// thought.
pub struct CandidatePart {
    pub text: Option<String>,
    pub function_call: Option<FunctionCallData>,
    pub thought: Option<bool>,
}

/// The parts after one more streamed text: appended to the last part when that is text,
/// otherwise added as a new text part.
pub open spec fn absorb_text(acc: Seq<PartView>, t: Seq<char>) -> Seq<PartView> {
    if acc.len() > 0 && acc.last() is Text {
        acc.update(acc.len() - 1, PartView::Text(acc.last()->Text_0 + t))
    } else {
        acc.push(PartView::Text(t))
    }
}

/// The parts after one more streamed candidate part: its text, then its function call.
pub open spec fn absorb_part(acc: Seq<PartView>, p: CandidatePart) -> Seq<PartView> {
    let with_text = match p.text {
        Some(t) => absorb_text(acc, t@),
        None => acc,
    };
    match p.function_call {
        Some(fc) => with_text.push(PartView::Call { name: fc.name@, args: fc.args@ }),
        None => with_text,
    }
}

fn absorb_text_exec(acc: &mut Vec<GeminiPart>, t: &str)
    ensures
        part_views(final(acc)@) == absorb_text(part_views(old(acc)@), t@),
{
    let ghost before = part_views(acc@);
    let n = acc.len();
    if n > 0 {
        let last = acc.pop().unwrap();
        assert(part_views(acc@) =~= before.drop_last());
        match last {
            GeminiPart::Text { text } => {
                let mut text = text;
                text.append(t);
                acc.push(GeminiPart::Text { text });
                assert(part_views(acc@) =~= absorb_text(before, t@));
            },
            other => {
                acc.push(other);
                acc.push(GeminiPart::Text { text: String::from_str(t) });
                assert(part_views(acc@) =~= absorb_text(before, t@));
            },
        }
    } else {
        acc.push(GeminiPart::Text { text: String::from_str(t) });
        assert(part_views(acc@) =~= absorb_text(before, t@));
    }
}

/// Adds a streamed candidate part to the accumulated reply.
pub fn absorb_candidate_part(acc: &mut Vec<GeminiPart>, part: CandidatePart)
    ensures
        part_views(final(acc)@) == absorb_part(part_views(old(acc)@), part),
{
    let ghost p = part;
    let CandidatePart { text, function_call, thought } = part;
    if let Some(t) = &text {
        absorb_text_exec(acc, t.as_str());
    }
    if let Some(fc) = function_call {
        let ghost before = part_views(acc@);
        let ghost fv = fc@;
        acc.push(GeminiPart::FunctionCall { function_call: fc });
        assert(part_views(acc@) =~= before.push(PartView::Call { name: fv.0, args: fv.1 }));
    }
}

/// The event a streamed text goes out on: `{event}-thought` for a thought, else `{event}`.
pub fn stream_event_name(event_name: &str, thought: Option<bool>) -> (r: String)
    ensures
        r@ == if thought == Some(true) {
            event_name@ + "-thought"@
        } else {
            event_name@
        },
{
    match thought {
        Some(true) => String::from_str(event_name).concat("-thought"),
        _ => String::from_str(event_name),
    }
}

/// Streaming keeps every piece of text: the text of the accumulated reply grows by exactly
/// the streamed text of each part absorbed.
pub proof fn law_absorb_keeps_text(acc: Seq<PartView>, p: CandidatePart)
    ensures
        text_of(absorb_part(acc, p)) == text_of(acc) + match p.text {
            Some(t) => t@,
            None => Seq::empty(),
        },
{
    let with_text = match p.text {
        Some(t) => absorb_text(acc, t@),
        None => acc,
    };
    match p.text {
        Some(t) => {
            if acc.len() > 0 && acc.last() is Text {
                let upd = acc.update(acc.len() - 1, PartView::Text(acc.last()->Text_0 + t@));
                assert(upd.drop_last() =~= acc.drop_last());
                assert(text_of(acc) == text_of(acc.drop_last()) + acc.last()->Text_0);
                assert(text_of(upd) == text_of(acc.drop_last()) + (acc.last()->Text_0 + t@));
                assert(text_of(upd) =~= text_of(acc) + t@);
            } else {
                assert(acc.push(PartView::Text(t@)).drop_last() =~= acc);
            }
        },
        None => {
            assert(with_text =~= acc);
            assert(text_of(acc) + Seq::<char>::empty() =~= text_of(acc));
        },
    }
    match p.function_call {
        Some(fc) => {
            let r = with_text.push(PartView::Call { name: fc.name@, args: fc.args@ });
            assert(r.drop_last() =~= with_text);
            assert(text_of(r) =~= text_of(with_text));
        },
        None => {},
    }
}

/// The parts accumulated from `acc` by absorbing the streamed parts `ps` in order.
pub open spec fn absorb_all(acc: Seq<PartView>, ps: Seq<CandidatePart>) -> Seq<PartView>
    decreases ps.len(),
{
    if ps.len() == 0 {
        acc
    } else {
        absorb_part(absorb_all(acc, ps.drop_last()), ps.last())
    }
}

/// The texts of the streamed parts `ps`, concatenated in order.
pub open spec fn streamed_text(ps: Seq<CandidatePart>) -> Seq<char>
    decreases ps.len(),
{
    if ps.len() == 0 {
        Seq::empty()
    } else {
        streamed_text(ps.drop_last()) + match ps.last().text {
            Some(t) => t@,
            None => Seq::empty(),
        }
    }
}

/// The function call of a streamed part, if it has one, as `(name, arguments)`.
pub open spec fn part_calls(p: CandidatePart) -> Seq<(Seq<char>, Seq<char>)> {
    match p.function_call {
        Some(fc) => seq![(fc.name@, fc.args@)],
        None => Seq::empty(),
    }
}

/// The function calls of the streamed parts `ps`, in order.
pub open spec fn streamed_calls(ps: Seq<CandidatePart>) -> Seq<(Seq<char>, Seq<char>)>
    decreases ps.len(),
{
    if ps.len() == 0 {
        Seq::empty()
    } else {
        streamed_calls(ps.drop_last()) + part_calls(ps.last())
    }
}

/// Whether no two neighbouring parts of `s` are both texts.
pub open spec fn no_adjacent_texts(s: Seq<PartView>) -> bool {
    forall|i: int, j: int|
        0 <= i && j == i + 1 && j < s.len() ==> !(#[trigger] s[i] is Text && #[trigger] s[j] is Text)
}

proof fn lemma_absorb_part_calls(acc: Seq<PartView>, p: CandidatePart)
    ensures
        calls_of(absorb_part(acc, p)) == calls_of(acc) + part_calls(p),
{
    let with_text = match p.text {
        Some(t) => absorb_text(acc, t@),
        None => acc,
    };
    match p.text {
        Some(t) => {
            if acc.len() > 0 && acc.last() is Text {
                let upd = acc.update(acc.len() - 1, PartView::Text(acc.last()->Text_0 + t@));
                assert(upd.drop_last() =~= acc.drop_last());
                assert(calls_of(upd) == calls_of(acc));
            } else {
                assert(acc.push(PartView::Text(t@)).drop_last() =~= acc);
            }
        },
        None => {},
    }
    assert(calls_of(with_text) == calls_of(acc));
    match p.function_call {
        Some(fc) => {
            let r = with_text.push(PartView::Call { name: fc.name@, args: fc.args@ });
            assert(r.drop_last() =~= with_text);
            assert(calls_of(r) =~= calls_of(acc) + part_calls(p));
        },
        None => {
            assert(calls_of(acc) + part_calls(p) =~= calls_of(acc));
        },
    }
}

proof fn lemma_absorb_part_separates_texts(acc: Seq<PartView>, p: CandidatePart)
    requires
        no_adjacent_texts(acc),
    ensures
        no_adjacent_texts(absorb_part(acc, p)),
{
    let with_text = match p.text {
        Some(t) => absorb_text(acc, t@),
        None => acc,
    };
    assert(no_adjacent_texts(with_text)) by {
        match p.text {
            Some(t) => {
                if acc.len() > 0 && acc.last() is Text {
                    let upd = acc.update(acc.len() - 1, PartView::Text(acc.last()->Text_0 + t@));
                    assert forall|i: int, j: int|
                        0 <= i && j == i + 1 && j < upd.len() implies !(#[trigger] upd[i] is Text
                        && #[trigger] upd[j] is Text) by {
                        if j == upd.len() - 1 {
                            assert(acc[i] is Text && acc[j] is Text ==> false);
                        } else {
                            assert(upd[i] == acc[i] && upd[j] == acc[j]);
                        }
                    }
                } else {
                    let pushed = acc.push(PartView::Text(t@));
                    assert forall|i: int, j: int|
                        0 <= i && j == i + 1 && j < pushed.len() implies !(#[trigger] pushed[i] is Text
                        && #[trigger] pushed[j] is Text) by {
                        if j == pushed.len() - 1 {
                            assert(pushed[i] == acc.last());
                        } else {
                            assert(pushed[i] == acc[i] && pushed[j] == acc[j]);
                        }
                    }
                }
            },
            None => {},
        }
    }
    match p.function_call {
        Some(fc) => {
            let r = with_text.push(PartView::Call { name: fc.name@, args: fc.args@ });
            assert forall|i: int, j: int|
                0 <= i && j == i + 1 && j < r.len() implies !(#[trigger] r[i] is Text
                && #[trigger] r[j] is Text) by {
                if j < r.len() - 1 {
                    assert(r[i] == with_text[i] && r[j] == with_text[j]);
                }
            }
        },
        None => {},
    }
}

/// Absorbing a streamed reply part by part keeps its text, in order, with no two texts
/// side by side, and keeps its function calls, in order.
pub proof fn law_absorb_all(acc: Seq<PartView>, ps: Seq<CandidatePart>)
    requires
        no_adjacent_texts(acc),
    ensures
        no_adjacent_texts(absorb_all(acc, ps)),
        text_of(absorb_all(acc, ps)) == text_of(acc) + streamed_text(ps),
        calls_of(absorb_all(acc, ps)) == calls_of(acc) + streamed_calls(ps),
    decreases ps.len(),
{
    if ps.len() == 0 {
        assert(text_of(acc) + Seq::<char>::empty() =~= text_of(acc));
        assert(calls_of(acc) + Seq::<(Seq<char>, Seq<char>)>::empty() =~= calls_of(acc));
    } else {
        let prev = absorb_all(acc, ps.drop_last());
        law_absorb_all(acc, ps.drop_last());
        lemma_absorb_part_separates_texts(prev, ps.last());
        law_absorb_keeps_text(prev, ps.last());
        lemma_absorb_part_calls(prev, ps.last());
        assert(text_of(absorb_all(acc, ps)) =~= text_of(acc) + streamed_text(ps));
        assert(calls_of(absorb_all(acc, ps)) =~= calls_of(acc) + streamed_calls(ps));
    }
}

/// The address of the streaming endpoint for `model`, authenticated by `api_key`.
pub open spec fn stream_url_of(model: Seq<char>, api_key: Seq<char>) -> Seq<char> {
    "https://generativelanguage.googleapis.com/v1beta/models/"@ + model
        + ":streamGenerateContent?key="@ + api_key + "&alt=sse"@
}

/// The address to which a request for `model` is posted.
pub fn stream_url(model: &str, api_key: &str) -> (r: String)
    ensures
        r@ == stream_url_of(model@, api_key@),
{
    String::from_str("https://generativelanguage.googleapis.com/v1beta/models/").concat(model).concat(
        ":streamGenerateContent?key=",
    ).concat(api_key).concat("&alt=sse")
}

} // verus!
