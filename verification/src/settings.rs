//! API settings: the model list and the rewrite of the `.env` file.

use vstd::prelude::*;
use vstd::string::*;
use crate::text::{join, join_strings, lacks, lemma_lines_lack_newline, lemma_lines_of_joined, lines, strip_cr, push_char, split_lines, starts_with, str_starts_with, views};

verus! {

/// Prefix of the line that holds the API key in `.env`.
pub open spec fn key_prefix() -> Seq<char> {
    "GEMINI_API_KEY="@
}

/// Prefix of the line that holds the model name in `.env`.
pub open spec fn model_prefix() -> Seq<char> {
    "AI_MODEL="@
}

/// The `.env` line that sets the API key.
pub open spec fn key_line(api_key: Seq<char>) -> Seq<char> {
    key_prefix() + api_key
}

/// The `.env` line that sets the model.
pub open spec fn model_line(model: Seq<char>) -> Seq<char> {
    model_prefix() + model
}

/// One existing line after the settings are applied to it.
pub open spec fn rewrite_line(l: Seq<char>, api_key: Seq<char>, model: Seq<char>) -> Seq<char> {
    if starts_with(l, key_prefix()) {
        key_line(api_key)
    } else if starts_with(l, model_prefix()) {
        model_line(model)
    } else {
        l
    }
}

/// Whether some line sets the API key.
pub open spec fn has_key_line(ls: Seq<Seq<char>>) -> bool {
    exists|i: int| 0 <= i < ls.len() && starts_with(#[trigger] ls[i], key_prefix())
}

/// Whether some line (not one that sets the key) sets the model.
pub open spec fn has_model_line(ls: Seq<Seq<char>>) -> bool {
    exists|i: int|
        0 <= i < ls.len() && !starts_with(#[trigger] ls[i], key_prefix()) && starts_with(
            ls[i],
            model_prefix(),
        )
}

/// The lines of the `.env` file once the settings are applied: every key line and every
/// model line rewritten, and the missing ones appended (key first, then model).
pub open spec fn updated_lines(content: Seq<char>, api_key: Seq<char>, model: Seq<char>) -> Seq<
    Seq<char>,
> {
    let ls = lines(content);
    let mapped = ls.map_values(|l: Seq<char>| rewrite_line(l, api_key, model));
    let with_key = if has_key_line(ls) {
        mapped
    } else {
        mapped.push(key_line(api_key))
    };
    if has_model_line(ls) {
        with_key
    } else {
        with_key.push(model_line(model))
    }
}

/// The new text of the `.env` file: the updated lines joined by `\n`, with a final `\n`
/// when the text is not empty.
pub open spec fn updated_env(content: Seq<char>, api_key: Seq<char>, model: Seq<char>) -> Seq<char> {
    let joined = join(updated_lines(content, api_key, model), "\n"@);
    if joined.len() == 0 {
        joined
    } else {
        joined.push('\n')
    }
}

/// Rewrites the text of a `.env` file so that it sets `GEMINI_API_KEY` to `api_key` and
/// `AI_MODEL` to `model`, keeping every other line.
pub fn update_env_content(content: &str, api_key: &str, model: &str) -> (r: String)
    ensures
        r@ == updated_env(content@, api_key@, model@),
{
    let mut ls = split_lines(content);
    let ghost orig = views(ls@);
    let kp = "GEMINI_API_KEY=";
    let mp = "AI_MODEL=";
    proof {
        reveal_strlit("GEMINI_API_KEY=");
        reveal_strlit("AI_MODEL=");
        assert(kp@ =~= key_prefix());
        assert(mp@ =~= model_prefix());
    }
    let key_text = String::from_str(kp).concat(api_key);
    let model_text = String::from_str(mp).concat(model);
    let mut key_found = false;
    let mut model_found = false;
    let mut out: Vec<String> = Vec::new();
    let mut i: usize = 0;
    while i < ls.len()
        invariant
            i <= ls.len(),
            views(ls@) == orig,
            orig == lines(content@),
            key_text@ == key_line(api_key@),
            kp@ == key_prefix(),
            mp@ == model_prefix(),
            model_text@ == model_line(model@),
            views(out@) == orig.take(i as int).map_values(
                |l: Seq<char>| rewrite_line(l, api_key@, model@),
            ),
            key_found == has_key_line(orig.take(i as int)),
            model_found == has_model_line(orig.take(i as int)),
        decreases ls.len() - i,
    {
        let ghost before = orig.take(i as int);
        let ghost after = orig.take(i + 1);
        assert(after =~= before.push(orig[i as int]));
        assert(ls@[i as int]@ == orig[i as int]);
        assert(after[i as int] == orig[i as int]);
        let ghost old_views = views(out@);
        let b1 = str_starts_with(ls[i].as_str(), kp);
        assert(b1 == starts_with(orig[i as int], key_prefix()));
        if b1 {
            out.push(key_text.clone());
            key_found = true;
            assert(starts_with(after[i as int], key_prefix()));
        } else if str_starts_with(ls[i].as_str(), mp) {
            out.push(model_text.clone());
            model_found = true;
            assert(!starts_with(after[i as int], key_prefix()) && starts_with(after[i as int], model_prefix()));
        } else {
            out.push(ls[i].clone());
        }
        proof {
            assert(views(out@) =~= old_views.push(rewrite_line(orig[i as int], api_key@, model@)));
            assert(views(out@) =~= after.map_values(|l: Seq<char>| rewrite_line(l, api_key@, model@)));
            if has_key_line(after) && !has_key_line(before) {
                let k = choose|k: int| 0 <= k < after.len() && starts_with(#[trigger] after[k], key_prefix());
                assert(k == i);
            }
            if has_key_line(before) {
                let k = choose|k: int| 0 <= k < before.len() && starts_with(#[trigger] before[k], key_prefix());
                assert(after[k] == before[k]);
            }
            if has_model_line(after) && !has_model_line(before) {
                let k = choose|k: int|
                    0 <= k < after.len() && !starts_with(#[trigger] after[k], key_prefix())
                        && starts_with(after[k], model_prefix());
                assert(k == i);
            }
            if has_model_line(before) {
                let k = choose|k: int|
                    0 <= k < before.len() && !starts_with(#[trigger] before[k], key_prefix())
                        && starts_with(before[k], model_prefix());
                assert(after[k] == before[k]);
            }
        }
        i += 1;
    }
    assert(orig.take(ls.len() as int) =~= orig);
    if !key_found {
        out.push(key_text);
    }
    if !model_found {
        out.push(model_text);
    }
    assert(views(out@) =~= updated_lines(content@, api_key@, model@));
    let mut r = join_strings(&out, "\n");
    if !r.as_str().is_empty() {
        push_char(&mut r, '\n');
    }
    r
}

} // verus!

verus! {

proof fn lemma_prefix_facts()
    ensures
        key_prefix().len() == 15,
        key_prefix()[0] == 'G',
        key_prefix().last() == '=',
        model_prefix().len() == 9,
        model_prefix()[0] == 'A',
        model_prefix().last() == '=',
        lacks(key_prefix(), '\n'),
        lacks(model_prefix(), '\n'),
{
    reveal_strlit("GEMINI_API_KEY=");
    reveal_strlit("AI_MODEL=");
}

proof fn lemma_starts_with_concat(p: Seq<char>, k: Seq<char>)
    ensures
        starts_with(p + k, p),
{
    assert((p + k).subrange(0, p.len() as int) =~= p);
}

proof fn lemma_lacks_concat(a: Seq<char>, b: Seq<char>, c: char)
    requires
        lacks(a, c),
        lacks(b, c),
    ensures
        lacks(a + b, c),
{
    assert forall|i: int| 0 <= i < (a + b).len() implies #[trigger] (a + b)[i] != c by {
        if i < a.len() {
            assert((a + b)[i] == a[i]);
        } else {
            assert((a + b)[i] == b[i - a.len()]);
        }
    }
}

/// A prefix that does not end in `\r` survives `strip_cr`.
proof fn lemma_strip_cr_keeps_prefix(x: Seq<char>, p: Seq<char>)
    requires
        starts_with(x, p),
        p.len() > 0,
        p.last() != '\r',
    ensures
        starts_with(strip_cr(x), p),
{
    if x.len() > 0 && x.last() == '\r' {
        assert(x.subrange(0, p.len() as int)[p.len() - 1] == p.last());
        assert(x.len() > p.len());
        assert(x.drop_last().subrange(0, p.len() as int) =~= x.subrange(0, p.len() as int));
    }
}

/// A prefix of `strip_cr(x)` is a prefix of `x`.
proof fn lemma_strip_cr_prefix_back(x: Seq<char>, p: Seq<char>)
    requires
        starts_with(strip_cr(x), p),
    ensures
        starts_with(x, p),
{
    if x.len() > 0 && x.last() == '\r' {
        assert(x.drop_last().subrange(0, p.len() as int) =~= x.subrange(0, p.len() as int));
    }
}

proof fn lemma_no_double_prefix(x: Seq<char>)
    requires
        starts_with(x, model_prefix()),
    ensures
        !starts_with(x, key_prefix()),
{
    lemma_prefix_facts();
    assert(x.subrange(0, 9)[0] == 'A');
    if starts_with(x, key_prefix()) {
        assert(x.subrange(0, 15)[0] == 'G');
    }
}

/// The shape of the updated lines: each original line rewritten in place, the appended
/// lines set the key or the model, both are present, and no line holds a `\n`.
proof fn lemma_updated_lines_shape(content: Seq<char>, api_key: Seq<char>, model: Seq<char>)
    requires
        lacks(api_key, '\n'),
        lacks(model, '\n'),
    ensures
        ({
            let ls = lines(content);
            let l1 = updated_lines(content, api_key, model);
            &&& l1.len() >= 2
            &&& l1.len() >= ls.len()
            &&& forall|j: int|
                0 <= j < ls.len() ==> #[trigger] l1[j] == rewrite_line(ls[j], api_key, model)
            &&& forall|j: int|
                ls.len() <= j < l1.len() ==> #[trigger] l1[j] == key_line(api_key) || l1[j]
                    == model_line(model)
            &&& exists|j: int| 0 <= j < l1.len() && #[trigger] l1[j] == key_line(api_key)
            &&& exists|j: int| 0 <= j < l1.len() && #[trigger] l1[j] == model_line(model)
            &&& forall|j: int| 0 <= j < l1.len() ==> lacks(#[trigger] l1[j], '\n')
        }),
{
    lemma_prefix_facts();
    lemma_lines_lack_newline(content);
    lemma_lacks_concat(key_prefix(), api_key, '\n');
    lemma_lacks_concat(model_prefix(), model, '\n');
    let ls = lines(content);
    let l1 = updated_lines(content, api_key, model);
    let mapped = ls.map_values(|l: Seq<char>| rewrite_line(l, api_key, model));
    let ki: int = if has_key_line(ls) {
        choose|i: int| 0 <= i < ls.len() && starts_with(#[trigger] ls[i], key_prefix())
    } else {
        ls.len() as int
    };
    let with_key = if has_key_line(ls) {
        mapped
    } else {
        mapped.push(key_line(api_key))
    };
    assert(with_key[ki] == key_line(api_key));
    let mi: int = if has_model_line(ls) {
        choose|i: int|
            0 <= i < ls.len() && !starts_with(#[trigger] ls[i], key_prefix()) && starts_with(
                ls[i],
                model_prefix(),
            )
    } else {
        with_key.len() as int
    };
    assert(l1[ki] == key_line(api_key));
    assert(l1[mi] == model_line(model));
    assert(ki != mi);
    assert forall|j: int| 0 <= j < l1.len() implies lacks(#[trigger] l1[j], '\n') by {
        if j < ls.len() {
            assert(lacks(ls[j], '\n'));
        }
    }
}

/// Applying the same settings twice gives the same file as applying them once, for keys
/// and models without a line break and files in which no line that is kept as it is (one
/// that sets neither the key nor the model) ends in `\r`.
pub proof fn law_update_env_idempotent(content: Seq<char>, api_key: Seq<char>, model: Seq<char>)
    requires
        lacks(api_key, '\n'),
        lacks(model, '\n'),
        forall|j: int|
            0 <= j < lines(content).len() && !starts_with(#[trigger] lines(content)[j], key_prefix())
                && !starts_with(lines(content)[j], model_prefix()) ==> strip_cr(lines(content)[j])
                == lines(content)[j],
    ensures
        updated_env(updated_env(content, api_key, model), api_key, model) == updated_env(
            content,
            api_key,
            model,
        ),
{
    reveal_strlit("\n");
    lemma_prefix_facts();
    lemma_updated_lines_shape(content, api_key, model);
    lemma_starts_with_concat(key_prefix(), api_key);
    lemma_starts_with_concat(model_prefix(), model);
    let ls = lines(content);
    let l1 = updated_lines(content, api_key, model);
    let c1 = updated_env(content, api_key, model);
    assert(join(l1, "\n"@) == join(l1.drop_last(), "\n"@) + "\n"@ + l1.last());
    assert(join(l1, "\n"@).len() > 0);
    assert(c1 == join(l1, "\n"@).push('\n'));
    lemma_lines_of_joined(l1);
    let ls2 = lines(c1);
    assert(ls2 == l1.map_values(|l: Seq<char>| strip_cr(l)));
    lemma_no_double_prefix(model_line(model));
    lemma_strip_cr_keeps_prefix(key_line(api_key), key_prefix());
    lemma_strip_cr_keeps_prefix(model_line(model), model_prefix());
    lemma_no_double_prefix(strip_cr(model_line(model)));
    assert forall|j: int| 0 <= j < l1.len() implies #[trigger] rewrite_line(
        ls2[j],
        api_key,
        model,
    ) == l1[j] by {
        if l1[j] == key_line(api_key) {
        } else if l1[j] == model_line(model) {
        } else {
            assert(j < ls.len());
            assert(l1[j] == ls[j]);
            assert(!starts_with(ls[j], key_prefix()));
            assert(!starts_with(ls[j], model_prefix()));
            assert(strip_cr(ls[j]) == ls[j]);
        }
    }
    let mapped2 = ls2.map_values(|l: Seq<char>| rewrite_line(l, api_key, model));
    assert(mapped2 =~= l1);
    let kj = choose|j: int| 0 <= j < l1.len() && #[trigger] l1[j] == key_line(api_key);
    assert(starts_with(ls2[kj], key_prefix()));
    assert(has_key_line(ls2));
    let mj = choose|j: int| 0 <= j < l1.len() && #[trigger] l1[j] == model_line(model);
    assert(starts_with(ls2[mj], model_prefix()) && !starts_with(ls2[mj], key_prefix()));
    assert(has_model_line(ls2));
    assert(updated_lines(c1, api_key, model) == l1);
}

/// After the update, some line of the file sets the new key and the new model, and every
/// line that sets the key or the model sets the new one (a line read back loses one
/// trailing `\r`, as `str::lines` drops it).
pub proof fn law_update_env_reads_back(content: Seq<char>, api_key: Seq<char>, model: Seq<char>)
    requires
        lacks(api_key, '\n'),
        lacks(model, '\n'),
    ensures
        ({
            let ls = lines(updated_env(content, api_key, model));
            &&& exists|j: int| 0 <= j < ls.len() && #[trigger] ls[j] == strip_cr(key_line(api_key))
            &&& exists|j: int|
                0 <= j < ls.len() && #[trigger] ls[j] == strip_cr(model_line(model))
            &&& forall|j: int|
                0 <= j < ls.len() && starts_with(#[trigger] ls[j], key_prefix()) ==> ls[j]
                    == strip_cr(key_line(api_key))
            &&& forall|j: int|
                0 <= j < ls.len() && starts_with(#[trigger] ls[j], model_prefix()) ==> ls[j]
                    == strip_cr(model_line(model))
        }),
{
    reveal_strlit("\n");
    lemma_prefix_facts();
    lemma_updated_lines_shape(content, api_key, model);
    let ls = lines(content);
    let l1 = updated_lines(content, api_key, model);
    let c1 = updated_env(content, api_key, model);
    assert(join(l1, "\n"@) == join(l1.drop_last(), "\n"@) + "\n"@ + l1.last());
    assert(c1 == join(l1, "\n"@).push('\n'));
    lemma_lines_of_joined(l1);
    let ls2 = lines(c1);
    let kj = choose|j: int| 0 <= j < l1.len() && #[trigger] l1[j] == key_line(api_key);
    assert(ls2[kj] == strip_cr(key_line(api_key)));
    let mj = choose|j: int| 0 <= j < l1.len() && #[trigger] l1[j] == model_line(model);
    assert(ls2[mj] == strip_cr(model_line(model)));
    lemma_starts_with_concat(model_prefix(), model);
    lemma_starts_with_concat(key_prefix(), api_key);
    assert forall|j: int|
        0 <= j < ls2.len() && starts_with(#[trigger] ls2[j], key_prefix()) implies ls2[j]
        == strip_cr(key_line(api_key)) by {
        lemma_strip_cr_prefix_back(l1[j], key_prefix());
        if l1[j] == model_line(model) {
            lemma_no_double_prefix(l1[j]);
        } else if l1[j] != key_line(api_key) {
            assert(j < ls.len());
            assert(l1[j] == rewrite_line(ls[j], api_key, model));
        }
    }
    assert forall|j: int|
        0 <= j < ls2.len() && starts_with(#[trigger] ls2[j], model_prefix()) implies ls2[j]
        == strip_cr(model_line(model)) by {
        lemma_strip_cr_prefix_back(l1[j], model_prefix());
        if l1[j] == key_line(api_key) {
            lemma_no_double_prefix(l1[j]);
        } else if l1[j] != model_line(model) {
            assert(j < ls.len());
            assert(l1[j] == rewrite_line(ls[j], api_key, model));
        }
    }
}

/// The model used when none is configured.
pub open spec fn default_model() -> Seq<char> {
    "gemma-4-31b-it"@
}

/// The configured model, or the default model when none is configured.
pub fn model_or_default(configured: Option<String>) -> (r: String)
    ensures
        r@ == match configured {
            Some(m) => m@,
            None => default_model(),
        },
{
    match configured {
        Some(m) => m,
        None => String::from_str("gemma-4-31b-it"),
    }
}

/// The models the author can choose from.
pub fn list_models() -> (r: Vec<String>)
    ensures
        r@.len() == 2,
        r@[0]@ == "gemma-4-31b-it"@,
        r@[1]@ == "gemma-4-26b-a4b-it"@,
{
    let mut r: Vec<String> = Vec::new();
    r.push(String::from_str("gemma-4-31b-it"));
    r.push(String::from_str("gemma-4-26b-a4b-it"));
    r
}

} // verus!
