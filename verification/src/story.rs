//! What the story folder's files are turned into: the chapters before the one being
//! written, the story's knowledge, the wiki's list of entities, new file names.

use vstd::prelude::*;
use vstd::string::*;
use crate::listing::{
    entry_lt, law_sorted_entries_ordered, law_sorted_entries_permutes, lemma_name_lt_irreflexive,
    lemma_name_lt_total, name_lt, sort_entries, sorted_entries,
};
use crate::text::{chars_of, is_blank, str_eq, string_from_chars, trim};

verus! {

/// Whether a file name has the extension `md` (a dot that does not begin the name, then
/// `md` to the end).
pub open spec fn has_md_extension(name: Seq<char>) -> bool {
    &&& name.len() >= 4
    &&& name[name.len() - 3] == '.'
    &&& name[name.len() - 2] == 'm'
    &&& name[name.len() - 1] == 'd'
}

/// The name without its `.md` extension.
pub open spec fn md_stem(name: Seq<char>) -> Seq<char> {
    name.take(name.len() - 3)
}

/// The stem of `name` when its extension is `md`, `None` otherwise.
pub fn markdown_stem(name: &str) -> (r: Option<String>)
    ensures
        r is Some <==> has_md_extension(name@),
        r matches Some(s) ==> s@ == md_stem(name@),
{
    let v = chars_of(name);
    let n = v.len();
    if n >= 4 && v[n - 3] == '.' && v[n - 2] == 'm' && v[n - 1] == 'd' {
        Some(string_from_chars(&v, 0, n - 3))
    } else {
        None
    }
}

/// The name under which `create_node` writes a new file: `.md` is added unless the name
/// already ends with it.
pub open spec fn md_file_name(name: Seq<char>) -> Seq<char> {
    if name.len() >= 3 && name.skip(name.len() - 3) == ".md"@ {
        name
    } else {
        name + ".md"@
    }
}

/// The file name for a new file called `name`.
pub fn new_file_name(name: &str) -> (r: String)
    ensures
        r@ == md_file_name(name@),
{
    let v = chars_of(name);
    let n = v.len();
    proof {
        reveal_strlit(".md");
    }
    if n >= 3 && v[n - 3] == '.' && v[n - 2] == 'm' && v[n - 1] == 'd' {
        assert(name@.skip(n - 3) =~= ".md"@);
        String::from_str(name)
    } else {
        assert(n >= 3 ==> name@.skip(n - 3)[0] == v@[n - 3] && name@.skip(n - 3)[1] == v@[n - 2]
            && name@.skip(n - 3)[2] == v@[n - 1]);
        String::from_str(name).concat(".md")
    }
}

/// The path of a chapter file, relative to the story folder.
pub open spec fn chapter_path(name: Seq<char>) -> Seq<char> {
    "Chương/"@ + name
}

/// The block of one earlier chapter.
pub open spec fn chapter_block(name: Seq<char>, content: Seq<char>) -> Seq<char> {
    "## "@ + name + "\n"@ + content + "\n\n"@
}

/// The markdown files among `files` (name, content), tagged for sorting by name.
pub open spec fn md_chapters(files: Seq<(String, String)>) -> Seq<(bool, String, String)>
    decreases files.len(),
{
    if files.len() == 0 {
        Seq::empty()
    } else if has_md_extension(files.last().0@) {
        md_chapters(files.drop_last()).push((false, files.last().0, files.last().1))
    } else {
        md_chapters(files.drop_last())
    }
}

/// The blocks of the chapters of `s`, in order, up to the chapter at `current`; chapters
/// with blank content give nothing.
pub open spec fn chapters_before(s: Seq<(bool, String, String)>, current: Seq<char>) -> Seq<char>
    decreases s.len(),
{
    if s.len() == 0 {
        Seq::empty()
    } else if chapter_path(s[0].1@) == current {
        Seq::empty()
    } else {
        let block = if trim(s[0].2@).len() == 0 {
            Seq::empty()
        } else {
            chapter_block(s[0].1@, s[0].2@)
        };
        block + chapters_before(s.drop_first(), current)
    }
}

/// The text of the chapters that come before `current`: the markdown files of the chapter
/// folder (name, content) sorted by name, taken until the current file.
pub open spec fn previous_chapters_text(files: Seq<(String, String)>, current: Seq<char>) -> Seq<
    char,
> {
    chapters_before(sorted_entries(md_chapters(files)), current)
}

fn markdown_chapters(files: Vec<(String, String)>) -> (r: Vec<(bool, String, String)>)
    ensures
        r@ == md_chapters(files@),
{
    let ghost orig = files@;
    let mut rest = files;
    let mut out: Vec<(bool, String, String)> = Vec::new();
    let ghost mut done: int = 0;
    while rest.len() > 0
        invariant
            0 <= done <= orig.len(),
            rest@ == orig.skip(done),
            out@ == md_chapters(orig.take(done)),
        decreases rest.len(),
    {
        let (name, content) = rest.remove(0);
        proof {
            assert((name, content) == orig[done]);
            assert(orig.take(done + 1).drop_last() =~= orig.take(done));
            assert(orig.take(done + 1).last() == orig[done]);
            assert(orig.skip(done).drop_first() =~= orig.skip(done + 1));
        }
        let is_md = markdown_stem(name.as_str()).is_some();
        if is_md {
            out.push((false, name, content));
        }
        proof {
            done = done + 1;
        }
    }
    assert(orig.take(done) =~= orig);
    out
}

/// The chapters written before `current_file`, from the files (name, content) of the
/// chapter folder.
pub fn previous_chapters(files: Vec<(String, String)>, current_file: &str) -> (r: String)
    ensures
        r@ == previous_chapters_text(files@, current_file@),
{
    let sorted = sort_entries(markdown_chapters(files));
    let ghost all = sorted@;
    let mut out = String::new();
    let mut i: usize = 0;
    assert(all.skip(0) =~= all);
    while i < sorted.len()
        invariant
            i <= sorted.len(),
            all == sorted@,
            chapters_before(all, current_file@) == out@ + chapters_before(all.skip(i as int), current_file@),
        ensures
            chapters_before(all, current_file@) == out@,
        decreases sorted.len() - i,
    {
        let ghost rest = all.skip(i as int);
        assert(rest[0] == all[i as int]);
        assert(rest.drop_first() =~= all.skip(i + 1));
        let rel = String::from_str("Chương/").concat(sorted[i].1.as_str());
        if str_eq(rel.as_str(), current_file) {
            assert(chapters_before(rest, current_file@) == Seq::<char>::empty());
            assert(out@ + Seq::<char>::empty() =~= out@);
            break;
        }
        if !is_blank(sorted[i].2.as_str()) {
            let ghost before = out@;
            out.append("## ");
            out.append(sorted[i].1.as_str());
            out.append("\n");
            out.append(sorted[i].2.as_str());
            out.append("\n\n");
            assert(out@ =~= before + chapter_block(all[i as int].1@, all[i as int].2@));
        } else {
            assert(chapters_before(rest, current_file@) =~= Seq::<char>::empty()
                + chapters_before(rest.drop_first(), current_file@));
        }
        i += 1;
    }
    out
}

/// The markdown files of the chapter folder (name, content), sorted by name.
pub open spec fn sorted_chapters(files: Seq<(String, String)>) -> Seq<(bool, String, String)> {
    sorted_entries(md_chapters(files))
}

/// The blocks of all the chapters of `s`, in order; a chapter with blank content gives
/// nothing.
pub open spec fn chapter_blocks(s: Seq<(bool, String, String)>) -> Seq<char>
    decreases s.len(),
{
    if s.len() == 0 {
        Seq::empty()
    } else {
        (if trim(s[0].2@).len() == 0 {
            Seq::empty()
        } else {
            chapter_block(s[0].1@, s[0].2@)
        }) + chapter_blocks(s.drop_first())
    }
}

proof fn lemma_chapter_path_injective(x: Seq<char>, y: Seq<char>)
    requires
        chapter_path(x) == chapter_path(y),
    ensures
        x == y,
{
    let p = "Chương/"@;
    assert(x =~= (p + x).skip(p.len() as int));
    assert(y =~= (p + y).skip(p.len() as int));
}

proof fn lemma_stops_at(s: Seq<(bool, String, String)>, current: Seq<char>, k: int)
    requires
        0 <= k < s.len(),
        chapter_path(s[k].1@) == current,
        forall|i: int| 0 <= i < k ==> chapter_path(#[trigger] s[i].1@) != current,
    ensures
        chapters_before(s, current) == chapter_blocks(s.take(k)),
    decreases k,
{
    if k == 0 {
        assert(s.take(0) =~= Seq::<(bool, String, String)>::empty());
    } else {
        let t = s.drop_first();
        assert forall|i: int| 0 <= i < k - 1 implies chapter_path(#[trigger] t[i].1@) != current by {
            assert(t[i] == s[i + 1]);
        }
        assert(t[k - 1] == s[k]);
        assert(chapter_path(s[0].1@) != current);
        lemma_stops_at(t, current, k - 1);
        assert(s.take(k).drop_first() =~= t.take(k - 1));
        assert(s.take(k)[0] == s[0]);
    }
}

proof fn lemma_md_chapters_are_files(files: Seq<(String, String)>)
    ensures
        forall|i: int| 0 <= i < md_chapters(files).len() ==> !(#[trigger] md_chapters(files)[i]).0,
    decreases files.len(),
{
    if files.len() > 0 {
        let prev = md_chapters(files.drop_last());
        lemma_md_chapters_are_files(files.drop_last());
        assert forall|i: int| 0 <= i < md_chapters(files).len() implies !(
        #[trigger] md_chapters(files)[i]).0 by {
            if i < prev.len() {
                assert(md_chapters(files)[i] == prev[i]);
            }
        }
    }
}

proof fn lemma_first_named(s: Seq<(bool, String, String)>, n: Seq<char>, j: int) -> (k: int)
    requires
        0 <= j < s.len(),
        s[j].1@ == n,
    ensures
        0 <= k <= j,
        s[k].1@ == n,
        forall|i: int| 0 <= i < k ==> (#[trigger] s[i]).1@ != n,
    decreases j,
{
    if exists|i: int| 0 <= i < j && (#[trigger] s[i]).1@ == n {
        let i = choose|i: int| 0 <= i < j && (#[trigger] s[i]).1@ == n;
        lemma_first_named(s, n, i)
    } else {
        j
    }
}

/// The previous chapters stop at the current one: when the file being written is the
/// chapter `n` of the chapter folder, the text holds, in name order, the blocks of exactly
/// the chapters whose names sort strictly before `n` — none of the current chapter and
/// none of a chapter after it.
pub proof fn law_previous_chapters_stop_at_current(files: Seq<(String, String)>, n: Seq<char>)
    requires
        exists|j: int|
            0 <= j < sorted_chapters(files).len() && (#[trigger] sorted_chapters(files)[j]).1@ == n,
    ensures
        exists|k: int|
            0 <= k <= sorted_chapters(files).len() && previous_chapters_text(files, chapter_path(n))
                == chapter_blocks(#[trigger] sorted_chapters(files).take(k)) && (forall|i: int|
                0 <= i < k ==> name_lt((#[trigger] sorted_chapters(files)[i]).1@, n)) && (forall|
                i: int,
            |
                k <= i < sorted_chapters(files).len() ==> !name_lt(
                    (#[trigger] sorted_chapters(files)[i]).1@,
                    n,
                )),
{
    broadcast use vstd::seq_lib::group_to_multiset_ensures;

    let md = md_chapters(files);
    let s = sorted_entries(md);
    let j = choose|j: int| 0 <= j < sorted_chapters(files).len() && (#[trigger] sorted_chapters(files)[j]).1@ == n;
    let k = lemma_first_named(s, n, j);
    assert(s == sorted_chapters(files));
    lemma_md_chapters_are_files(files);
    law_sorted_entries_permutes(md);
    law_sorted_entries_ordered(md);
    assert forall|i: int| 0 <= i < s.len() implies !(#[trigger] s[i]).0 by {
        assert(s.contains(s[i]));
        assert(s.to_multiset().count(s[i]) > 0);
        assert(md.contains(s[i]));
    }
    assert forall|i: int| 0 <= i < k implies chapter_path(#[trigger] s[i].1@) != chapter_path(n) by {
        if chapter_path(s[i].1@) == chapter_path(n) {
            lemma_chapter_path_injective(s[i].1@, n);
        }
    }
    lemma_stops_at(s, chapter_path(n), k);
    assert forall|i: int| 0 <= i < k implies name_lt((#[trigger] s[i]).1@, n) by {
        assert(!entry_lt(s[k], s[i]));
        assert(!s[i].0 && !s[k].0);
        lemma_name_lt_total(s[i].1@, n);
    }
    assert forall|i: int| k <= i < s.len() implies !name_lt((#[trigger] s[i]).1@, n) by {
        if i == k {
            lemma_name_lt_irreflexive(n);
        } else {
            assert(!entry_lt(s[i], s[k]));
            assert(!s[i].0 && !s[k].0);
        }
    }
}

/// The block of one knowledge file in a section of the story's context.
pub open spec fn file_block(stem: Seq<char>, content: Seq<char>) -> Seq<char> {
    "### "@ + stem + "\n"@ + content + "\n\n"@
}

/// The blocks of the markdown files among `files` (name, content) whose content is not
/// blank, in the order given.
pub open spec fn section_body(files: Seq<(String, String)>) -> Seq<char>
    decreases files.len(),
{
    if files.len() == 0 {
        Seq::empty()
    } else {
        let name = files.last().0@;
        let content = files.last().1@;
        let block = if has_md_extension(name) && trim(content).len() != 0 {
            file_block(md_stem(name), content)
        } else {
            Seq::empty()
        };
        section_body(files.drop_last()) + block
    }
}

/// A section of the story's context; a section with nothing in it is left out.
pub open spec fn section_text(heading: Seq<char>, body: Seq<char>) -> Seq<char> {
    if body.len() == 0 {
        Seq::empty()
    } else {
        "## "@ + heading + "\n"@ + body + "\n"@
    }
}

/// The sections of `sections` (heading, files of its folder), in order.
pub open spec fn sections_text(sections: Seq<(String, Vec<(String, String)>)>) -> Seq<char>
    decreases sections.len(),
{
    if sections.len() == 0 {
        Seq::empty()
    } else {
        sections_text(sections.drop_last()) + section_text(
            sections.last().0@,
            section_body(sections.last().1@),
        )
    }
}

/// The heading of the story's context.
pub open spec fn context_heading() -> Seq<char> {
    "# KIẾN THỨC VỀ TRUYỆN\n\n"@
}

/// The folders whose markdown files make up the story's context, each with the heading
/// of its section, in the order of the sections.
pub fn story_sections() -> (r: Vec<(&'static str, &'static str)>)
    ensures
        r@.len() == 4,
        r@[0].0@ == "Quy tắc"@ && r@[0].1@ == "QUY TẮC TRUYỆN"@,
        r@[1].0@ == "Nhân vật"@ && r@[1].1@ == "NHÂN VẬT"@,
        r@[2].0@ == "Vật phẩm"@ && r@[2].1@ == "VẬT PHẨM & BỐI CẢNH"@,
        r@[3].0@ == "Cốt truyện"@ && r@[3].1@ == "CỐT TRUYỆN"@,
{
    vec![
        ("Quy tắc", "QUY TẮC TRUYỆN"),
        ("Nhân vật", "NHÂN VẬT"),
        ("Vật phẩm", "VẬT PHẨM & BỐI CẢNH"),
        ("Cốt truyện", "CỐT TRUYỆN"),
    ]
}

fn section_content(files: &Vec<(String, String)>) -> (r: String)
    ensures
        r@ == section_body(files@),
{
    let mut out = String::new();
    let mut i: usize = 0;
    while i < files.len()
        invariant
            i <= files.len(),
            out@ == section_body(files@.take(i as int)),
        decreases files.len() - i,
    {
        assert(files@.take(i + 1).drop_last() =~= files@.take(i as int));
        let stem = markdown_stem(files[i].0.as_str());
        match stem {
            Some(stem) => {
                if !is_blank(files[i].1.as_str()) {
                    let ghost before = out@;
                    out.append("### ");
                    out.append(stem.as_str());
                    out.append("\n");
                    out.append(files[i].1.as_str());
                    out.append("\n\n");
                    assert(out@ =~= before + file_block(stem@, files@[i as int].1@));
                } else {
                    assert(out@ =~= out@ + Seq::<char>::empty());
                }
            },
            None => {
                assert(out@ =~= out@ + Seq::<char>::empty());
            },
        }
        i += 1;
    }
    assert(files@.take(i as int) =~= files@);
    out
}

/// The story's knowledge, from each section's heading and the files (name, content) of
/// its folder, in the order the folder lists them; a missing folder has no files.
pub fn story_context(sections: &Vec<(String, Vec<(String, String)>)>) -> (r: String)
    ensures
        r@ == context_heading() + sections_text(sections@),
{
    let mut out = String::from_str("# KIẾN THỨC VỀ TRUYỆN\n\n");
    let mut i: usize = 0;
    while i < sections.len()
        invariant
            i <= sections.len(),
            out@ == context_heading() + sections_text(sections@.take(i as int)),
        decreases sections.len() - i,
    {
        assert(sections@.take(i + 1).drop_last() =~= sections@.take(i as int));
        let body = section_content(&sections[i].1);
        let ghost before = out@;
        if body.as_str().is_empty() {
            assert(out@ =~= before + Seq::<char>::empty());
        } else {
            out.append("## ");
            out.append(sections[i].0.as_str());
            out.append("\n");
            out.append(body.as_str());
            out.append("\n");
            assert(out@ =~= before + section_text(sections@[i as int].0@, body@));
        }
        assert(out@ =~= context_heading() + sections_text(sections@.take(i + 1)));
        i += 1;
    }
    assert(sections@.take(i as int) =~= sections@);
    out
}

/// The line of one entity in the wiki's list.
pub open spec fn wiki_line(rel: Seq<char>) -> Seq<char> {
    "• "@ + rel + "\n"@
}

/// The lines of the markdown files among `files` (file name, path relative to the story
/// folder), in order.
pub open spec fn wiki_lines(files: Seq<(String, String)>) -> Seq<char>
    decreases files.len(),
{
    if files.len() == 0 {
        Seq::empty()
    } else {
        let f = files.last();
        wiki_lines(files.drop_last()) + if has_md_extension(f.0@) {
            wiki_line(f.1@)
        } else {
            Seq::empty()
        }
    }
}

/// The heading of the wiki's list of entities.
pub open spec fn wiki_heading() -> Seq<char> {
    "--- DANH SÁCH THỰC THỂ WIKI ---\n"@
}

/// The wiki's list of entities, from the files (file name, relative path) found under the
/// wiki folder, in the order they were found.
pub fn wiki_listing(files: &Vec<(String, String)>) -> (r: String)
    ensures
        r@ == wiki_heading() + wiki_lines(files@),
{
    let mut out = String::from_str("--- DANH SÁCH THỰC THỂ WIKI ---\n");
    let mut i: usize = 0;
    while i < files.len()
        invariant
            i <= files.len(),
            out@ == wiki_heading() + wiki_lines(files@.take(i as int)),
        decreases files.len() - i,
    {
        assert(files@.take(i + 1).drop_last() =~= files@.take(i as int));
        let ghost before = out@;
        if markdown_stem(files[i].0.as_str()).is_some() {
            out.append("• ");
            out.append(files[i].1.as_str());
            out.append("\n");
            assert(out@ =~= before + wiki_line(files@[i as int].1@));
        } else {
            assert(out@ =~= before + Seq::<char>::empty());
        }
        assert(out@ =~= wiki_heading() + wiki_lines(files@.take(i + 1)));
        i += 1;
    }
    assert(files@.take(i as int) =~= files@);
    out
}

} // verus!
