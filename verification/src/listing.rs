//! Listings of the story's folders: folders first, then by name, hidden entries left out.

use vstd::prelude::*;
use vstd::string::*;
use crate::text::{str_eq, views};

verus! {

/// Whether `a` comes before `b` in the order of `String::cmp` (by code points).
pub open spec fn name_lt(a: Seq<char>, b: Seq<char>) -> bool
    decreases a.len(),
{
    if a.len() == 0 {
        b.len() > 0
    } else if b.len() == 0 {
        false
    } else if a[0] != b[0] {
        (a[0] as u32) < (b[0] as u32)
    } else {
        name_lt(a.drop_first(), b.drop_first())
    }
}

/// Whether `a` comes before `b` (by name).
pub fn name_less(a: &str, b: &str) -> (r: bool)
    ensures
        r == name_lt(a@, b@),
{
    let av = crate::text::chars_of(a);
    let bv = crate::text::chars_of(b);
    let mut i: usize = 0;
    assert(av@.skip(0) =~= av@);
    assert(bv@.skip(0) =~= bv@);
    while i < av.len() && i < bv.len() && av[i] == bv[i]
        invariant
            i <= av.len(),
            i <= bv.len(),
            name_lt(a@, b@) == name_lt(av@.skip(i as int), bv@.skip(i as int)),
            av@ == a@,
            bv@ == b@,
        decreases av.len() - i,
    {
        assert(av@.skip(i as int).drop_first() =~= av@.skip(i + 1));
        assert(bv@.skip(i as int).drop_first() =~= bv@.skip(i + 1));
        i += 1;
    }
    if i == av.len() {
        i < bv.len()
    } else if i == bv.len() {
        false
    } else {
        (av[i] as u32) < (bv[i] as u32)
    }
}

/// Whether entry `x` (is a folder, name, payload) comes before entry `y`: folders before
/// files, then by name.
pub open spec fn entry_lt<T>(x: (bool, String, T), y: (bool, String, T)) -> bool {
    (x.0 && !y.0) || (x.0 == y.0 && name_lt(x.1@, y.1@))
}

/// `x` inserted into `s` after every entry that does not come after it.
pub open spec fn insert_sorted<T>(s: Seq<(bool, String, T)>, x: (bool, String, T)) -> Seq<
    (bool, String, T),
>
    decreases s.len(),
{
    if s.len() == 0 {
        seq![x]
    } else if entry_lt(x, s[0]) {
        seq![x] + s
    } else {
        seq![s[0]] + insert_sorted(s.drop_first(), x)
    }
}

/// `s` sorted (stably) folders first, then by name.
pub open spec fn sorted_entries<T>(s: Seq<(bool, String, T)>) -> Seq<(bool, String, T)>
    decreases s.len(),
{
    if s.len() == 0 {
        s
    } else {
        insert_sorted(sorted_entries(s.drop_last()), s.last())
    }
}

proof fn lemma_insert_at<T>(s: Seq<(bool, String, T)>, x: (bool, String, T), k: int)
    requires
        0 <= k <= s.len(),
        forall|j: int| 0 <= j < k ==> !entry_lt(x, #[trigger] s[j]),
        k < s.len() ==> entry_lt(x, s[k]),
    ensures
        insert_sorted(s, x) == s.insert(k, x),
    decreases k,
{
    if s.len() == 0 {
        assert(s.insert(k, x) =~= seq![x]);
    } else if k == 0 {
        assert(s.insert(0, x) =~= seq![x] + s);
    } else {
        let t = s.drop_first();
        assert forall|j: int| 0 <= j < k - 1 implies !entry_lt(x, #[trigger] t[j]) by {
            assert(t[j] == s[j + 1]);
        }
        lemma_insert_at(t, x, k - 1);
        assert(seq![s[0]] + t.insert(k - 1, x) =~= s.insert(k, x));
    }
}

fn entry_less<T>(x: &(bool, String, T), y: &(bool, String, T)) -> (r: bool)
    ensures
        r == entry_lt(*x, *y),
{
    (x.0 && !y.0) || (x.0 == y.0 && name_less(x.1.as_str(), y.1.as_str()))
}

/// Sorts entries folders first, then by name, keeping the order of equal entries.
pub fn sort_entries<T>(v: Vec<(bool, String, T)>) -> (r: Vec<(bool, String, T)>)
    ensures
        r@ == sorted_entries(v@),
{
    let ghost orig = v@;
    let mut rest = v;
    let mut out: Vec<(bool, String, T)> = Vec::new();
    let ghost mut done: int = 0;
    while rest.len() > 0
        invariant
            0 <= done <= orig.len(),
            rest@ == orig.skip(done),
            out@ == sorted_entries(orig.take(done)),
        decreases rest.len(),
    {
        let x = rest.remove(0);
        assert(x == orig[done]);
        let mut k: usize = 0;
        while k < out.len() && !entry_less(&x, &out[k])
            invariant
                k <= out.len(),
                forall|j: int| 0 <= j < k ==> !entry_lt(x, #[trigger] out@[j]),
            decreases out.len() - k,
        {
            k += 1;
        }
        proof {
            lemma_insert_at(out@, x, k as int);
            assert(orig.take(done + 1).drop_last() =~= orig.take(done));
            assert(orig.take(done + 1).last() == x);
            assert(orig.skip(done).drop_first() =~= orig.skip(done + 1));
        }
        out.insert(k, x);
        proof {
            done = done + 1;
        }
    }
    assert(orig.take(done) =~= orig);
    out
}

/// Whether a file or folder name is hidden (begins with a dot).
pub open spec fn is_hidden(name: Seq<char>) -> bool {
    name.len() > 0 && name[0] == '.'
}

/// Whether `name` is hidden.
pub fn is_hidden_name(name: &str) -> (b: bool)
    ensures
        b == is_hidden(name@),
{
    name.unicode_len() > 0 && name.get_char(0) == '.'
}

/// The entries of `s` whose names are not hidden, in their order.
pub open spec fn visible<T>(s: Seq<(bool, String, T)>) -> Seq<(bool, String, T)>
    decreases s.len(),
{
    if s.len() == 0 {
        s
    } else if is_hidden(s.last().1@) {
        visible(s.drop_last())
    } else {
        visible(s.drop_last()).push(s.last())
    }
}

/// Leaves out the entries with hidden names, keeping the order of the others.
pub fn visible_entries<T>(v: Vec<(bool, String, T)>) -> (r: Vec<(bool, String, T)>)
    ensures
        r@ == visible(v@),
{
    let ghost orig = v@;
    let mut rest = v;
    let mut out: Vec<(bool, String, T)> = Vec::new();
    let ghost mut done: int = 0;
    while rest.len() > 0
        invariant
            0 <= done <= orig.len(),
            rest@ == orig.skip(done),
            out@ == visible(orig.take(done)),
        decreases rest.len(),
    {
        let x = rest.remove(0);
        proof {
            assert(x == orig[done]);
            assert(orig.take(done + 1).drop_last() =~= orig.take(done));
            assert(orig.take(done + 1).last() == x);
            assert(orig.skip(done).drop_first() =~= orig.skip(done + 1));
        }
        if !is_hidden_name(x.1.as_str()) {
            out.push(x);
        }
        proof {
            done = done + 1;
        }
    }
    assert(orig.take(done) =~= orig);
    out
}

/// The icon in front of an entry of a listing.
pub open spec fn entry_icon(is_dir: bool) -> Seq<char> {
    if is_dir {
        "📁"@
    } else {
        "📄"@
    }
}

/// One line of a directory listing: icon, name and path relative to the story folder.
pub open spec fn listing_line(e: (bool, String, String)) -> Seq<char> {
    entry_icon(e.0) + " "@ + e.1@ + " ("@ + e.2@ + ")\n"@
}

/// The lines of all entries of `s`, in order.
pub open spec fn listing_text(s: Seq<(bool, String, String)>) -> Seq<char>
    decreases s.len(),
{
    if s.len() == 0 {
        Seq::empty()
    } else {
        listing_text(s.drop_last()) + listing_line(s.last())
    }
}

/// What a listing of an empty folder says.
pub open spec fn empty_listing() -> Seq<char> {
    "Thư mục trống."@
}

/// The listing of a folder whose entries (is a folder, name, relative path) are `s`:
/// hidden entries left out, folders first, then by name; a folder with nothing to show
/// gives the empty-folder message.
pub open spec fn directory_listing(s: Seq<(bool, String, String)>) -> Seq<char> {
    let shown = sorted_entries(visible(s));
    if shown.len() == 0 {
        empty_listing()
    } else {
        listing_text(shown)
    }
}

fn listing_line_text(e: &(bool, String, String)) -> (r: String)
    ensures
        r@ == listing_line(*e),
{
    let icon = if e.0 {
        "📁"
    } else {
        "📄"
    };
    String::from_str(icon).concat(" ").concat(e.1.as_str()).concat(" (").concat(e.2.as_str()).concat(
        ")\n",
    )
}

/// Formats the entries of a folder (is a folder, name, relative path) as the
/// `list_directory` tool reports them.
pub fn format_directory_listing(entries: Vec<(bool, String, String)>) -> (r: String)
    ensures
        r@ == directory_listing(entries@),
{
    let shown = sort_entries(visible_entries(entries));
    if shown.len() == 0 {
        return String::from_str("Thư mục trống.");
    }
    let mut out = String::new();
    let mut i: usize = 0;
    while i < shown.len()
        invariant
            i <= shown.len(),
            out@ == listing_text(shown@.take(i as int)),
        decreases shown.len() - i,
    {
        proof {
            assert(shown@.take(i + 1).drop_last() =~= shown@.take(i as int));
        }
        let line = listing_line_text(&shown[i]);
        out = out.concat(line.as_str());
        i += 1;
    }
    assert(shown@.take(i as int) =~= shown@);
    out
}

/// One entry of the story's file tree, as the file explorer shows it.
pub struct FileNode {
    pub name: String,
    /// Path relative to the story folder.
    pub path: String,
    /// `"file"` or `"folder"`.
    pub node_type: String,
    pub children: Vec<FileNode>,
}

/// The node type written for a folder or a file.
pub open spec fn node_type_of(is_dir: bool) -> Seq<char> {
    if is_dir {
        "folder"@
    } else {
        "file"@
    }
}

/// Whether `n` is the childless node of entry `e` (is a folder, name, relative path).
pub open spec fn node_of(n: FileNode, e: (bool, String, String)) -> bool {
    &&& n.name@ == e.1@
    &&& n.path@ == e.2@
    &&& n.node_type@ == node_type_of(e.0)
    &&& n.children@.len() == 0
}

/// The entries that one level of the file explorer shows, in order: folders first, then by
/// name, hidden entries left out.
pub open spec fn explorer_entries(s: Seq<(bool, String, String)>) -> Seq<(bool, String, String)> {
    visible(sorted_entries(s))
}

/// The nodes of one level of the file explorer, from the entries (is a folder, name,
/// relative path) of a folder.
pub fn file_nodes(entries: Vec<(bool, String, String)>) -> (r: Vec<FileNode>)
    ensures
        r.len() == explorer_entries(entries@).len(),
        forall|i: int|
            0 <= i < r.len() ==> node_of(#[trigger] r@[i], explorer_entries(entries@)[i]),
{
    let shown = visible_entries(sort_entries(entries));
    let mut nodes: Vec<FileNode> = Vec::new();
    let mut i: usize = 0;
    while i < shown.len()
        invariant
            i <= shown.len(),
            nodes.len() == i,
            forall|j: int| 0 <= j < i ==> node_of(#[trigger] nodes@[j], shown@[j]),
        decreases shown.len() - i,
    {
        let e = &shown[i];
        let node_type = if e.0 {
            String::from_str("folder")
        } else {
            String::from_str("file")
        };
        nodes.push(
            FileNode {
                name: e.1.clone(),
                path: e.2.clone(),
                node_type,
                children: Vec::new(),
            },
        );
        i += 1;
    }
    nodes
}

/// No name comes before itself.
pub proof fn lemma_name_lt_irreflexive(a: Seq<char>)
    ensures
        !name_lt(a, a),
    decreases a.len(),
{
    if a.len() > 0 {
        lemma_name_lt_irreflexive(a.drop_first());
    }
}

/// Of two different names, one comes before the other.
pub proof fn lemma_name_lt_total(a: Seq<char>, b: Seq<char>)
    requires
        a != b,
    ensures
        name_lt(a, b) || name_lt(b, a),
    decreases a.len(),
{
    if a.len() > 0 && b.len() > 0 && a[0] == b[0] {
        assert(a =~= seq![a[0]] + a.drop_first());
        assert(b =~= seq![b[0]] + b.drop_first());
        if a.drop_first() == b.drop_first() {
            assert(a =~= b);
        } else {
            lemma_name_lt_total(a.drop_first(), b.drop_first());
        }
    } else if a.len() == 0 && b.len() == 0 {
        assert(a =~= b);
    } else if a.len() > 0 && b.len() > 0 {
        assert(a[0] != b[0]);
        vstd::utf8::char_u32_cast(a[0], a[0] as u32);
        vstd::utf8::char_u32_cast(b[0], b[0] as u32);
        assert((a[0] as u32) != (b[0] as u32));
    }
}

proof fn lemma_name_lt_transitive(a: Seq<char>, b: Seq<char>, c: Seq<char>)
    requires
        name_lt(a, b),
        name_lt(b, c),
    ensures
        name_lt(a, c),
    decreases a.len(),
{
    if a.len() > 0 && a[0] == b[0] && b[0] == c[0] {
        lemma_name_lt_transitive(a.drop_first(), b.drop_first(), c.drop_first());
    }
}

proof fn lemma_name_lt_asymmetric(a: Seq<char>, b: Seq<char>)
    requires
        name_lt(a, b),
    ensures
        !name_lt(b, a),
{
    if name_lt(b, a) {
        lemma_name_lt_transitive(a, b, a);
        lemma_name_lt_irreflexive(a);
    }
}

proof fn lemma_entry_lt_transitive<T>(x: (bool, String, T), y: (bool, String, T), z: (bool, String, T))
    requires
        entry_lt(x, y),
        entry_lt(y, z),
    ensures
        entry_lt(x, z),
{
    if x.0 == y.0 && y.0 == z.0 {
        lemma_name_lt_transitive(x.1@, y.1@, z.1@);
    }
}

proof fn lemma_entry_lt_asymmetric<T>(x: (bool, String, T), y: (bool, String, T))
    requires
        entry_lt(x, y),
    ensures
        !entry_lt(y, x),
{
    if x.0 == y.0 {
        lemma_name_lt_asymmetric(x.1@, y.1@);
    }
}

/// Whether no entry of `s` comes before an entry that precedes it.
pub open spec fn entries_ordered<T>(s: Seq<(bool, String, T)>) -> bool {
    forall|i: int, j: int| 0 <= i < j < s.len() ==> !entry_lt(#[trigger] s[j], #[trigger] s[i])
}

proof fn lemma_insert_sorted_multiset<T>(s: Seq<(bool, String, T)>, x: (bool, String, T))
    ensures
        insert_sorted(s, x).to_multiset() =~= s.to_multiset().insert(x),
    decreases s.len(),
{
    broadcast use vstd::seq_lib::group_to_multiset_ensures;
    broadcast use vstd::multiset::group_multiset_axioms;

    if s.len() == 0 {
        assert(seq![x] =~= s.push(x));
    } else if entry_lt(x, s[0]) {
        vstd::seq_lib::lemma_multiset_commutative(seq![x], s);
        assert(seq![x] =~= Seq::<(bool, String, T)>::empty().push(x));
    } else {
        let rest = s.drop_first();
        lemma_insert_sorted_multiset(rest, x);
        vstd::seq_lib::lemma_multiset_commutative(seq![s[0]], insert_sorted(rest, x));
        vstd::seq_lib::lemma_multiset_commutative(seq![s[0]], rest);
        assert(seq![s[0]] + rest =~= s);
    }
}

proof fn lemma_insert_sorted_ordered<T>(s: Seq<(bool, String, T)>, x: (bool, String, T))
    requires
        entries_ordered(s),
    ensures
        entries_ordered(insert_sorted(s, x)),
    decreases s.len(),
{
    broadcast use vstd::seq_lib::group_to_multiset_ensures;
    broadcast use vstd::multiset::group_multiset_axioms;

    if s.len() == 0 {
    } else if entry_lt(x, s[0]) {
        let r = seq![x] + s;
        assert forall|i: int, j: int| 0 <= i < j < r.len() implies !entry_lt(
            #[trigger] r[j],
            #[trigger] r[i],
        ) by {
            if i == 0 {
                if j == 1 {
                    lemma_entry_lt_asymmetric(x, s[0]);
                } else if entry_lt(s[j - 1], x) {
                    lemma_entry_lt_transitive(s[j - 1], x, s[0]);
                    assert(!entry_lt(s[j - 1], s[0]));
                }
            } else {
                assert(r[i] == s[i - 1] && r[j] == s[j - 1]);
            }
        }
    } else {
        let rest = s.drop_first();
        assert forall|i: int, j: int| 0 <= i < j < rest.len() implies !entry_lt(
            #[trigger] rest[j],
            #[trigger] rest[i],
        ) by {
            assert(rest[i] == s[i + 1] && rest[j] == s[j + 1]);
        }
        lemma_insert_sorted_ordered(rest, x);
        lemma_insert_sorted_multiset(rest, x);
        let t = insert_sorted(rest, x);
        let r = seq![s[0]] + t;
        assert forall|i: int, j: int| 0 <= i < j < r.len() implies !entry_lt(
            #[trigger] r[j],
            #[trigger] r[i],
        ) by {
            if i == 0 {
                let e = t[j - 1];
                assert(t.contains(e));
                assert(t.to_multiset().count(e) > 0);
                if e != x {
                    assert(rest.to_multiset().count(e) > 0);
                    assert(rest.contains(e));
                    let k = choose|k: int| 0 <= k < rest.len() && rest[k] == e;
                    assert(s[k + 1] == e);
                }
            } else {
                assert(r[i] == t[i - 1] && r[j] == t[j - 1]);
            }
        }
    }
}

/// Sorting keeps exactly the entries it was given, each as many times.
pub proof fn law_sorted_entries_permutes<T>(s: Seq<(bool, String, T)>)
    ensures
        sorted_entries(s).to_multiset() =~= s.to_multiset(),
    decreases s.len(),
{
    broadcast use vstd::seq_lib::group_to_multiset_ensures;

    if s.len() > 0 {
        law_sorted_entries_permutes(s.drop_last());
        lemma_insert_sorted_multiset(sorted_entries(s.drop_last()), s.last());
        assert(s.drop_last().push(s.last()) =~= s);
    }
}

/// Sorted entries come folders first, then by name: no entry comes before one that
/// precedes it.
pub proof fn law_sorted_entries_ordered<T>(s: Seq<(bool, String, T)>)
    ensures
        entries_ordered(sorted_entries(s)),
    decreases s.len(),
{
    if s.len() > 0 {
        law_sorted_entries_ordered(s.drop_last());
        lemma_insert_sorted_ordered(sorted_entries(s.drop_last()), s.last());
    }
}

/// No hidden entry is shown, and every entry that is not hidden is, in its order.
pub proof fn law_visible_hides_only_hidden<T>(s: Seq<(bool, String, T)>)
    ensures
        forall|i: int| 0 <= i < visible(s).len() ==> !is_hidden(#[trigger] visible(s)[i].1@),
        visible(s) == s.filter(|e: (bool, String, T)| !is_hidden(e.1@)),
    decreases s.len(),
{
    reveal(Seq::filter);
    if s.len() > 0 {
        law_visible_hides_only_hidden(s.drop_last());
    }
}

} // verus!
