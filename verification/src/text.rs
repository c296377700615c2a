//! Character-level text utilities with exact specifications.

use vstd::prelude::*;
use vstd::string::*;

verus! {

/// Appends one character to a string (std `String::push`).
#[verifier::external_body]
pub(crate) fn push_char(s: &mut String, c: char)
    ensures
        final(s)@ == old(s)@.push(c),
{
    s.push(c);
}

/// The characters of a string slice, in order.
pub fn chars_of(s: &str) -> (v: Vec<char>)
    ensures
        v@ == s@,
{
    let mut v: Vec<char> = Vec::new();
    for c in it: s.chars()
        invariant
            v@ == it.seq().take(it.index() as int),
    {
        v.push(c);
    }
    v
}

/// Builds a string from the characters `v[lo..hi]`.
pub fn string_from_chars(v: &Vec<char>, lo: usize, hi: usize) -> (r: String)
    requires
        lo <= hi <= v.len(),
    ensures
        r@ == v@.subrange(lo as int, hi as int),
{
    let mut r = String::new();
    let mut i = lo;
    while i < hi
        invariant
            lo <= i <= hi <= v.len(),
            r@ == v@.subrange(lo as int, i as int),
        decreases hi - i,
    {
        push_char(&mut r, v[i]);
        i += 1;
        assert(r@ =~= v@.subrange(lo as int, i as int));
    }
    r
}

} // verus!

verus! {

/// Unicode `White_Space` property, as used by `char::is_whitespace`.
pub open spec fn is_ws(c: char) -> bool {
    let u = c as u32;
    ||| 0x9 <= u <= 0xd
    ||| u == 0x20
    ||| u == 0x85
    ||| u == 0xa0
    ||| u == 0x1680
    ||| 0x2000 <= u <= 0x200a
    ||| u == 0x2028
    ||| u == 0x2029
    ||| u == 0x202f
    ||| u == 0x205f
    ||| u == 0x3000
}

/// Whether `c` is a Unicode whitespace character.
pub fn is_whitespace_char(c: char) -> (b: bool)
    ensures
        b == is_ws(c),
{
    let u = c as u32;
    (0x9 <= u && u <= 0xd) || u == 0x20 || u == 0x85 || u == 0xa0 || u == 0x1680 || (0x2000 <= u
        && u <= 0x200a) || u == 0x2028 || u == 0x2029 || u == 0x202f || u == 0x205f || u == 0x3000
}

/// `s` with its leading whitespace removed.
pub open spec fn trim_start(s: Seq<char>) -> Seq<char>
    decreases s.len(),
{
    if s.len() > 0 && is_ws(s[0]) {
        trim_start(s.drop_first())
    } else {
        s
    }
}

/// `s` with its trailing whitespace removed.
pub open spec fn trim_end(s: Seq<char>) -> Seq<char>
    decreases s.len(),
{
    if s.len() > 0 && is_ws(s.last()) {
        trim_end(s.drop_last())
    } else {
        s
    }
}

/// `s` with whitespace removed at both ends (`str::trim`).
pub open spec fn trim(s: Seq<char>) -> Seq<char> {
    trim_end(trim_start(s))
}

/// Whether `s` begins with `p`.
pub open spec fn starts_with(s: Seq<char>, p: Seq<char>) -> bool {
    p.len() <= s.len() && s.subrange(0, p.len() as int) == p
}

/// Whether `p` occurs in `s` at position `i`.
pub open spec fn occurs_at(s: Seq<char>, p: Seq<char>, i: int) -> bool {
    0 <= i && i + p.len() <= s.len() && s.subrange(i, i + p.len()) == p
}

/// Whether `p` occurs somewhere in `s`.
pub open spec fn contains_seq(s: Seq<char>, p: Seq<char>) -> bool {
    exists|i: int| occurs_at(s, p, i)
}

/// Whether every character of `s` is whitespace.
pub open spec fn all_ws(s: Seq<char>) -> bool {
    forall|i: int| 0 <= i < s.len() ==> is_ws(#[trigger] s[i])
}

/// Number of whitespace-separated words (`str::split_whitespace().count()`).
pub open spec fn word_count(s: Seq<char>) -> nat
    decreases s.len(),
{
    if s.len() == 0 {
        0
    } else {
        let starts_word = !is_ws(s.last()) && (s.len() == 1 || is_ws(s[s.len() - 2]));
        word_count(s.drop_last()) + if starts_word {
            1nat
        } else {
            0nat
        }
    }
}

proof fn lemma_trim_start_skip(s: Seq<char>, i: int)
    requires
        0 <= i < s.len(),
        is_ws(s[i]),
    ensures
        trim_start(s.skip(i)) == trim_start(s.skip(i + 1)),
{
    assert(s.skip(i).drop_first() =~= s.skip(i + 1));
}

proof fn lemma_trim_end_take(s: Seq<char>, j: int)
    requires
        0 < j <= s.len(),
        is_ws(s[j - 1]),
    ensures
        trim_end(s.take(j)) == trim_end(s.take(j - 1)),
{
    assert(s.take(j).drop_last() =~= s.take(j - 1));
}

/// Bounds `[lo, hi)` of `trim(v)` inside `v`.
pub fn trim_bounds(v: &Vec<char>) -> (r: (usize, usize))
    ensures
        r.0 <= r.1 <= v.len(),
        v@.subrange(r.0 as int, r.1 as int) == trim(v@),
{
    let n = v.len();
    let mut i: usize = 0;
    assert(v@.skip(0) =~= v@);
    while i < n && is_whitespace_char(v[i])
        invariant
            i <= n == v.len(),
            trim_start(v@) == trim_start(v@.skip(i as int)),
        decreases n - i,
    {
        proof {
            lemma_trim_start_skip(v@, i as int);
        }
        i += 1;
    }
    let ghost t = v@.skip(i as int);
    assert(trim_start(v@) == t);
    let mut j: usize = n;
    assert(t.take((n - i) as int) =~= t);
    while j > i && is_whitespace_char(v[j - 1])
        invariant
            i <= j <= n == v.len(),
            t == v@.skip(i as int),
            trim_end(t) == trim_end(t.take(j - i)),
        decreases j,
    {
        proof {
            lemma_trim_end_take(t, (j - i) as int);
        }
        j -= 1;
    }
    assert(trim_end(t.take(j - i)) == t.take(j - i));
    assert(t.take(j - i) =~= v@.subrange(i as int, j as int));
    (i, j)
}

/// `str::trim`, returned as an owned string.
pub fn trim_string(s: &str) -> (r: String)
    ensures
        r@ == trim(s@),
{
    let v = chars_of(s);
    let (lo, hi) = trim_bounds(&v);
    string_from_chars(&v, lo, hi)
}

/// Whether `s` is empty or made only of whitespace (`s.trim().is_empty()`).
pub fn is_blank(s: &str) -> (b: bool)
    ensures
        b == (trim(s@).len() == 0),
{
    let v = chars_of(s);
    let (lo, hi) = trim_bounds(&v);
    lo == hi
}

/// `s.starts_with(p)`.
pub fn seq_starts_with(s: &Vec<char>, p: &Vec<char>) -> (b: bool)
    ensures
        b == starts_with(s@, p@),
{
    if p.len() > s.len() {
        return false;
    }
    let mut i: usize = 0;
    while i < p.len()
        invariant
            i <= p.len() <= s.len(),
            forall|k: int| 0 <= k < i ==> s@[k] == p@[k],
        decreases p.len() - i,
    {
        if s[i] != p[i] {
            assert(s@.subrange(0, p.len() as int)[i as int] != p@[i as int]);
            return false;
        }
        i += 1;
    }
    assert(s@.subrange(0, p.len() as int) =~= p@);
    true
}

/// `str::starts_with` on string slices.
pub fn str_starts_with(s: &str, p: &str) -> (b: bool)
    ensures
        b == starts_with(s@, p@),
{
    let sv = chars_of(s);
    let pv = chars_of(p);
    seq_starts_with(&sv, &pv)
}

/// Whether `p` occurs in `s` at position `i`.
fn occurs_at_exec(s: &Vec<char>, p: &Vec<char>, i: usize) -> (b: bool)
    requires
        i + p.len() <= s.len(),
    ensures
        b == occurs_at(s@, p@, i as int),
{
    let mut k: usize = 0;
    while k < p.len()
        invariant
            k <= p.len(),
            i + p.len() <= s.len(),
            forall|m: int| 0 <= m < k ==> s@[i + m] == p@[m],
        decreases p.len() - k,
    {
        if s[i + k] != p[k] {
            assert(s@.subrange(i as int, i + p.len())[k as int] != p@[k as int]);
            return false;
        }
        k += 1;
    }
    assert(s@.subrange(i as int, i + p.len()) =~= p@);
    true
}

/// `str::contains` for a string pattern.
pub fn seq_contains(s: &Vec<char>, p: &Vec<char>) -> (b: bool)
    ensures
        b == contains_seq(s@, p@),
{
    if p.len() > s.len() {
        assert forall|i: int| !occurs_at(s@, p@, i) by {}
        return false;
    }
    let last = s.len() - p.len();
    let mut i: usize = 0;
    while i < last
        invariant
            i <= last,
            last + p.len() == s.len(),
            forall|k: int| 0 <= k < i ==> !occurs_at(s@, p@, k),
        decreases last - i,
    {
        if occurs_at_exec(s, p, i) {
            return true;
        }
        i += 1;
    }
    if occurs_at_exec(s, p, last) {
        return true;
    }
    assert forall|k: int| !occurs_at(s@, p@, k) by {
        if 0 <= k && k + p.len() <= s.len() {
            assert(k <= last);
        }
    }
    false
}

/// `str::split_whitespace().count()`.
pub fn count_words(s: &str) -> (n: usize)
    ensures
        n == word_count(s@),
{
    let v = chars_of(s);
    let mut n: usize = 0;
    let mut i: usize = 0;
    assert(v@.take(0) =~= Seq::<char>::empty());
    while i < v.len()
        invariant
            i <= v.len(),
            v@ == s@,
            n == word_count(v@.take(i as int)),
            n <= i,
        decreases v.len() - i,
    {
        let ghost prev = v@.take(i as int);
        let ws = is_whitespace_char(v[i]);
        let starts = !ws && (i == 0 || is_whitespace_char(v[i - 1]));
        assert(v@.take(i + 1).drop_last() =~= prev);
        if starts {
            n += 1;
        }
        i += 1;
    }
    assert(v@.take(v.len() as int) =~= v@);
    n
}

} // verus!

verus! {

/// `s` split at every occurrence of `d` (`str::split`); never empty.
pub open spec fn split_on(s: Seq<char>, d: char) -> Seq<Seq<char>>
    decreases s.len(),
{
    if s.len() == 0 {
        seq![Seq::<char>::empty()]
    } else {
        let p = split_on(s.drop_last(), d);
        if s.last() == d {
            p.push(Seq::<char>::empty())
        } else {
            p.update(p.len() - 1, p.last().push(s.last()))
        }
    }
}

/// `l` without one trailing carriage return.
pub open spec fn strip_cr(l: Seq<char>) -> Seq<char> {
    if l.len() > 0 && l.last() == '\r' {
        l.drop_last()
    } else {
        l
    }
}

/// The lines of `s` as `str::lines` yields them: split at `\n`, a `\r` just before a `\n`
/// dropped, and no final empty line when `s` ends with a line ending.
pub open spec fn lines(s: Seq<char>) -> Seq<Seq<char>> {
    let p = split_on(s, '\n');
    let body = p.take(p.len() - 1).map_values(|l: Seq<char>| strip_cr(l));
    if p.last().len() == 0 {
        body
    } else {
        body.push(p.last())
    }
}

/// The pieces of `ls` joined with `sep` between them (`[T]::join`).
pub open spec fn join(ls: Seq<Seq<char>>, sep: Seq<char>) -> Seq<char>
    decreases ls.len(),
{
    if ls.len() == 0 {
        Seq::<char>::empty()
    } else if ls.len() == 1 {
        ls[0]
    } else {
        join(ls.drop_last(), sep) + sep + ls.last()
    }
}

/// The views of a sequence of strings.
pub open spec fn views(v: Seq<String>) -> Seq<Seq<char>> {
    v.map_values(|x: String| x@)
}

/// Splitting gives at least one piece.
pub proof fn lemma_split_on_nonempty(s: Seq<char>, d: char)
    ensures
        split_on(s, d).len() >= 1,
    decreases s.len(),
{
    if s.len() > 0 {
        lemma_split_on_nonempty(s.drop_last(), d);
    }
}

/// `str::lines`, collected into owned strings.
pub fn split_lines(s: &str) -> (r: Vec<String>)
    ensures
        views(r@) == lines(s@),
{
    let v = chars_of(s);
    let n = v.len();
    let mut out: Vec<String> = Vec::new();
    let mut start: usize = 0;
    let mut i: usize = 0;
    assert(v@.take(0) =~= Seq::<char>::empty());
    proof {
        let p0 = split_on(v@.take(0), '\n');
        assert(p0.take(p0.len() - 1) =~= Seq::<Seq<char>>::empty());
        assert(views(out@) =~= p0.take(p0.len() - 1).map_values(|l: Seq<char>| strip_cr(l)));
        assert(v@.subrange(0, 0) =~= Seq::<char>::empty());
    }
    while i < n
        invariant
            n == v.len(),
            v@ == s@,
            start <= i <= n,
            split_on(v@.take(i as int), '\n').len() >= 1,
            split_on(v@.take(i as int), '\n').last() == v@.subrange(start as int, i as int),
            views(out@) == ({
                let p = split_on(v@.take(i as int), '\n');
                p.take(p.len() - 1).map_values(|l: Seq<char>| strip_cr(l))
            }),
        decreases n - i,
    {
        let ghost p = split_on(v@.take(i as int), '\n');
        assert(v@.take(i + 1).drop_last() =~= v@.take(i as int));
        assert(v@.take(i + 1).last() == v@[i as int]);
        if v[i] == '\n' {
            let mut end = i;
            if end > start && v[end - 1] == '\r' {
                end = end - 1;
            }
            let line = string_from_chars(&v, start, end);
            proof {
                let cur = v@.subrange(start as int, i as int);
                if i > start && v@[i - 1] == '\r' {
                    assert(cur.drop_last() =~= v@.subrange(start as int, end as int));
                } else {
                    assert(cur =~= v@.subrange(start as int, end as int));
                }
                assert(line@ == strip_cr(p.last()));
            }
            let ghost old_views = views(out@);
            out.push(line);
            start = i + 1;
            proof {
                assert(views(out@) =~= old_views.push(line@));
                assert(p.map_values(|l: Seq<char>| strip_cr(l)) =~= p.take(p.len() - 1).map_values(
                    |l: Seq<char>| strip_cr(l),
                ).push(strip_cr(p.last())));
                let q = split_on(v@.take(i + 1), '\n');
                assert(q == p.push(Seq::<char>::empty()));
                assert(q.take(q.len() - 1) =~= p);
                assert(p =~= p.take(p.len() - 1).push(p.last()));
                assert(views(out@) =~= q.take(q.len() - 1).map_values(|l: Seq<char>| strip_cr(l)));
                assert(v@.subrange(start as int, i + 1) =~= Seq::<char>::empty());
            }
        } else {
            proof {
                let q = split_on(v@.take(i + 1), '\n');
                assert(q == p.update(p.len() - 1, p.last().push(v@[i as int])));
                assert(q.take(q.len() - 1) =~= p.take(p.len() - 1));
                assert(q.last() =~= v@.subrange(start as int, i + 1));
            }
        }
        i += 1;
    }
    assert(v@.take(n as int) =~= v@);
    let ghost p = split_on(v@, '\n');
    if start < n {
        let line = string_from_chars(&v, start, n);
        out.push(line);
        proof {
            assert(views(out@) =~= lines(s@));
        }
    } else {
        proof {
            assert(views(out@) =~= lines(s@));
        }
    }
    out
}

/// Joins the strings of `parts` with `sep` between them.
pub fn join_strings(parts: &Vec<String>, sep: &str) -> (r: String)
    ensures
        r@ == join(views(parts@), sep@),
{
    let mut r = String::new();
    let mut i: usize = 0;
    while i < parts.len()
        invariant
            i <= parts.len(),
            r@ == join(views(parts@).take(i as int), sep@),
        decreases parts.len() - i,
    {
        let ghost before = views(parts@).take(i as int);
        assert(views(parts@).take(i + 1).drop_last() =~= before);
        if i == 0 {
            r.append(parts[i].as_str());
            assert(r@ =~= join(views(parts@).take(i + 1), sep@));
        } else {
            r.append(sep);
            r.append(parts[i].as_str());
            assert(r@ =~= join(views(parts@).take(i + 1), sep@));
        }
        i += 1;
    }
    assert(views(parts@).take(parts.len() as int) =~= views(parts@));
    r
}

} // verus!

verus! {

/// `c` does not occur in `s`.
pub open spec fn lacks(s: Seq<char>, c: char) -> bool {
    forall|i: int| 0 <= i < s.len() ==> #[trigger] s[i] != c
}

/// No piece of a split holds the separator.
pub proof fn lemma_split_on_lacks(s: Seq<char>, d: char)
    ensures
        forall|j: int| 0 <= j < split_on(s, d).len() ==> lacks(#[trigger] split_on(s, d)[j], d),
    decreases s.len(),
{
    lemma_split_on_nonempty(s, d);
    if s.len() > 0 {
        lemma_split_on_lacks(s.drop_last(), d);
        lemma_split_on_nonempty(s.drop_last(), d);
        let p = split_on(s.drop_last(), d);
        assert forall|j: int| 0 <= j < split_on(s, d).len() implies lacks(
            #[trigger] split_on(s, d)[j],
            d,
        ) by {
            if s.last() != d && j == p.len() - 1 {
                assert(lacks(p[j], d));
                assert forall|i: int| 0 <= i < p[j].push(s.last()).len() implies #[trigger] p[j].push(
                    s.last(),
                )[i] != d by {
                    if i < p[j].len() {
                        assert(p[j][i] != d);
                    }
                }
            }
        }
    }
}

/// Splitting `a + y`, where `y` holds no separator, extends the last piece of `a` by `y`.
pub proof fn lemma_split_on_append(a: Seq<char>, y: Seq<char>, d: char)
    requires
        lacks(y, d),
    ensures
        split_on(a + y, d) == split_on(a, d).update(
            split_on(a, d).len() - 1,
            split_on(a, d).last() + y,
        ),
    decreases y.len(),
{
    lemma_split_on_nonempty(a, d);
    let p = split_on(a, d);
    if y.len() == 0 {
        assert(a + y =~= a);
        assert(p.last() + y =~= p.last());
        assert(p.update(p.len() - 1, p.last()) =~= p);
    } else {
        let y2 = y.drop_last();
        assert(lacks(y2, d));
        lemma_split_on_append(a, y2, d);
        assert((a + y).drop_last() =~= a + y2);
        assert((a + y).last() == y.last());
        let q = split_on(a + y2, d);
        assert(q.last() == p.last() + y2);
        assert(p.last() + y2 + seq![y.last()] =~= p.last() + y);
        assert(q.last().push(y.last()) =~= p.last() + y);
        assert(split_on(a + y, d) =~= p.update(p.len() - 1, p.last() + y));
    }
}

/// Splitting lines joined by `\n` gives the lines back, when none holds a `\n`.
pub proof fn lemma_split_on_newline_join(ls: Seq<Seq<char>>)
    requires
        ls.len() >= 1,
        forall|j: int| 0 <= j < ls.len() ==> lacks(#[trigger] ls[j], '\n'),
    ensures
        split_on(join(ls, "\n"@), '\n') == ls,
    decreases ls.len(),
{
    reveal_strlit("\n");
    if ls.len() == 1 {
        lemma_split_on_append(Seq::<char>::empty(), ls[0], '\n');
        assert(Seq::<char>::empty() + ls[0] =~= ls[0]);
        assert(Seq::<char>::empty() + ls[0] =~= ls[0]);
        assert(split_on(Seq::<char>::empty(), '\n').update(0, Seq::<char>::empty() + ls[0]) =~= ls);
    } else {
        let init = ls.drop_last();
        assert forall|j: int| 0 <= j < init.len() implies lacks(#[trigger] init[j], '\n') by {
            assert(init[j] == ls[j]);
        }
        lemma_split_on_newline_join(init);
        let x = join(init, "\n"@);
        let xn = x + "\n"@;
        assert(xn =~= x.push('\n'));
        assert(xn.drop_last() =~= x);
        assert(split_on(xn, '\n') == init.push(Seq::<char>::empty()));
        assert(lacks(ls.last(), '\n'));
        lemma_split_on_append(xn, ls.last(), '\n');
        assert(join(ls, "\n"@) == xn + ls.last());
        assert(Seq::<char>::empty() + ls.last() =~= ls.last());
        assert(init.push(Seq::<char>::empty()).update(init.len() as int, ls.last()) =~= ls);
    }
}

/// Splitting a `\n`-joined text, terminated by `\n`, into lines gives back its pieces
/// (less one trailing `\r` each).
pub proof fn lemma_lines_of_joined(ls: Seq<Seq<char>>)
    requires
        ls.len() >= 1,
        forall|j: int| 0 <= j < ls.len() ==> lacks(#[trigger] ls[j], '\n'),
    ensures
        lines(join(ls, "\n"@).push('\n')) == ls.map_values(|l: Seq<char>| strip_cr(l)),
{
    lemma_split_on_newline_join(ls);
    let x = join(ls, "\n"@);
    assert(x.push('\n').drop_last() =~= x);
    let p = split_on(x.push('\n'), '\n');
    assert(p == ls.push(Seq::<char>::empty()));
    assert(p.take(p.len() - 1) =~= ls);
}

/// Every line of `s` lacks `\n`.
pub proof fn lemma_lines_lack_newline(s: Seq<char>)
    ensures
        forall|j: int| 0 <= j < lines(s).len() ==> lacks(#[trigger] lines(s)[j], '\n'),
{
    lemma_split_on_lacks(s, '\n');
    lemma_split_on_nonempty(s, '\n');
    let p = split_on(s, '\n');
    assert forall|j: int| 0 <= j < lines(s).len() implies lacks(#[trigger] lines(s)[j], '\n') by {
        assert(lacks(p[j], '\n'));
        if j < p.len() - 1 {
            assert(lines(s)[j] == strip_cr(p[j]));
            if p[j].len() > 0 && p[j].last() == '\r' {
                assert forall|i: int| 0 <= i < p[j].drop_last().len() implies #[trigger] p[j].drop_last()[i]
                    != '\n' by {
                    assert(p[j][i] != '\n');
                }
            }
        } else {
            assert(lines(s)[j] == p.last());
        }
    }
}

} // verus!

verus! {

/// What `str::to_lowercase` gives for `s` (full Unicode case mapping).
pub uninterp spec fn lowercase(s: Seq<char>) -> Seq<char>;

/// `str::to_lowercase`: the result is named by `lowercase`, a function of `s` alone; the
/// Unicode case mapping it applies is not written out here.
#[verifier::external_body]
pub(crate) fn to_lowercase(s: &str) -> (r: String)
    ensures
        r@ == lowercase(s@),
{
    s.to_lowercase()
}

/// Whether `s` equals `lit` (for string literals `lit`).
pub fn str_eq(s: &str, lit: &str) -> (b: bool)
    ensures
        b == (s@ == lit@),
{
    let a = chars_of(s);
    let c = chars_of(lit);
    if a.len() != c.len() {
        return false;
    }
    let mut i: usize = 0;
    while i < a.len()
        invariant
            i <= a.len() == c.len(),
            a@ == s@,
            c@ == lit@,
            forall|k: int| 0 <= k < i ==> a@[k] == c@[k],
        decreases a.len() - i,
    {
        if a[i] != c[i] {
            assert(a@[i as int] != c@[i as int]);
            return false;
        }
        i += 1;
    }
    assert(a@ =~= c@);
    true
}

} // verus!

verus! {

/// `i` is the first position of `c` in `s`.
pub open spec fn is_first(s: Seq<char>, c: char, i: int) -> bool {
    0 <= i < s.len() && s[i] == c && forall|j: int| 0 <= j < i ==> #[trigger] s[j] != c
}

/// `i` is the last position of `c` in `s`.
pub open spec fn is_last(s: Seq<char>, c: char, i: int) -> bool {
    0 <= i < s.len() && s[i] == c && forall|j: int| i < j < s.len() ==> #[trigger] s[j] != c
}

/// The first position of `c` in `s` (`str::find`), if any.
pub open spec fn first_pos(s: Seq<char>, c: char) -> Option<int> {
    if exists|i: int| is_first(s, c, i) {
        Some(choose|i: int| is_first(s, c, i))
    } else {
        None
    }
}

/// The last position of `c` in `s` (`str::rfind`), if any.
pub open spec fn last_pos(s: Seq<char>, c: char) -> Option<int> {
    if exists|i: int| is_last(s, c, i) {
        Some(choose|i: int| is_last(s, c, i))
    } else {
        None
    }
}

/// A character has at most one first position.
pub proof fn lemma_first_unique(s: Seq<char>, c: char, i: int, k: int)
    requires
        is_first(s, c, i),
        is_first(s, c, k),
    ensures
        i == k,
{
    if i < k {
        assert(s[i] != c);
    }
    if k < i {
        assert(s[k] != c);
    }
}

proof fn lemma_last_unique(s: Seq<char>, c: char, i: int, k: int)
    requires
        is_last(s, c, i),
        is_last(s, c, k),
    ensures
        i == k,
{
    if i < k {
        assert(s[k] != c);
    }
    if k < i {
        assert(s[i] != c);
    }
}

/// The first position of `c` in `v`.
pub fn find_char(v: &Vec<char>, c: char) -> (r: Option<usize>)
    ensures
        r matches Some(i) ==> first_pos(v@, c) == Some(i as int) && is_first(v@, c, i as int),
        r is None ==> first_pos(v@, c) is None && lacks(v@, c),
{
    let mut i: usize = 0;
    while i < v.len()
        invariant
            i <= v.len(),
            forall|j: int| 0 <= j < i ==> #[trigger] v@[j] != c,
        decreases v.len() - i,
    {
        if v[i] == c {
            proof {
                assert(is_first(v@, c, i as int));
                let k = choose|k: int| is_first(v@, c, k);
                lemma_first_unique(v@, c, i as int, k);
            }
            return Some(i);
        }
        i += 1;
    }
    assert(!exists|k: int| is_first(v@, c, k));
    None
}

/// The last position of `c` in `v`.
pub fn rfind_char(v: &Vec<char>, c: char) -> (r: Option<usize>)
    ensures
        r matches Some(i) ==> last_pos(v@, c) == Some(i as int) && is_last(v@, c, i as int),
        r is None ==> last_pos(v@, c) is None && lacks(v@, c),
{
    let mut i: usize = v.len();
    while i > 0
        invariant
            i <= v.len(),
            forall|j: int| i <= j < v.len() ==> #[trigger] v@[j] != c,
        decreases i,
    {
        if v[i - 1] == c {
            proof {
                assert(is_last(v@, c, i - 1));
                let k = choose|k: int| is_last(v@, c, k);
                lemma_last_unique(v@, c, i - 1, k);
            }
            return Some(i - 1);
        }
        i -= 1;
    }
    assert(!exists|k: int| is_last(v@, c, k));
    None
}

/// The span of `t` from its first `{` to its last `}`, when both occur in that order.
pub open spec fn json_span(t: Seq<char>) -> Option<Seq<char>> {
    match (first_pos(t, '{'), last_pos(t, '}')) {
        (Some(a), Some(b)) => if a <= b {
            Some(t.subrange(a, b + 1))
        } else {
            None
        },
        _ => None,
    }
}

/// The JSON object embedded in a model's text: from its first `{` to its last `}`.
pub fn extract_json_block(text: &str) -> (r: Option<String>)
    ensures
        opt_seq(r) == json_span(text@),
{
    let v = chars_of(text);
    match (find_char(&v, '{'), rfind_char(&v, '}')) {
        (Some(a), Some(b)) => if a <= b {
            Some(string_from_chars(&v, a, b + 1))
        } else {
            None
        },
        _ => None,
    }
}

/// The view of an optional string.
pub open spec fn opt_seq(o: Option<String>) -> Option<Seq<char>> {
    match o {
        Some(s) => Some(s@),
        None => None,
    }
}

} // verus!

verus! {

/// The decimal digit for `d < 10`.
pub open spec fn digit(d: nat) -> char {
    if d == 0 {
        '0'
    } else if d == 1 {
        '1'
    } else if d == 2 {
        '2'
    } else if d == 3 {
        '3'
    } else if d == 4 {
        '4'
    } else if d == 5 {
        '5'
    } else if d == 6 {
        '6'
    } else if d == 7 {
        '7'
    } else if d == 8 {
        '8'
    } else {
        '9'
    }
}

fn digit_char(d: usize) -> (c: char)
    requires
        d < 10,
    ensures
        c == digit(d as nat),
{
    if d == 0 {
        '0'
    } else if d == 1 {
        '1'
    } else if d == 2 {
        '2'
    } else if d == 3 {
        '3'
    } else if d == 4 {
        '4'
    } else if d == 5 {
        '5'
    } else if d == 6 {
        '6'
    } else if d == 7 {
        '7'
    } else if d == 8 {
        '8'
    } else {
        '9'
    }
}

/// The decimal text of `n` (as `Display` writes an unsigned integer).
pub open spec fn decimal(n: nat) -> Seq<char>
    decreases n,
{
    if n < 10 {
        seq![digit(n)]
    } else {
        decimal(n / 10).push(digit(n % 10))
    }
}

/// The decimal text of `n`.
pub fn usize_to_decimal(n: usize) -> (r: String)
    ensures
        r@ == decimal(n as nat),
{
    let mut digits: Vec<char> = Vec::new();
    let mut m = n;
    while m >= 10
        invariant
            decimal(n as nat) == decimal(m as nat) + digits@.reverse(),
        decreases m,
    {
        let d = m % 10;
        let c = digit_char(d);
        assert(decimal(m as nat) == decimal((m / 10) as nat).push(digit((m % 10) as nat)));
        let ghost old_digits = digits@;
        digits.push(c);
        assert(digits@.reverse() =~= seq![c] + old_digits.reverse());
        assert(decimal(m as nat) + old_digits.reverse() =~= decimal((m / 10) as nat) + digits@.reverse());
        m = m / 10;
    }
    let c0 = digit_char(m);
    let mut r = String::new();
    push_char(&mut r, c0);
    assert(r@ =~= decimal(m as nat));
    let mut i = digits.len();
    while i > 0
        invariant
            i <= digits.len(),
            decimal(n as nat) == decimal(m as nat) + digits@.reverse(),
            r@ == decimal(m as nat) + digits@.subrange(i as int, digits.len() as int).reverse(),
        decreases i,
    {
        let ghost before = r@;
        push_char(&mut r, digits[i - 1]);
        assert(digits@.subrange(i - 1, digits.len() as int).reverse() =~= digits@.subrange(
            i as int,
            digits.len() as int,
        ).reverse().push(digits@[i - 1]));
        i -= 1;
    }
    assert(digits@.subrange(0, digits.len() as int) =~= digits@);
    r
}

} // verus!
