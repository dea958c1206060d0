//! Commit-body filtering.
//!
//! The body of a commit, as read from the backend, may end in a sign-off
//! trailer line. The filtered body has every line containing the sign-off
//! marker removed, the remaining lines joined with newlines, and surrounding
//! whitespace trimmed.

use vstd::prelude::*;

use crate::text::{
    chars_to_string, copy_range, find_char_from, first_ix_from, lemma_first_ix_from_bounds,
    matches_at, str_to_chars,
};

verus! {

/// Whitespace for trimming purposes: blank, tab, newline, carriage return.
pub open spec fn is_ws(c: char) -> bool {
    c == ' ' || c == '\t' || c == '\n' || c == '\r'
}

/// The trailer marker that identifies a sign-off line.
pub open spec fn signoff_marker() -> Seq<char> {
    "Signed-off-by:"@
}

/// Whether the sign-off marker stands in `l` at offset `k`.
pub open spec fn marker_at(l: Seq<char>, k: int) -> bool {
    0 <= k && k + signoff_marker().len() <= l.len() && l.subrange(
        k,
        k + signoff_marker().len(),
    ) == signoff_marker()
}

/// Whether `l` contains the sign-off marker anywhere.
pub open spec fn is_signoff_line(l: Seq<char>) -> bool {
    exists|k: int| marker_at(l, k)
}

/// A line with its trailing carriage return, if any, removed.
pub open spec fn strip_cr(l: Seq<char>) -> Seq<char> {
    if l.len() > 0 && l.last() == '\r' {
        l.drop_last()
    } else {
        l
    }
}

/// The lines of `s` from index `i` on, split at newlines, each with a
/// trailing carriage return removed.
pub open spec fn split_lines_from(s: Seq<char>, i: int) -> Seq<Seq<char>>
    decreases s.len() + 1 - i,
{
    if i < 0 || i >= s.len() {
        Seq::empty()
    } else {
        let j = first_ix_from(s, '\n', i);
        proof {
            lemma_first_ix_from_bounds(s, '\n', i);
        }
        seq![strip_cr(s.subrange(i, j))] + split_lines_from(s, j + 1)
    }
}

/// The non-sign-off lines of `ls` from index `i` on, joined with newlines;
/// `first` says whether no line has been kept yet (so no separator is owed).
pub open spec fn joined_kept_from(ls: Seq<Seq<char>>, i: int, first: bool) -> Seq<char>
    decreases ls.len() - i,
{
    if i < 0 || i >= ls.len() {
        Seq::empty()
    } else if is_signoff_line(ls[i]) {
        joined_kept_from(ls, i + 1, first)
    } else if first {
        ls[i] + joined_kept_from(ls, i + 1, false)
    } else {
        seq!['\n'] + ls[i] + joined_kept_from(ls, i + 1, false)
    }
}

/// The first index `>= i` holding a non-whitespace character, or `s.len()`.
pub open spec fn trim_start_ix(s: Seq<char>, i: int) -> int
    decreases s.len() - i,
{
    if i < 0 {
        trim_start_ix(s, 0)
    } else if i >= s.len() {
        s.len() as int
    } else if is_ws(s[i]) {
        trim_start_ix(s, i + 1)
    } else {
        i
    }
}

/// One past the last index `< e` holding a non-whitespace character, or `0`.
pub open spec fn trim_end_ix(s: Seq<char>, e: int) -> int
    decreases e,
{
    if e <= 0 {
        0
    } else if e > s.len() {
        trim_end_ix(s, s.len() as int)
    } else if is_ws(s[e - 1]) {
        trim_end_ix(s, e - 1)
    } else {
        e
    }
}

/// `s` with leading and trailing whitespace removed.
pub open spec fn trimmed(s: Seq<char>) -> Seq<char> {
    let a = trim_start_ix(s, 0);
    let b = trim_end_ix(s, s.len() as int);
    if a < b {
        s.subrange(a, b)
    } else {
        Seq::empty()
    }
}

/// The filtered form of a raw commit body: sign-off lines removed, the rest
/// joined with newlines, surrounding whitespace trimmed.
pub open spec fn filtered_body(s: Seq<char>) -> Seq<char> {
    trimmed(joined_kept_from(split_lines_from(s, 0), 0, true))
}

/// Whether `c` counts as whitespace for trimming.
fn is_ws_char(c: char) -> (r: bool)
    ensures
        r == is_ws(c),
{
    c == ' ' || c == '\t' || c == '\n' || c == '\r'
}

/// The first index at or after `from` holding a non-whitespace character,
/// or `v.len()` when only whitespace remains.
pub(crate) fn skip_ws(v: &Vec<char>, from: usize) -> (r: usize)
    requires
        from <= v@.len(),
    ensures
        r == trim_start_ix(v@, from as int),
        from <= r <= v@.len(),
        r < v@.len() ==> !is_ws(v@[r as int]),
{
    let mut i: usize = from;
    while i < v.len()
        invariant
            from <= i <= v@.len(),
            trim_start_ix(v@, from as int) == trim_start_ix(v@, i as int),
        decreases v@.len() - i,
    {
        if !is_ws_char(v[i]) {
            return i;
        }
        i = i + 1;
    }
    i
}

/// The lines of `v`, split at newlines, trailing carriage returns removed.
fn split_into_lines(v: &Vec<char>) -> (r: Vec<Vec<char>>)
    ensures
        r.deep_view() == split_lines_from(v@, 0),
{
    let n = v.len();
    let mut r: Vec<Vec<char>> = Vec::new();
    let mut i: usize = 0;
    while i < n
        invariant
            i <= n,
            n == v@.len(),
            split_lines_from(v@, 0) == r.deep_view() + split_lines_from(v@, i as int),
        decreases n - i,
    {
        let j = find_char_from(v, '\n', i);
        let mut line = copy_range(v, i, j);
        if line.len() > 0 && line[line.len() - 1] == '\r' {
            line.pop();
            proof {
                assert(line@ =~= strip_cr(v@.subrange(i as int, j as int)));
            }
        }
        let ghost r_pre = r.deep_view();
        r.push(line);
        proof {
            assert(line.deep_view() =~= line@);
            assert(r.deep_view() =~~= r_pre.push(line@));
            assert(r_pre + (seq![line@] + split_lines_from(v@, j + 1)) =~~= r.deep_view()
                + split_lines_from(v@, j + 1));
        }
        if j >= n {
            proof {
                assert(split_lines_from(v@, j + 1) =~= Seq::<Seq<char>>::empty());
                assert(r.deep_view() + split_lines_from(v@, j + 1) =~~= r.deep_view());
            }
            return r;
        }
        i = j + 1;
    }
    proof {
        assert(split_lines_from(v@, i as int) =~= Seq::<Seq<char>>::empty());
        assert(r.deep_view() + split_lines_from(v@, i as int) =~~= r.deep_view());
    }
    r
}

/// Whether the line contains the sign-off marker.
fn contains_signoff(line: &Vec<char>) -> (r: bool)
    ensures
        r == is_signoff_line(line@),
{
    let pat = "Signed-off-by:";
    proof {
        reveal_strlit("Signed-off-by:");
        assert(pat@ == signoff_marker());
    }
    let n = line.len();
    let mut k: usize = 0;
    while k < n
        invariant
            k <= n,
            n == line@.len(),
            pat@ == signoff_marker(),
            forall|k2: int| 0 <= k2 < k ==> !marker_at(line@, k2),
        decreases n - k,
    {
        if matches_at(line, k, pat) {
            proof {
                assert(marker_at(line@, k as int));
            }
            return true;
        }
        proof {
            assert(!marker_at(line@, k as int));
        }
        k = k + 1;
    }
    proof {
        assert(forall|k2: int| marker_at(line@, k2) ==> 0 <= k2 < n);
    }
    false
}

/// Appends the characters of `src` to `dst`.
fn extend_chars(dst: &mut Vec<char>, src: &Vec<char>)
    ensures
        final(dst)@ == old(dst)@ + src@,
{
    let ghost dst0 = dst@;
    let mut i: usize = 0;
    while i < src.len()
        invariant
            i <= src@.len(),
            dst@ == dst0 + src@.subrange(0, i as int),
        decreases src@.len() - i,
    {
        dst.push(src[i]);
        i = i + 1;
        proof {
            assert(dst@ =~= dst0 + src@.subrange(0, i as int));
        }
    }
    proof {
        assert(dst0 + src@.subrange(0, src@.len() as int) =~= dst0 + src@);
    }
}

/// The filtered form of a raw commit body: every line containing the
/// sign-off trailer marker is removed, the remaining lines are joined with
/// newlines, and surrounding whitespace is trimmed away.
pub fn filter_commit_body(raw: &str) -> (r: String)
    ensures
        r@ == filtered_body(raw@),
{
    let v = str_to_chars(raw);
    let lines = split_into_lines(&v);
    let ghost ls = lines.deep_view();
    let nl = lines.len();
    let mut joined: Vec<char> = Vec::new();
    let mut first = true;
    let mut i: usize = 0;
    proof {
        assert(ls.len() == lines@.len());
    }
    while i < nl
        invariant
            i <= nl,
            nl == ls.len(),
            ls == lines.deep_view(),
            nl == lines@.len(),
            joined_kept_from(ls, 0, true) == joined@ + joined_kept_from(ls, i as int, first),
        decreases nl - i,
    {
        proof {
            assert(ls[i as int] == lines@[i as int].deep_view());
            assert(lines@[i as int].deep_view() =~= lines@[i as int]@);
        }
        if !contains_signoff(&lines[i]) {
            if !first {
                joined.push('\n');
            }
            extend_chars(&mut joined, &lines[i]);
            first = false;
        }
        proof {
            assert(joined_kept_from(ls, 0, true) =~= joined@ + joined_kept_from(
                ls,
                i + 1,
                first,
            ));
        }
        i = i + 1;
    }
    proof {
        assert(joined@ + joined_kept_from(ls, nl as int, first) =~= joined@);
    }
    let m = joined.len();
    let mut a: usize = 0;
    while a < m && is_ws_char(joined[a])
        invariant
            a <= m,
            m == joined@.len(),
            trim_start_ix(joined@, 0) == trim_start_ix(joined@, a as int),
        decreases m - a,
    {
        a = a + 1;
    }
    let mut b: usize = m;
    while b > 0 && is_ws_char(joined[b - 1])
        invariant
            b <= m,
            m == joined@.len(),
            trim_end_ix(joined@, m as int) == trim_end_ix(joined@, b as int),
        decreases b,
    {
        b = b - 1;
    }
    if a < b {
        let out = copy_range(&joined, a, b);
        chars_to_string(&out)
    } else {
        String::new()
    }
}

} // verus!
