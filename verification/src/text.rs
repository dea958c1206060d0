//! Character-sequence utilities shared by the parsers and formatters.
//!
//! All text logic of the library works over `Vec<char>` / `Seq<char>`; these
//! helpers convert between `str`/`String` and `Vec<char>` and perform the
//! small scans (find, prefix match, range copy) the parsers are built from.

use vstd::prelude::*;

verus! {

/// Relies on `String::push`: appends the given character to the end of the string.
#[verifier::external_body]
pub fn push_char(s: &mut String, c: char)
    ensures
        final(s)@ == old(s)@.push(c),
{
    s.push(c);
}

/// The characters of a string slice, as a vector.
pub fn str_to_chars(s: &str) -> (r: Vec<char>)
    ensures
        r@ == s@,
{
    let n = s.unicode_len();
    let mut r: Vec<char> = Vec::new();
    let mut i: usize = 0;
    while i < n
        invariant
            i <= n,
            n == s@.len(),
            r@ == s@.subrange(0, i as int),
        decreases n - i,
    {
        r.push(s.get_char(i));
        i = i + 1;
        proof {
            assert(r@ =~= s@.subrange(0, i as int));
        }
    }
    proof {
        assert(r@ =~= s@);
    }
    r
}

/// A string holding exactly the given characters.
pub fn chars_to_string(v: &Vec<char>) -> (r: String)
    ensures
        r@ == v@,
{
    let mut r = String::new();
    let mut i: usize = 0;
    while i < v.len()
        invariant
            i <= v@.len(),
            r@ == v@.subrange(0, i as int),
        decreases v@.len() - i,
    {
        push_char(&mut r, v[i]);
        i = i + 1;
        proof {
            assert(r@ =~= v@.subrange(0, i as int));
        }
    }
    proof {
        assert(r@ =~= v@);
    }
    r
}

/// The first index `>= from` where `c` occurs in `s`, or `s.len()` when there
/// is none.
pub open spec fn first_ix_from(s: Seq<char>, c: char, from: int) -> int
    decreases s.len() - from,
{
    if from < 0 {
        first_ix_from(s, c, 0)
    } else if from >= s.len() {
        s.len() as int
    } else if s[from] == c {
        from
    } else {
        first_ix_from(s, c, from + 1)
    }
}

/// The last index `< end` where `c` occurs in `s`, or `-1` when there is none.
pub open spec fn last_ix_before(s: Seq<char>, c: char, end: int) -> int
    decreases end,
{
    if end <= 0 {
        -1
    } else if end > s.len() {
        last_ix_before(s, c, s.len() as int)
    } else if s[end - 1] == c {
        end - 1
    } else {
        last_ix_before(s, c, end - 1)
    }
}

pub proof fn lemma_first_ix_from_bounds(s: Seq<char>, c: char, from: int)
    requires
        0 <= from <= s.len(),
    ensures
        from <= first_ix_from(s, c, from) <= s.len(),
        first_ix_from(s, c, from) < s.len() ==> s[first_ix_from(s, c, from)] == c,
    decreases s.len() - from,
{
    if from < s.len() && s[from] != c {
        lemma_first_ix_from_bounds(s, c, from + 1);
    }
}

pub proof fn lemma_last_ix_before_bounds(s: Seq<char>, c: char, end: int)
    requires
        0 <= end <= s.len(),
    ensures
        -1 <= last_ix_before(s, c, end) < end,
        last_ix_before(s, c, end) >= 0 ==> s[last_ix_before(s, c, end)] == c,
    decreases end,
{
    if end > 0 && s[end - 1] != c {
        lemma_last_ix_before_bounds(s, c, end - 1);
    }
}

/// The first occurrence of `c` in `v` at or after `from`, or `v.len()` when
/// there is none.
pub fn find_char_from(v: &Vec<char>, c: char, from: usize) -> (r: usize)
    requires
        from <= v@.len(),
    ensures
        r == first_ix_from(v@, c, from as int),
        from <= r <= v@.len(),
        r < v@.len() ==> v@[r as int] == c,
{
    let mut i: usize = from;
    while i < v.len()
        invariant
            from <= i <= v@.len(),
            first_ix_from(v@, c, from as int) == first_ix_from(v@, c, i as int),
        decreases v@.len() - i,
    {
        if v[i] == c {
            proof {
                lemma_first_ix_from_bounds(v@, c, from as int);
            }
            return i;
        }
        i = i + 1;
    }
    proof {
        lemma_first_ix_from_bounds(v@, c, from as int);
    }
    i
}

/// The last occurrence of `c` in `v` strictly before `end`, or `None`.
pub fn rfind_char_before(v: &Vec<char>, c: char, end: usize) -> (r: Option<usize>)
    requires
        end <= v@.len(),
    ensures
        r matches Some(i) ==> i == last_ix_before(v@, c, end as int) && i < end && v@[i as int]
            == c,
        r is None ==> last_ix_before(v@, c, end as int) == -1,
{
    let mut i: usize = end;
    while i > 0
        invariant
            i <= end <= v@.len(),
            last_ix_before(v@, c, end as int) == last_ix_before(v@, c, i as int),
        decreases i,
    {
        i = i - 1;
        if v[i] == c {
            proof {
                lemma_last_ix_before_bounds(v@, c, end as int);
            }
            return Some(i);
        }
    }
    None
}

/// Whether `v` continues with exactly the characters of `pat` at offset `at`.
pub fn matches_at(v: &Vec<char>, at: usize, pat: &str) -> (r: bool)
    requires
        at <= v@.len(),
    ensures
        r == (at + pat@.len() <= v@.len() && v@.subrange(
            at as int,
            at + pat@.len(),
        ) == pat@),
{
    let n = pat.unicode_len();
    if n > v.len() - at {
        return false;
    }
    let mut i: usize = 0;
    while i < n
        invariant
            i <= n,
            n == pat@.len(),
            at + n <= v@.len(),
            v@.len() <= usize::MAX,
            forall|j: int| 0 <= j < i ==> v@[at + j] == pat@[j],
        decreases n - i,
    {
        if v[at + i] != pat.get_char(i) {
            proof {
                assert(v@.subrange(at as int, at + pat@.len())[i as int] != pat@[i as int]);
            }
            return false;
        }
        i = i + 1;
    }
    proof {
        assert(v@.subrange(at as int, at + pat@.len()) =~= pat@);
    }
    true
}

/// Whether two string slices hold the same characters.
pub fn str_eq(a: &str, b: &str) -> (r: bool)
    ensures
        r == (a@ == b@),
{
    let n = a.unicode_len();
    let m = b.unicode_len();
    if n != m {
        return false;
    }
    let mut i: usize = 0;
    while i < n
        invariant
            i <= n,
            n == a@.len(),
            n == b@.len(),
            forall|j: int| 0 <= j < i ==> a@[j] == b@[j],
        decreases n - i,
    {
        if a.get_char(i) != b.get_char(i) {
            return false;
        }
        i = i + 1;
    }
    proof {
        assert(a@ =~= b@);
    }
    true
}

/// The characters of `v` from `from` (inclusive) to `to` (exclusive).
pub fn copy_range(v: &Vec<char>, from: usize, to: usize) -> (r: Vec<char>)
    requires
        from <= to <= v@.len(),
    ensures
        r@ == v@.subrange(from as int, to as int),
{
    let mut r: Vec<char> = Vec::new();
    let mut i: usize = from;
    while i < to
        invariant
            from <= i <= to <= v@.len(),
            r@ == v@.subrange(from as int, i as int),
        decreases to - i,
    {
        r.push(v[i]);
        i = i + 1;
        proof {
            assert(r@ =~= v@.subrange(from as int, i as int));
        }
    }
    r
}

} // verus!
