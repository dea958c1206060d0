//! Branch naming: sanitizing commit titles and deriving dated branch names.
//!
//! The naming rule: the target branch name is `<MM-DD>-<sanitized title>`,
//! where the sanitized title has every maximal run of non-alphanumeric
//! characters collapsed to a single underscore, leading and trailing runs
//! included. "Alphanumeric" deliberately means ASCII letters and digits and
//! nothing else: every other character — including letters outside ASCII —
//! is replaced, which keeps the branch name portable and the rule fully
//! spelled out here.

use vstd::prelude::*;

use crate::text::push_char;

verus! {

/// Whether `c` survives sanitizing: an ASCII letter or digit. This is the
/// whole alphabet of the rule; non-ASCII letters do not survive.
pub open spec fn is_word_char(c: char) -> bool {
    ('a' <= c && c <= 'z') || ('A' <= c && c <= 'Z') || ('0' <= c && c <= '9')
}

/// The sanitized tail of `s` from index `i` on; `in_run` says whether the
/// character just before `i` belonged to a non-alphanumeric run that has
/// already produced its underscore.
pub open spec fn sanitize_from(s: Seq<char>, i: int, in_run: bool) -> Seq<char>
    decreases s.len() - i,
{
    if i < 0 {
        sanitize_from(s, 0, in_run)
    } else if i >= s.len() {
        Seq::empty()
    } else if is_word_char(s[i]) {
        seq![s[i]] + sanitize_from(s, i + 1, false)
    } else if in_run {
        sanitize_from(s, i + 1, true)
    } else {
        seq!['_'] + sanitize_from(s, i + 1, true)
    }
}

/// The title with every maximal run of non-alphanumeric characters collapsed
/// to one underscore.
pub open spec fn sanitized(s: Seq<char>) -> Seq<char> {
    sanitize_from(s, 0, false)
}

/// Sanitizes a commit title for use in a branch name.
pub fn sanitize_title(title: &str) -> (r: String)
    ensures
        r@ == sanitized(title@),
{
    let chars = crate::text::str_to_chars(title);
    let n = chars.len();
    let mut out = String::new();
    let mut in_run = false;
    let mut i: usize = 0;
    while i < n
        invariant
            i <= n,
            n == title@.len(),
            chars@ == title@,
            sanitized(title@) == out@ + sanitize_from(title@, i as int, in_run),
        decreases n - i,
    {
        let c = chars[i];
        if ('a' <= c && c <= 'z') || ('A' <= c && c <= 'Z') || ('0' <= c && c <= '9') {
            push_char(&mut out, c);
            in_run = false;
        } else if !in_run {
            push_char(&mut out, '_');
            in_run = true;
        } else {
            // inside a run that already produced its underscore
        }
        i = i + 1;
    }
    out
}

/// The branch name derived from a date text and a commit title.
pub open spec fn derived_branch_name(date: Seq<char>, title: Seq<char>) -> Seq<char> {
    date + seq!['-'] + sanitized(title)
}

/// Derives the target branch name from a commit title and a `MM-DD` date:
/// `<date>-<sanitized title>`.
pub fn derive_branch_name(title: &str, date: &str) -> (r: String)
    ensures
        r@ == derived_branch_name(date@, title@),
{
    let mut out = String::from_str(date);
    push_char(&mut out, '-');
    let tail = sanitize_title(title);
    let out = out.concat(tail.as_str());
    proof {
        assert(out@ =~= derived_branch_name(date@, title@));
    }
    out
}

/// Relies on `chrono::Local::now` and its `%m-%d` formatting: the current
/// local date as five characters, two month digits, a dash, two day digits.
/// The value depends on the clock, so nothing more is promised of it.
#[verifier::external_body]
pub fn current_month_day() -> (r: String)
    ensures
        r@.len() == 5,
        r@[2] == '-',
{
    chrono::Local::now().format("%m-%d").to_string()
}

/// Derives the target branch name from a commit title and the current local
/// date.
pub fn format_commit_title(title: &str) -> (r: String)
    ensures
        exists|date: Seq<char>|
            date.len() == 5 && r@ == derived_branch_name(date, title@),
{
    let date = current_month_day();
    derive_branch_name(title, date.as_str())
}

} // verus!
