//! Branch lineage records and their canonical text form.
//!
//! A lineage record says which branch a stacked branch was forked from and at
//! which revision. It is stored as one JSON object,
//! `{"parentBranchName": ..., "parentBranchRevision": ...}`, written as a blob
//! in the version-control object store and pointed at by a reference named
//! after the branch. This module defines the record, its canonical
//! serialization, the parser for reading records back, and the proof that the
//! two compose to the identity.

use vstd::prelude::*;

use crate::errors::GiError;
use crate::git_client::{GitClient, GitModel};
use crate::text::{chars_to_string, matches_at, push_char, str_to_chars};

verus! {

/// The mathematical value of a lineage record.
pub struct LineageView {
    pub parent_branch_name: Seq<char>,
    pub parent_branch_revision: Seq<char>,
}

/// The lineage edge of a stacked branch: the branch it was forked from and
/// that branch's revision at fork time. Immutable once written.
#[derive(Clone, Debug)]
pub struct BranchMetadata {
    parent_branch_name: String,
    parent_branch_revision: String,
}

impl View for BranchMetadata {
    type V = LineageView;

    closed spec fn view(&self) -> LineageView {
        LineageView {
            parent_branch_name: self.parent_branch_name@,
            parent_branch_revision: self.parent_branch_revision@,
        }
    }
}

impl BranchMetadata {
    /// A record saying "forked from `parent_branch_name`, which stood at
    /// `parent_branch_revision`".
    pub fn new(parent_branch_name: String, parent_branch_revision: String) -> (r: Self)
        ensures
            r@ == (LineageView {
                parent_branch_name: parent_branch_name@,
                parent_branch_revision: parent_branch_revision@,
            }),
    {
        Self { parent_branch_name, parent_branch_revision }
    }

    /// The name of the branch this one was forked from.
    pub fn parent_branch_name(&self) -> (r: &String)
        ensures
            r@ == self@.parent_branch_name,
    {
        &self.parent_branch_name
    }

    /// The revision the parent branch stood at when this branch was forked.
    pub fn parent_branch_revision(&self) -> (r: &String)
        ensures
            r@ == self@.parent_branch_revision,
    {
        &self.parent_branch_revision
    }
}

/// How one character is written inside a JSON string: quote, backslash and
/// the common control characters get a two-character escape, everything else
/// stands for itself.
pub open spec fn escape_char(c: char) -> Seq<char> {
    if c == '"' {
        seq!['\\', '"']
    } else if c == '\\' {
        seq!['\\', '\\']
    } else if c == '\n' {
        seq!['\\', 'n']
    } else if c == '\r' {
        seq!['\\', 'r']
    } else if c == '\t' {
        seq!['\\', 't']
    } else {
        seq![c]
    }
}

/// The body of a JSON string holding the characters of `s`.
pub open spec fn escaped(s: Seq<char>) -> Seq<char>
    decreases s.len(),
{
    if s.len() == 0 {
        Seq::empty()
    } else {
        escape_char(s[0]) + escaped(s.drop_first())
    }
}

/// The character an escape `\c` stands for, if `c` is a recognized escape.
pub open spec fn unescaped_char(c: char) -> Option<char> {
    if c == '"' {
        Some('"')
    } else if c == '\\' {
        Some('\\')
    } else if c == 'n' {
        Some('\n')
    } else if c == 'r' {
        Some('\r')
    } else if c == 't' {
        Some('\t')
    } else {
        None
    }
}

/// The opening brace, first key and its opening quote.
pub open spec fn meta_prefix() -> Seq<char> {
    "{\"parentBranchName\":\""@
}

/// The comma, second key and its opening quote (the first string's closing
/// quote is consumed by the string parser itself).
pub open spec fn meta_sep() -> Seq<char> {
    ",\"parentBranchRevision\":\""@
}

/// The canonical text form of a lineage record.
pub open spec fn serialized_lineage(m: LineageView) -> Seq<char> {
    meta_prefix() + escaped(m.parent_branch_name) + seq!['"'] + meta_sep() + escaped(
        m.parent_branch_revision,
    ) + seq!['"', '}']
}

/// Reads a JSON string body starting at `i` (just after the opening quote):
/// the characters it stands for and the index just after the closing quote.
pub open spec fn parse_jstring_from(s: Seq<char>, i: int) -> Option<(Seq<char>, int)>
    decreases s.len() - i,
{
    if i < 0 || i >= s.len() {
        None
    } else if s[i] == '"' {
        Some((Seq::empty(), i + 1))
    } else if s[i] == '\\' {
        if i + 1 >= s.len() {
            None
        } else {
            match unescaped_char(s[i + 1]) {
                None => None,
                Some(u) => match parse_jstring_from(s, i + 2) {
                    None => None,
                    Some((content, j)) => Some((seq![u] + content, j)),
                },
            }
        }
    } else {
        match parse_jstring_from(s, i + 1) {
            None => None,
            Some((content, j)) => Some((seq![s[i]] + content, j)),
        }
    }
}

/// The lineage record a text stands for, or `None` when the text is not a
/// canonical record.
pub open spec fn parse_lineage(s: Seq<char>) -> Option<LineageView> {
    let plen = meta_prefix().len() as int;
    if s.len() < plen || s.subrange(0, plen) != meta_prefix() {
        None
    } else {
        match parse_jstring_from(s, plen) {
            None => None,
            Some((name, j)) => {
                let seplen = meta_sep().len() as int;
                if j + seplen > s.len() || s.subrange(j, j + seplen) != meta_sep() {
                    None
                } else {
                    match parse_jstring_from(s, j + seplen) {
                        None => None,
                        Some((rev, k)) => {
                            if k + 1 == s.len() && s[k] == '}' {
                                Some(
                                    LineageView {
                                        parent_branch_name: name,
                                        parent_branch_revision: rev,
                                    },
                                )
                            } else {
                                None
                            }
                        },
                    }
                }
            },
        }
    }
}

/// Escaping distributes over concatenation.
proof fn lemma_escaped_append(a: Seq<char>, b: Seq<char>)
    ensures
        escaped(a + b) == escaped(a) + escaped(b),
    decreases a.len(),
{
    if a.len() == 0 {
        assert(a + b =~= b);
        assert(escaped(a) + escaped(b) =~= escaped(b));
    } else {
        assert((a + b).drop_first() =~= a.drop_first() + b);
        lemma_escaped_append(a.drop_first(), b);
        assert(escape_char(a[0]) + (escaped(a.drop_first()) + escaped(b)) =~= (escape_char(a[0])
            + escaped(a.drop_first())) + escaped(b));
    }
}

/// One character escapes to exactly its escape sequence.
proof fn lemma_escaped_singleton(c: char)
    ensures
        escaped(seq![c]) == escape_char(c),
{
    assert(seq![c].drop_first() =~= Seq::<char>::empty());
    assert(escape_char(c) + escaped(Seq::<char>::empty()) =~= escape_char(c));
}

/// Reading a JSON string gives back exactly what escaping wrote: if `s`
/// continues at `i` with the escaped form of `x` and a closing quote, the
/// string parser returns `x` and stops just after that quote.
pub(crate) proof fn lemma_parse_escaped(x: Seq<char>, s: Seq<char>, i: int)
    requires
        0 <= i,
        i + escaped(x).len() + 1 <= s.len(),
        s.subrange(i, i + escaped(x).len() + 1) == escaped(x) + seq!['"'],
    ensures
        parse_jstring_from(s, i) == Some((x, i + escaped(x).len() + 1)),
    decreases x.len(),
{
    let e = escaped(x);
    let w = e + seq!['"'];
    if x.len() == 0 {
        assert(s[i] == s.subrange(i, i + e.len() + 1)[0]);
        assert(s[i] == w[0]);
    } else {
        let c = x[0];
        let x1 = x.drop_first();
        let e1 = escaped(x1);
        assert(e == escape_char(c) + e1);
        if escape_char(c).len() == 1 {
            assert(escape_char(c) == seq![c]);
            assert(c != '"' && c != '\\');
            assert(s[i] == s.subrange(i, i + e.len() + 1)[0]);
            assert(s[i] == w[0] && w[0] == c);
            assert(s.subrange(i + 1, i + 1 + e1.len() + 1) =~= s.subrange(
                i,
                i + e.len() + 1,
            ).subrange(1, e1.len() + 2int));
            assert(w.subrange(1, e1.len() + 2int) =~= e1 + seq!['"']);
            lemma_parse_escaped(x1, s, i + 1);
            assert(seq![c] + x1 =~= x);
        } else {
            let esc = escape_char(c)[1];
            assert(unescaped_char(esc) == Some(c));
            assert(s[i] == s.subrange(i, i + e.len() + 1)[0]);
            assert(s[i + 1] == s.subrange(i, i + e.len() + 1)[1]);
            assert(s[i] == w[0] && w[0] == '\\');
            assert(s[i + 1] == w[1] && w[1] == esc);
            assert(s.subrange(i + 2, i + 2 + e1.len() + 1) =~= s.subrange(
                i,
                i + e.len() + 1,
            ).subrange(2, e1.len() + 3int));
            assert(w.subrange(2, e1.len() + 3int) =~= e1 + seq!['"']);
            lemma_parse_escaped(x1, s, i + 2);
            assert(seq![c] + x1 =~= x);
        }
    }
}

/// Parsing a serialized lineage record gives the record back unchanged: the
/// codec round-trips, so a record written by `serialize_branch_metadata` is
/// read back by `parse_branch_metadata` exactly.
pub proof fn lemma_lineage_round_trip(m: LineageView)
    ensures
        parse_lineage(serialized_lineage(m)) == Some(m),
{
    let s = serialized_lineage(m);
    let plen = meta_prefix().len() as int;
    let en = escaped(m.parent_branch_name);
    let er = escaped(m.parent_branch_revision);
    let seplen = meta_sep().len() as int;
    assert(s.subrange(0, plen) =~= meta_prefix());
    assert(s.subrange(plen, plen + en.len() + 1) =~= en + seq!['"']);
    lemma_parse_escaped(m.parent_branch_name, s, plen);
    let j = plen + en.len() + 1;
    assert(s.subrange(j, j + seplen) =~= meta_sep());
    assert(s.subrange(j + seplen, j + seplen + er.len() + 1) =~= er + seq!['"']);
    lemma_parse_escaped(m.parent_branch_revision, s, j + seplen);
    let k = j + seplen + er.len() + 1;
    assert(s[k] == '}');
    assert(k + 1 == s.len());
}

/// Appends the escaped form of `s` to `out`.
pub(crate) fn escape_into(out: &mut String, s: &str)
    ensures
        final(out)@ == old(out)@ + escaped(s@),
{
    let ghost out0 = out@;
    let chars = str_to_chars(s);
    let n = chars.len();
    let mut i: usize = 0;
    proof {
        assert(s@.subrange(0, 0) =~= Seq::<char>::empty());
        assert(out0 + escaped(s@.subrange(0, 0)) =~= out0);
    }
    while i < n
        invariant
            i <= n,
            n == s@.len(),
            chars@ == s@,
            out@ == out0 + escaped(s@.subrange(0, i as int)),
        decreases n - i,
    {
        let c = chars[i];
        if c == '"' {
            push_char(out, '\\');
            push_char(out, '"');
        } else if c == '\\' {
            push_char(out, '\\');
            push_char(out, '\\');
        } else if c == '\n' {
            push_char(out, '\\');
            push_char(out, 'n');
        } else if c == '\r' {
            push_char(out, '\\');
            push_char(out, 'r');
        } else if c == '\t' {
            push_char(out, '\\');
            push_char(out, 't');
        } else {
            push_char(out, c);
        }
        proof {
            let pre = s@.subrange(0, i as int);
            let post = s@.subrange(0, i + 1);
            assert(post =~= pre + seq![s@[i as int]]);
            lemma_escaped_append(pre, seq![s@[i as int]]);
            lemma_escaped_singleton(s@[i as int]);
            assert(out@ =~= out0 + escaped(post));
        }
        i = i + 1;
    }
    proof {
        assert(s@.subrange(0, n as int) =~= s@);
    }
}

/// The canonical text form of a lineage record.
pub fn serialize_branch_metadata(m: &BranchMetadata) -> (r: String)
    ensures
        r@ == serialized_lineage(m@),
{
    let mut out = String::from_str("{\"parentBranchName\":\"");
    escape_into(&mut out, m.parent_branch_name().as_str());
    push_char(&mut out, '"');
    out.append(",\"parentBranchRevision\":\"");
    escape_into(&mut out, m.parent_branch_revision().as_str());
    push_char(&mut out, '"');
    push_char(&mut out, '}');
    proof {
        assert(out@ =~= serialized_lineage(m@));
    }
    out
}

/// Reads a JSON string body of `v` starting at `i`: the characters it stands
/// for and the index just after the closing quote.
pub(crate) fn parse_jstring_exec(v: &Vec<char>, i: usize) -> (r: Option<(Vec<char>, usize)>)
    requires
        i <= v@.len(),
    ensures
        r matches Some((c, j)) ==> i < j <= v@.len() && parse_jstring_from(v@, i as int) == Some(
            (c@, j as int),
        ),
        r is None ==> parse_jstring_from(v@, i as int) is None,
{
    let n = v.len();
    let mut j: usize = i;
    let mut out: Vec<char> = Vec::new();
    while j < n
        invariant
            i <= j <= n,
            n == v@.len(),
            parse_jstring_from(v@, i as int) == (match parse_jstring_from(v@, j as int) {
                None => None::<(Seq<char>, int)>,
                Some((c, k)) => Some((out@ + c, k)),
            }),
        decreases n - j,
    {
        let c = v[j];
        if c == '"' {
            proof {
                assert(parse_jstring_from(v@, j as int) == Some(
                    (Seq::<char>::empty(), j + 1 as int),
                ));
                assert(out@ + Seq::<char>::empty() =~= out@);
            }
            return Some((out, j + 1));
        } else if c == '\\' {
            if j + 1 >= n {
                proof {
                    assert(parse_jstring_from(v@, j as int) is None);
                }
                return None;
            }
            let e = v[j + 1];
            let u: char;
            if e == '"' {
                u = '"';
            } else if e == '\\' {
                u = '\\';
            } else if e == 'n' {
                u = '\n';
            } else if e == 'r' {
                u = '\r';
            } else if e == 't' {
                u = '\t';
            } else {
                proof {
                    assert(unescaped_char(v@[j + 1]) is None);
                    assert(parse_jstring_from(v@, j as int) is None);
                }
                return None;
            }
            let ghost out_pre = out@;
            out.push(u);
            j = j + 2;
            proof {
                assert(unescaped_char(v@[j - 1]) == Some(u));
                let pj = parse_jstring_from(v@, j as int);
                if pj is Some {
                    let (c2, k) = pj->0;
                    assert(out_pre + (seq![u] + c2) =~= out@ + c2);
                }
            }
        } else {
            let ghost out_pre = out@;
            out.push(c);
            j = j + 1;
            proof {
                let pj = parse_jstring_from(v@, j as int);
                if pj is Some {
                    let (c2, k) = pj->0;
                    assert(out_pre + (seq![v@[j - 1]] + c2) =~= out@ + c2);
                }
            }
        }
    }
    proof {
        assert(parse_jstring_from(v@, j as int) is None);
    }
    None
}

/// Reads a canonical lineage record; `None` when the text is not one.
pub fn parse_branch_metadata(s: &str) -> (r: Option<BranchMetadata>)
    ensures
        r matches Some(m) ==> parse_lineage(s@) == Some(m@),
        r is None ==> parse_lineage(s@) is None,
{
    let v = str_to_chars(s);
    let prefix = "{\"parentBranchName\":\"";
    if !matches_at(&v, 0, prefix) {
        return None;
    }
    let plen = prefix.unicode_len();
    match parse_jstring_exec(&v, plen) {
        None => None,
        Some((name, j)) => {
            let sep = ",\"parentBranchRevision\":\"";
            if !matches_at(&v, j, sep) {
                return None;
            }
            let seplen = sep.unicode_len();
            match parse_jstring_exec(&v, j + seplen) {
                None => None,
                Some((rev, k)) => {
                    if k == v.len() - 1 && v[k] == '}' {
                        Some(
                            BranchMetadata::new(chars_to_string(&name), chars_to_string(&rev)),
                        )
                    } else {
                        None
                    }
                },
            }
        },
    }
}

/// The reference that carries a branch's lineage record.
pub open spec fn lineage_ref_name(branch: Seq<char>) -> Seq<char> {
    "refs/branch-metadata/"@ + branch
}

/// The reference name that carries `branch`'s lineage record.
pub fn lineage_ref(branch: &str) -> (r: String)
    ensures
        r@ == lineage_ref_name(branch@),
{
    let s = String::from_str("refs/branch-metadata/");
    s.concat(branch)
}

/// What a lookup of a branch's lineage finds: no record, a well-formed
/// record, or a reference pointing at malformed or missing content.
pub enum LineageLookup {
    Absent,
    Present(LineageView),
    Corrupt,
}

/// The lineage state of `branch` in a backend model.
pub open spec fn lineage_lookup_spec(m: GitModel, branch: Seq<char>) -> LineageLookup {
    let rn = lineage_ref_name(branch);
    if !m.refs.dom().contains(rn) {
        LineageLookup::Absent
    } else if !m.objects.dom().contains(m.refs[rn]) {
        LineageLookup::Corrupt
    } else {
        match parse_lineage(m.objects[m.refs[rn]]) {
            None => LineageLookup::Corrupt,
            Some(l) => LineageLookup::Present(l),
        }
    }
}

/// The content-addressed store only grows: everything in `o0` stands in `o1`
/// unchanged.
pub open spec fn objects_grown(o0: Map<Seq<char>, Seq<char>>, o1: Map<Seq<char>, Seq<char>>) -> bool {
    forall|k: Seq<char>|
        #[trigger] o0.dom().contains(k) ==> o1.dom().contains(k) && o1[k] == o0[k]
}

/// Records `metadata` as the lineage of `branch_name`: writes the canonical
/// record as a blob and points `refs/branch-metadata/<branch_name>` at it.
/// Called once per branch, after its final name is known. On success the
/// branch's lineage reads back as exactly `metadata`; no other reference
/// moves, and the model is otherwise untouched.
pub fn create_branch_metadata<C: GitClient>(
    client: &mut C,
    branch_name: &str,
    metadata: &BranchMetadata,
) -> (r: Result<(), GiError>)
    requires
        old(client).wf(),
    ensures
        final(client).wf(),
        r is Ok ==> lineage_lookup_spec(final(client).model(), branch_name@)
            == LineageLookup::Present(metadata@) && final(client).model().refs == old(client).model().refs.insert(
            lineage_ref_name(branch_name@),
            final(client).model().refs[lineage_ref_name(branch_name@)],
        ) && objects_grown(old(client).model().objects, final(client).model().objects) && final(client).model() == (GitModel {
            refs: final(client).model().refs,
            objects: final(client).model().objects,
            ..old(client).model()
        }),
        r is Err ==> final(client).model().refs == old(client).model().refs && objects_grown(
            old(client).model().objects,
            final(client).model().objects,
        ) && final(client).model() == (GitModel {
            objects: final(client).model().objects,
            ..old(client).model()
        }),
        r matches Err(e) ==> e == GiError::BackendFailure || e == GiError::RefUpdateFailed,
{
    let text = serialize_branch_metadata(metadata);
    let oid = match client.create_blob(text.as_str()) {
        Ok(o) => o,
        Err(e) => {
            return Err(e);
        },
    };
    let refname = lineage_ref(branch_name);
    match client.update_ref(refname.as_str(), oid.as_str()) {
        Ok(()) => {
            proof {
                lemma_lineage_round_trip(metadata@);
            }
            Ok(())
        },
        Err(e) => Err(e),
    }
}

/// Reads the lineage of `branch_name`. A missing reference is not an error:
/// the branch simply has no recorded lineage. A reference pointing at
/// malformed or missing content is `CorruptMetadata`, distinct from absence.
pub fn lookup_branch_metadata<C: GitClient>(client: &C, branch_name: &str) -> (r: Result<
    Option<BranchMetadata>,
    GiError,
>)
    requires
        client.wf(),
    ensures
        lineage_lookup_spec(client.model(), branch_name@) is Absent ==> (r matches Ok(o) && o
            is None),
        lineage_lookup_spec(client.model(), branch_name@) matches LineageLookup::Present(l) ==> (
        r matches Ok(o) && o matches Some(m) && m@ == l),
        lineage_lookup_spec(client.model(), branch_name@) is Corrupt ==> (r matches Err(e) && e
            == GiError::CorruptMetadata),
{
    let refname = lineage_ref(branch_name);
    let oid = match client.read_ref(refname.as_str()) {
        None => {
            return Ok(None);
        },
        Some(oid) => oid,
    };
    let content = match client.read_object(oid.as_str()) {
        Ok(c) => c,
        Err(_) => {
            return Err(GiError::CorruptMetadata);
        },
    };
    match parse_branch_metadata(content.as_str()) {
        Some(m) => Ok(Some(m)),
        None => Err(GiError::CorruptMetadata),
    }
}

} // verus!
