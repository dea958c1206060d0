//! In-memory collaborators for exercising the workflows.
//!
//! `FakeGit` is a complete, verified implementation of the backend
//! capability: it holds the whole repository state in vectors and proves
//! every contract of [`crate::git_client::GitClient`], which shows those
//! contracts are satisfiable. The fake prompter, settings store and provider
//! answer from scripts. Tests drive the workflows against these.

use vstd::prelude::*;

use crate::commitmsg::filter_commit_body;
use crate::errors::GiError;
use crate::git_client::{CommitStatus, GitClient, GitModel, WorkingArea};
use crate::prompt::{Prompter, StageChoice};
use crate::provider::GitProvider;
use crate::settings::{ProjectSettings, SettingsStore};
use crate::text::str_eq;

verus! {

/// The views of an association list's entries.
pub open spec fn pairs_view(s: Seq<(String, String)>) -> Seq<(Seq<char>, Seq<char>)> {
    Seq::new(s.len(), |i: int| (s[i].0@, s[i].1@))
}

/// The map an association list stands for; a later entry for a key would
/// shadow an earlier one, though unique keys are kept throughout.
pub open spec fn assoc_map(s: Seq<(Seq<char>, Seq<char>)>) -> Map<Seq<char>, Seq<char>>
    decreases s.len(),
{
    if s.len() == 0 {
        Map::empty()
    } else {
        assoc_map(s.drop_last()).insert(s.last().0, s.last().1)
    }
}

/// No two entries share a key.
pub open spec fn unique_keys(s: Seq<(String, String)>) -> bool {
    forall|i: int, j: int| 0 <= i < j < s.len() ==> (#[trigger] s[i]).0@ != (#[trigger] s[j]).0@
}

/// The map a vector-backed association list stands for.
pub open spec fn vec_assoc_map(s: Seq<(String, String)>) -> Map<Seq<char>, Seq<char>> {
    assoc_map(pairs_view(s))
}

/// A key is in the association list's map exactly when some entry holds it.
proof fn lemma_assoc_contains(s: Seq<(Seq<char>, Seq<char>)>, k: Seq<char>)
    ensures
        assoc_map(s).dom().contains(k) <==> exists|i: int| 0 <= i < s.len() && (#[trigger] s[i]).0
            == k,
    decreases s.len(),
{
    if s.len() > 0 {
        lemma_assoc_contains(s.drop_last(), k);
        if assoc_map(s).dom().contains(k) {
            if s.last().0 == k {
                assert(s[s.len() - 1].0 == k);
            } else {
                let i = choose|i: int| 0 <= i < s.drop_last().len() && (#[trigger] s.drop_last()[
                    i]).0 == k;
                assert(s[i].0 == k);
            }
        }
        if exists|i: int| 0 <= i < s.len() && (#[trigger] s[i]).0 == k {
            let i = choose|i: int| 0 <= i < s.len() && (#[trigger] s[i]).0 == k;
            if i < s.len() - 1 {
                assert(s.drop_last()[i].0 == k);
            }
        }
    }
}

/// With unique keys, the entry at `i` is what the map holds for its key.
proof fn lemma_assoc_index(s: Seq<(Seq<char>, Seq<char>)>, i: int)
    requires
        forall|x: int, y: int|
            0 <= x < y < s.len() ==> (#[trigger] s[x]).0 != (#[trigger] s[y]).0,
        0 <= i < s.len(),
    ensures
        assoc_map(s).dom().contains(s[i].0),
        assoc_map(s)[s[i].0] == s[i].1,
    decreases s.len(),
{
    if i < s.len() - 1 {
        assert(forall|x: int, y: int|
            0 <= x < y < s.drop_last().len() ==> (#[trigger] s.drop_last()[x]).0 != (
            #[trigger] s.drop_last()[y]).0);
        lemma_assoc_index(s.drop_last(), i);
        assert(s.drop_last()[i] == s[i]);
        assert(s[i].0 != s.last().0);
    }
}

/// A key held by no entry is not in the map.
proof fn lemma_vec_assoc_absent(s: Seq<(String, String)>, k: Seq<char>)
    requires
        forall|i: int| 0 <= i < s.len() ==> (#[trigger] s[i]).0@ != k,
    ensures
        !vec_assoc_map(s).dom().contains(k),
{
    lemma_assoc_contains(pairs_view(s), k);
    assert forall|i: int| 0 <= i < pairs_view(s).len() implies (#[trigger] pairs_view(s)[i]).0
        != k by {
        assert(s[i].0@ != k);
    }
}

/// With unique keys, the entry at `i` is what the map holds for its key.
proof fn lemma_vec_assoc_index(s: Seq<(String, String)>, i: int)
    requires
        unique_keys(s),
        0 <= i < s.len(),
    ensures
        vec_assoc_map(s).dom().contains(s[i].0@),
        vec_assoc_map(s)[s[i].0@] == s[i].1@,
{
    assert forall|x: int, y: int|
        0 <= x < y < pairs_view(s).len() implies (#[trigger] pairs_view(s)[x]).0 != (
    #[trigger] pairs_view(s)[y]).0 by {
        assert(s[x].0@ != s[y].0@);
    }
    lemma_assoc_index(pairs_view(s), i);
    assert(pairs_view(s)[i].0 == s[i].0@);
}

/// Appending an entry under a fresh key inserts its pair and keeps keys
/// unique.
proof fn lemma_vec_assoc_push(s: Seq<(String, String)>, p: (String, String))
    requires
        unique_keys(s),
        forall|i: int| 0 <= i < s.len() ==> (#[trigger] s[i]).0@ != p.0@,
    ensures
        unique_keys(s.push(p)),
        vec_assoc_map(s.push(p)) == vec_assoc_map(s).insert(p.0@, p.1@),
{
    let t = s.push(p);
    assert(pairs_view(t) =~= pairs_view(s).push((p.0@, p.1@)));
    assert(pairs_view(t).drop_last() =~= pairs_view(s));
    assert forall|x: int, y: int|
        0 <= x < y < t.len() implies (#[trigger] t[x]).0@ != (#[trigger] t[y]).0@ by {
        if y < s.len() {
            assert(s[x].0@ != s[y].0@);
        } else {
            assert(s[x].0@ != p.0@);
        }
    }
}

/// Replacing the value at `i` (same key) updates the map at that key and
/// keeps keys unique.
proof fn lemma_vec_assoc_update(s: Seq<(String, String)>, i: int, p: (String, String))
    requires
        unique_keys(s),
        0 <= i < s.len(),
        p.0@ == s[i].0@,
    ensures
        unique_keys(s.update(i, p)),
        vec_assoc_map(s.update(i, p)) == vec_assoc_map(s).insert(s[i].0@, p.1@),
    decreases s.len(),
{
    let t = s.update(i, p);
    let k = s[i].0@;
    assert forall|x: int, y: int|
        0 <= x < y < t.len() implies (#[trigger] t[x]).0@ != (#[trigger] t[y]).0@ by {
        assert(s[x].0@ != s[y].0@);
    }
    if i == s.len() - 1 {
        assert(pairs_view(t).drop_last() =~= pairs_view(s).drop_last());
        assert(pairs_view(t).last() == (k, p.1@));
        assert(pairs_view(s).last() == (k, s[i].1@));
        assert(assoc_map(pairs_view(s).drop_last()).insert(k, p.1@) =~= assoc_map(
            pairs_view(s).drop_last(),
        ).insert(k, s[i].1@).insert(k, p.1@));
    } else {
        assert(unique_keys(s.drop_last())) by {
            assert(forall|x: int, y: int|
                0 <= x < y < s.drop_last().len() ==> (#[trigger] s.drop_last()[x]).0@ != (
                #[trigger] s.drop_last()[y]).0@);
        }
        lemma_vec_assoc_update(s.drop_last(), i, p);
        assert(t.drop_last() =~= s.drop_last().update(i, p));
        assert(pairs_view(t).drop_last() =~= pairs_view(t.drop_last()));
        assert(pairs_view(s).drop_last() =~= pairs_view(s.drop_last()));
        assert(t.last() == s.last());
        assert(k != s.last().0@);
        assert(vec_assoc_map(s.drop_last()).insert(k, p.1@).insert(s.last().0@, s.last().1@)
            =~= vec_assoc_map(s.drop_last()).insert(s.last().0@, s.last().1@).insert(k, p.1@));
        assert(pairs_view(t).last() == (s.last().0@, s.last().1@));
        assert(pairs_view(s).last() == (s.last().0@, s.last().1@));
    }
}

/// Removing the entry at `i` removes its key from the map and keeps keys
/// unique.
proof fn lemma_vec_assoc_remove(s: Seq<(String, String)>, i: int)
    requires
        unique_keys(s),
        0 <= i < s.len(),
    ensures
        unique_keys(s.remove(i)),
        vec_assoc_map(s.remove(i)) == vec_assoc_map(s).remove(s[i].0@),
    decreases s.len(),
{
    let t = s.remove(i);
    let k = s[i].0@;
    assert forall|x: int, y: int|
        0 <= x < y < t.len() implies (#[trigger] t[x]).0@ != (#[trigger] t[y]).0@ by {
        let x0 = if x < i {
            x
        } else {
            x + 1
        };
        let y0 = if y < i {
            y
        } else {
            y + 1
        };
        assert(t[x] == s[x0]);
        assert(t[y] == s[y0]);
        assert(s[x0].0@ != s[y0].0@);
    }
    if i == s.len() - 1 {
        assert(t =~= s.drop_last());
        assert(forall|j: int| 0 <= j < t.len() ==> (#[trigger] t[j]).0@ != k);
        lemma_vec_assoc_absent(t, k);
        assert(pairs_view(s).drop_last() =~= pairs_view(t));
        assert(pairs_view(s).last() == (k, s[i].1@));
        assert(vec_assoc_map(t).insert(k, s[i].1@).remove(k) =~= vec_assoc_map(t));
    } else {
        assert(unique_keys(s.drop_last())) by {
            assert(forall|x: int, y: int|
                0 <= x < y < s.drop_last().len() ==> (#[trigger] s.drop_last()[x]).0@ != (
                #[trigger] s.drop_last()[y]).0@);
        }
        lemma_vec_assoc_remove(s.drop_last(), i);
        assert(s.drop_last()[i] == s[i]);
        assert(t.drop_last() =~= s.drop_last().remove(i));
        assert(t.last() == s.last());
        assert(pairs_view(t).drop_last() =~= pairs_view(t.drop_last()));
        assert(pairs_view(t).last() == (s.last().0@, s.last().1@));
        assert(pairs_view(s).drop_last() =~= pairs_view(s.drop_last()));
        assert(pairs_view(s).last() == (s.last().0@, s.last().1@));
        assert(k != s.last().0@);
        assert(vec_assoc_map(s.drop_last()).remove(k).insert(s.last().0@, s.last().1@)
            =~= vec_assoc_map(s.drop_last()).insert(s.last().0@, s.last().1@).remove(k));
    }
}

/// The index of the entry holding `k`, if any.
fn assoc_find(v: &Vec<(String, String)>, k: &str) -> (r: Option<usize>)
    ensures
        r matches Some(i) ==> i < v@.len() && v@[i as int].0@ == k@,
        r is None ==> forall|i: int| 0 <= i < v@.len() ==> (#[trigger] v@[i]).0@ != k@,
{
    let mut i: usize = 0;
    while i < v.len()
        invariant
            i <= v@.len(),
            forall|j: int| 0 <= j < i ==> (#[trigger] v@[j]).0@ != k@,
        decreases v@.len() - i,
    {
        if str_eq(v[i].0.as_str(), k) {
            return Some(i);
        }
        i = i + 1;
    }
    None
}

/// A copy of a vector of strings, element for element.
fn clone_string_vec(v: &Vec<String>) -> (r: Vec<String>)
    ensures
        r.deep_view() == v.deep_view(),
{
    let mut r: Vec<String> = Vec::new();
    let mut i: usize = 0;
    while i < v.len()
        invariant
            i <= v@.len(),
            r@.len() == i,
            forall|j: int| 0 <= j < i ==> (#[trigger] r@[j])@ == v@[j]@,
        decreases v@.len() - i,
    {
        r.push(v[i].clone());
        i = i + 1;
    }
    proof {
        assert(r.deep_view() =~= v.deep_view());
    }
    r
}

/// An in-memory version-control backend. It holds the whole repository
/// state — branches and revisions, the checked-out branch, the working
/// area, references, a content-addressed object store, pushes — plus a
/// script for the one interactive step: what the next commit will be, or
/// that the operator will abort it.
pub struct FakeGit {
    branches: Vec<(String, String)>,
    current: Option<String>,
    staged: Vec<String>,
    unstaged: Vec<String>,
    head_title: String,
    head_body: String,
    head_revision: String,
    refs: Vec<(String, String)>,
    objects: Vec<(String, String)>,
    pushed: Vec<String>,
    remote_url: String,
    commit_aborts: bool,
    next_commit_title: String,
    next_commit_body: String,
    next_commit_revision: String,
    deletes_fail: bool,
}

impl FakeGit {
    /// An empty repository: no branches, detached head, clean working area.
    pub fn new() -> (r: FakeGit)
        ensures
            r.wf(),
            r.model() == (GitModel {
                branches: Map::empty(),
                current: None,
                staged: Seq::empty(),
                unstaged: Seq::empty(),
                head_title: Seq::empty(),
                head_body: Seq::empty(),
                refs: Map::empty(),
                objects: Map::empty(),
                pushed: Seq::empty(),
                remote_url: Seq::empty(),
            }),
    {
        let r = FakeGit {
            branches: Vec::new(),
            current: None,
            staged: Vec::new(),
            unstaged: Vec::new(),
            head_title: String::new(),
            head_body: String::new(),
            head_revision: String::new(),
            refs: Vec::new(),
            objects: Vec::new(),
            pushed: Vec::new(),
            remote_url: String::new(),
            commit_aborts: false,
            next_commit_title: String::new(),
            next_commit_body: String::new(),
            next_commit_revision: String::new(),
            deletes_fail: false,
        };
        proof {
            assert(pairs_view(r.branches@) =~= Seq::<(Seq<char>, Seq<char>)>::empty());
            assert(pairs_view(r.refs@) =~= Seq::<(Seq<char>, Seq<char>)>::empty());
            assert(pairs_view(r.objects@) =~= Seq::<(Seq<char>, Seq<char>)>::empty());
            assert(r.staged.deep_view() =~= Seq::<Seq<char>>::empty());
            assert(r.unstaged.deep_view() =~= Seq::<Seq<char>>::empty());
            assert(r.pushed.deep_view() =~= Seq::<Seq<char>>::empty());
        }
        r
    }

    /// Adds a branch at the given revision; `false` (and no change) when the
    /// name is taken.
    pub fn add_branch(&mut self, name: String, revision: String) -> (r: bool)
        requires
            old(self).wf(),
        ensures
            final(self).wf(),
            r <==> !old(self).model().branches.dom().contains(name@),
            r ==> final(self).model() == (GitModel {
                branches: old(self).model().branches.insert(name@, revision@),
                ..old(self).model()
            }),
            !r ==> *final(self) == *old(self),
    {
        match assoc_find(&self.branches, name.as_str()) {
            Some(i) => {
                proof {
                    lemma_vec_assoc_index(self.branches@, i as int);
                    assert(self.branches@[i as int].0@ == name@);
                }
                false
            },
            None => {
                proof {
                    lemma_vec_assoc_absent(self.branches@, name@);
                    lemma_vec_assoc_push(self.branches@, (name, revision));
                }
                self.branches.push((name, revision));
                proof {
                    if self.current is Some {
                        let c = self.current->0;
                        let j = choose|j: int|
                            0 <= j < old(self).branches@.len() && (#[trigger] old(
                                self,
                            ).branches@[j]).0@ == c@;
                        assert(self.branches@[j].0@ == c@);
                    }
                }
                true
            },
        }
    }

    /// Checks the named branch out directly (for arranging a starting
    /// state); `false` (and no change) when it does not exist.
    pub fn set_current_branch(&mut self, name: &str) -> (r: bool)
        requires
            old(self).wf(),
        ensures
            final(self).wf(),
            r <==> old(self).model().branches.dom().contains(name@),
            r ==> final(self).model() == (GitModel { current: Some(name@), ..old(self).model() }),
            !r ==> *final(self) == *old(self),
    {
        match assoc_find(&self.branches, name) {
            Some(i) => {
                proof {
                    lemma_vec_assoc_index(self.branches@, i as int);
                }
                let n = self.branches[i].0.clone();
                let rv = self.branches[i].1.clone();
                self.current = Some(n);
                self.head_revision = rv;
                proof {
                    assert(self.branches@[i as int].0@ == name@);
                }
                true
            },
            None => {
                proof {
                    lemma_vec_assoc_absent(self.branches@, name@);
                }
                false
            },
        }
    }

    /// Sets the working area.
    pub fn set_working_area(&mut self, staged: Vec<String>, unstaged: Vec<String>)
        requires
            old(self).wf(),
        ensures
            final(self).wf(),
            final(self).model() == (GitModel {
                staged: staged.deep_view(),
                unstaged: unstaged.deep_view(),
                ..old(self).model()
            }),
    {
        self.staged = staged;
        self.unstaged = unstaged;
    }

    /// Sets the remote URL.
    pub fn set_remote_url(&mut self, url: String)
        requires
            old(self).wf(),
        ensures
            final(self).wf(),
            final(self).model() == (GitModel { remote_url: url@, ..old(self).model() }),
    {
        self.remote_url = url;
    }

    /// Sets the head commit's title and raw body.
    pub fn set_head(&mut self, title: String, body: String)
        requires
            old(self).wf(),
        ensures
            final(self).wf(),
            final(self).model() == (GitModel {
                head_title: title@,
                head_body: body@,
                ..old(self).model()
            }),
    {
        self.head_title = title;
        self.head_body = body;
    }

    /// Scripts the next interactive commit: whether the operator aborts it,
    /// and otherwise the commit's title, body and resulting revision.
    pub fn plan_commit(&mut self, aborts: bool, title: String, body: String, revision: String)
        requires
            old(self).wf(),
        ensures
            final(self).wf(),
            final(self).model() == old(self).model(),
    {
        self.commit_aborts = aborts;
        self.next_commit_title = title;
        self.next_commit_body = body;
        self.next_commit_revision = revision;
    }

    /// Scripts every later branch deletion to fail, for exercising
    /// best-effort cleanup.
    pub fn fail_deletes(&mut self)
        requires
            old(self).wf(),
        ensures
            final(self).wf(),
            final(self).model() == old(self).model(),
    {
        self.deletes_fail = true;
    }

    /// Whether the named branch exists.
    pub fn has_branch(&self, name: &str) -> (r: bool)
        requires
            self.wf(),
        ensures
            r == self.model().branches.dom().contains(name@),
    {
        match assoc_find(&self.branches, name) {
            Some(i) => {
                proof {
                    lemma_vec_assoc_index(self.branches@, i as int);
                    assert(self.branches@[i as int].0@ == name@);
                }
                true
            },
            None => {
                proof {
                    lemma_vec_assoc_absent(self.branches@, name@);
                }
                false
            },
        }
    }

    /// The branches pushed so far, in order.
    pub fn pushed_branches(&self) -> (r: &Vec<String>)
        ensures
            r.deep_view() == self.model().pushed,
    {
        &self.pushed
    }
}

impl GitClient for FakeGit {
    /// Unique branch names, references and object ids; the object store maps
    /// each content to itself (a content address with no hashing); the
    /// checked-out branch exists.
    closed spec fn wf(&self) -> bool {
        &&& unique_keys(self.branches@)
        &&& unique_keys(self.refs@)
        &&& unique_keys(self.objects@)
        &&& forall|i: int|
            0 <= i < self.objects@.len() ==> (#[trigger] self.objects@[i]).0@
                == self.objects@[i].1@
        &&& self.current matches Some(c) ==> exists|i: int|
            0 <= i < self.branches@.len() && (#[trigger] self.branches@[i]).0@ == c@
    }

    closed spec fn model(&self) -> GitModel {
        GitModel {
            branches: vec_assoc_map(self.branches@),
            current: match self.current {
                Some(c) => Some(c@),
                None => None,
            },
            staged: self.staged.deep_view(),
            unstaged: self.unstaged.deep_view(),
            head_title: self.head_title@,
            head_body: self.head_body@,
            refs: vec_assoc_map(self.refs@),
            objects: vec_assoc_map(self.objects@),
            pushed: self.pushed.deep_view(),
            remote_url: self.remote_url@,
        }
    }

    fn get_current_branch(&self) -> (r: Option<String>) {
        match &self.current {
            None => None,
            Some(c) => {
                proof {
                    let j = choose|i: int|
                        0 <= i < self.branches@.len() && (#[trigger] self.branches@[i]).0@ == c@;
                    lemma_vec_assoc_index(self.branches@, j);
                }
                Some(c.clone())
            },
        }
    }

    fn get_working_area(&self) -> (r: Result<WorkingArea, GiError>) {
        Ok(
            WorkingArea {
                staged_files: clone_string_vec(&self.staged),
                unstaged_files: clone_string_vec(&self.unstaged),
            },
        )
    }

    fn add_all(&mut self) -> (r: Result<(), GiError>) {
        let ghost staged0 = self.staged@;
        let ghost unstaged0 = self.unstaged@;
        let mut i: usize = 0;
        while i < self.unstaged.len()
            invariant
                i <= unstaged0.len(),
                self.unstaged@ == unstaged0,
                self.staged@.len() == staged0.len() + i,
                forall|j: int| 0 <= j < staged0.len() ==> (#[trigger] self.staged@[j])@
                    == staged0[j]@,
                forall|j: int|
                    0 <= j < i ==> (#[trigger] self.staged@[staged0.len() + j])@ == unstaged0[j]@,
                *self == (FakeGit { staged: self.staged, ..*old(self) }),
                staged0 == old(self).staged@,
                unstaged0 == old(self).unstaged@,
            decreases unstaged0.len() - i,
        {
            let f = self.unstaged[i].clone();
            self.staged.push(f);
            i = i + 1;
        }
        self.unstaged = Vec::new();
        proof {
            let a = old(self).staged.deep_view();
            let b = old(self).unstaged.deep_view();
            assert forall|k: int|
                0 <= k < self.staged.deep_view().len() implies self.staged.deep_view()[k] == (a
                + b)[k] by {
                assert(self.staged.deep_view()[k] == self.staged@[k]@);
                if k < staged0.len() {
                    assert(self.staged@[k]@ == staged0[k]@);
                    assert(a[k] == old(self).staged@[k]@);
                } else {
                    let j = k - staged0.len();
                    assert(self.staged@[staged0.len() + j]@ == unstaged0[j]@);
                    assert(b[j] == old(self).unstaged@[j]@);
                }
            }
            assert(self.staged.deep_view() =~= a + b);
            assert(self.unstaged.deep_view() =~= Seq::<Seq<char>>::empty());
        }
        Ok(())
    }

    fn try_create_branch(&mut self, branch: &str) -> (r: Result<(), GiError>) {
        match assoc_find(&self.branches, branch) {
            Some(_) => Err(GiError::BackendFailure),
            None => {
                let name = String::from_str(branch);
                let rv = self.head_revision.clone();
                proof {
                    lemma_vec_assoc_absent(self.branches@, branch@);
                    lemma_vec_assoc_push(self.branches@, (name, rv));
                }
                self.branches.push((name, rv));
                proof {
                    lemma_vec_assoc_index(self.branches@, self.branches@.len() - 1);
                    if self.current is Some {
                        let c = self.current->0;
                        let j = choose|j: int|
                            0 <= j < old(self).branches@.len() && (#[trigger] old(
                                self,
                            ).branches@[j]).0@ == c@;
                        assert(self.branches@[j].0@ == c@);
                    }
                }
                Ok(())
            },
        }
    }

    fn checkout(&mut self, branch: &str) -> (r: Result<(), GiError>) {
        match assoc_find(&self.branches, branch) {
            None => Err(GiError::CheckoutFailed),
            Some(i) => {
                proof {
                    lemma_vec_assoc_index(self.branches@, i as int);
                }
                let n = self.branches[i].0.clone();
                let rv = self.branches[i].1.clone();
                self.current = Some(n);
                self.head_revision = rv;
                proof {
                    assert(self.branches@[i as int].0@ == branch@);
                }
                Ok(())
            },
        }
    }

    fn delete_branch(&mut self, branch: &str) -> (r: Result<(), GiError>) {
        if self.deletes_fail {
            return Err(GiError::DeleteFailed);
        }
        let i = match assoc_find(&self.branches, branch) {
            None => {
                return Err(GiError::DeleteFailed);
            },
            Some(i) => i,
        };
        let is_current = match &self.current {
            Some(c) => str_eq(c.as_str(), branch),
            None => false,
        };
        if is_current {
            return Err(GiError::DeleteFailed);
        }
        proof {
            lemma_vec_assoc_index(self.branches@, i as int);
            lemma_vec_assoc_remove(self.branches@, i as int);
        }
        self.branches.remove(i);
        proof {
            if self.current is Some {
                let c = self.current->0;
                let j = choose|j: int|
                    0 <= j < old(self).branches@.len() && (#[trigger] old(self).branches@[j]).0@
                        == c@;
                assert(j != i);
                if j < i {
                    assert(self.branches@[j] == old(self).branches@[j]);
                    assert(self.branches@[j].0@ == c@);
                } else {
                    assert(self.branches@[j - 1] == old(self).branches@[j]);
                    assert(self.branches@[j - 1].0@ == c@);
                }
            }
        }
        Ok(())
    }

    fn interactive_commit(&mut self) -> (r: Result<CommitStatus, GiError>) {
        if self.commit_aborts {
            return Ok(CommitStatus::Aborted);
        }
        let cur = match &self.current {
            Some(c) => c.clone(),
            None => {
                return Err(GiError::BackendFailure);
            },
        };
        let i = match assoc_find(&self.branches, cur.as_str()) {
            Some(i) => i,
            None => {
                return Err(GiError::BackendFailure);
            },
        };
        let name = self.branches[i].0.clone();
        let rv = self.next_commit_revision.clone();
        proof {
            lemma_vec_assoc_update(self.branches@, i as int, (name, rv));
        }
        self.branches[i] = (name, rv);
        self.staged = Vec::new();
        self.head_title = self.next_commit_title.clone();
        self.head_body = self.next_commit_body.clone();
        self.head_revision = self.next_commit_revision.clone();
        proof {
            assert(old(self).branches@[i as int].0@ == cur@);
            assert(self.staged.deep_view() =~= Seq::<Seq<char>>::empty());
            let j = choose|j: int|
                0 <= j < old(self).branches@.len() && (#[trigger] old(self).branches@[j]).0@
                    == cur@;
            assert(self.branches@[j].0@ == old(self).branches@[j].0@);
        }
        Ok(CommitStatus::Success)
    }

    fn get_current_commit_title(&self) -> (r: Result<String, GiError>) {
        Ok(self.head_title.clone())
    }

    fn get_current_commit_body(&self) -> (r: Result<String, GiError>) {
        Ok(filter_commit_body(self.head_body.as_str()))
    }

    fn get_branch_revision(&self, branch: &str) -> (r: Result<String, GiError>) {
        match assoc_find(&self.branches, branch) {
            Some(i) => {
                proof {
                    lemma_vec_assoc_index(self.branches@, i as int);
                    assert(self.branches@[i as int].0@ == branch@);
                }
                Ok(self.branches[i].1.clone())
            },
            None => {
                proof {
                    lemma_vec_assoc_absent(self.branches@, branch@);
                }
                Err(GiError::BackendFailure)
            },
        }
    }

    fn create_blob(&mut self, content: &str) -> (r: Result<String, GiError>) {
        match assoc_find(&self.objects, content) {
            Some(i) => {
                proof {
                    lemma_vec_assoc_index(self.objects@, i as int);
                    assert(self.objects@[i as int].0@ == content@);
                    assert(self.model().objects.insert(content@, content@)
                        =~= self.model().objects);
                }
                Ok(self.objects[i].0.clone())
            },
            None => {
                let oid = String::from_str(content);
                let copy = String::from_str(content);
                proof {
                    lemma_vec_assoc_absent(self.objects@, content@);
                    lemma_vec_assoc_push(self.objects@, (oid, copy));
                }
                self.objects.push((oid, copy));
                proof {
                    assert(forall|j: int|
                        0 <= j < self.objects@.len() ==> (#[trigger] self.objects@[j]).0@
                            == self.objects@[j].1@);
                }
                let out = String::from_str(content);
                Ok(out)
            },
        }
    }

    fn read_object(&self, oid: &str) -> (r: Result<String, GiError>) {
        match assoc_find(&self.objects, oid) {
            Some(i) => {
                proof {
                    lemma_vec_assoc_index(self.objects@, i as int);
                    assert(self.objects@[i as int].0@ == oid@);
                }
                Ok(self.objects[i].1.clone())
            },
            None => {
                proof {
                    lemma_vec_assoc_absent(self.objects@, oid@);
                }
                Err(GiError::BackendFailure)
            },
        }
    }

    fn update_ref(&mut self, refname: &str, oid: &str) -> (r: Result<(), GiError>) {
        match assoc_find(&self.refs, refname) {
            Some(i) => {
                let name = self.refs[i].0.clone();
                let value = String::from_str(oid);
                proof {
                    lemma_vec_assoc_update(self.refs@, i as int, (name, value));
                    assert(self.refs@[i as int].0@ == refname@);
                }
                self.refs[i] = (name, value);
                Ok(())
            },
            None => {
                let name = String::from_str(refname);
                let value = String::from_str(oid);
                proof {
                    lemma_vec_assoc_absent(self.refs@, refname@);
                    lemma_vec_assoc_push(self.refs@, (name, value));
                }
                self.refs.push((name, value));
                Ok(())
            },
        }
    }

    fn read_ref(&self, refname: &str) -> (r: Option<String>) {
        match assoc_find(&self.refs, refname) {
            Some(i) => {
                proof {
                    lemma_vec_assoc_index(self.refs@, i as int);
                    assert(self.refs@[i as int].0@ == refname@);
                }
                Some(self.refs[i].1.clone())
            },
            None => {
                proof {
                    lemma_vec_assoc_absent(self.refs@, refname@);
                }
                None
            },
        }
    }

    fn push_branch(&mut self, branch: &String) -> (r: Result<(), GiError>) {
        let ghost pre = self.pushed.deep_view();
        self.pushed.push(branch.clone());
        proof {
            assert(self.pushed.deep_view() =~= pre.push(branch@));
        }
        Ok(())
    }

    fn get_remote_url(&self) -> (r: Result<String, GiError>) {
        Ok(self.remote_url.clone())
    }

    fn get_repository_root(&self) -> (r: Option<String>) {
        None
    }
}

/// A prompter that answers from a script: a fixed staging choice, a fixed
/// trunk answer, and the offered defaults for pull-request title and body.
pub struct FakePrompter {
    pub stage_choice: StageChoice,
    pub trunk_answer: String,
}

impl FakePrompter {
    /// A prompter answering with the given staging choice and trunk name.
    pub fn new(stage_choice: StageChoice, trunk_answer: String) -> (r: FakePrompter)
        ensures
            r.stage_choice == stage_choice,
            r.trunk_answer@ == trunk_answer@,
    {
        FakePrompter { stage_choice, trunk_answer }
    }
}

impl Prompter for FakePrompter {
    fn choose_stage_action(&mut self) -> (r: Result<StageChoice, GiError>) {
        Ok(self.stage_choice)
    }

    fn ask_for_trunk(&mut self) -> (r: Result<String, GiError>) {
        Ok(self.trunk_answer.clone())
    }

    fn ask_for_pr_title(&mut self, commit_title: &str) -> (r: Result<String, GiError>) {
        Ok(String::from_str(commit_title))
    }

    fn ask_for_pr_body(&mut self, commit_body: &str) -> (r: Result<String, GiError>) {
        Ok(String::from_str(commit_body))
    }
}

/// A settings store that keeps the last saved settings in memory.
pub struct FakeSettingsStore {
    pub saved: Option<ProjectSettings>,
}

impl FakeSettingsStore {
    /// A store with nothing saved yet.
    pub fn new() -> (r: FakeSettingsStore)
        ensures
            r.saved is None,
    {
        FakeSettingsStore { saved: None }
    }
}

impl SettingsStore for FakeSettingsStore {
    fn save(&mut self, settings: &ProjectSettings) -> (r: Result<(), GiError>) {
        self.saved = Some(settings.clone());
        Ok(())
    }
}

/// A provider that hands out a scripted pull-request URL, or fails when
/// told to.
pub struct FakeProvider {
    pub url: String,
    pub fails: bool,
}

impl FakeProvider {
    /// A provider that answers every pull request with the given URL.
    pub fn new(url: String) -> (r: FakeProvider)
        ensures
            r.url@ == url@,
            !r.fails,
    {
        FakeProvider { url, fails: false }
    }
}

impl GitProvider for FakeProvider {
    fn resolve_credential(&mut self) -> (r: Result<String, GiError>) {
        Ok(String::new())
    }

    fn create_pull_request(
        &mut self,
        owner: &str,
        repo: &str,
        branch: &str,
        trunk: &str,
        title: &str,
        body: &str,
    ) -> (r: Result<String, GiError>) {
        if self.fails {
            Err(GiError::ForgeRequestFailed)
        } else {
            Ok(self.url.clone())
        }
    }
}

} // verus!
