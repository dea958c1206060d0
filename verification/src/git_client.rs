//! The version-control backend capability and its mathematical model.
//!
//! `GitClient` is the interface the workflows run against. Its contracts are
//! stated over a `GitModel`: the branches with their tip revisions, the
//! checked-out branch, the working area, the head commit's title and body,
//! the reference and object stores, and what has been pushed. The in-memory
//! backend of [`crate::fake`] implements (and thereby validates) these
//! contracts; a process-spawning implementation lives outside the verified
//! library.

use vstd::prelude::*;

use crate::commitmsg::filtered_body;
use crate::errors::GiError;
use crate::text::push_char;

verus! {

/// The outcome of an operator-driven commit step. `Aborted` is a normal
/// outcome, not an error: the operator closed the commit dialog without
/// committing.
#[derive(Clone, Copy, Debug, PartialEq, Eq, Structural)]
pub enum CommitStatus {
    Success,
    Aborted,
}

/// The modified files of the checkout: what is staged for commit and what is
/// not. Computed fresh on each query, never persisted.
#[derive(Debug)]
pub struct WorkingArea {
    pub staged_files: Vec<String>,
    pub unstaged_files: Vec<String>,
}

impl WorkingArea {
    /// Whether there are no changes at all.
    pub fn is_empty(&self) -> (r: bool)
        ensures
            r == (self.staged_files@.len() == 0 && self.unstaged_files@.len() == 0),
    {
        self.staged_files.len() == 0 && self.unstaged_files.len() == 0
    }

    /// Whether anything is staged for commit.
    pub fn has_staged_changes(&self) -> (r: bool)
        ensures
            r == (self.staged_files@.len() > 0),
    {
        self.staged_files.len() > 0
    }
}

/// The mathematical state of a version-control backend, as far as the
/// workflows observe it.
pub struct GitModel {
    /// Every branch, mapped to the revision at its tip.
    pub branches: Map<Seq<char>, Seq<char>>,
    /// The checked-out branch; `None` in a detached-head state.
    pub current: Option<Seq<char>>,
    /// The staged modified files, in order.
    pub staged: Seq<Seq<char>>,
    /// The unstaged modified files, in order.
    pub unstaged: Seq<Seq<char>>,
    /// The head commit's title.
    pub head_title: Seq<char>,
    /// The head commit's raw body.
    pub head_body: Seq<char>,
    /// Every reference, mapped to the object id it points at.
    pub refs: Map<Seq<char>, Seq<char>>,
    /// The content-addressed object store: object id to content.
    pub objects: Map<Seq<char>, Seq<char>>,
    /// The branches pushed so far, in order.
    pub pushed: Seq<Seq<char>>,
    /// The configured remote URL.
    pub remote_url: Seq<char>,
}

/// A capability that executes discrete operations against a checkout and its
/// backing object store. Pure I/O boundary: no business logic. Each
/// operation's contract says how it moves the model; any operation touching
/// the outside world may also fail, and a failed operation leaves the model
/// unchanged.
pub trait GitClient: Sized {
    /// The implementation's own well-formedness invariant.
    spec fn wf(&self) -> bool;

    /// The backend state this value stands for.
    spec fn model(&self) -> GitModel;

    /// The checked-out branch; absent in a detached-head state. Never fails.
    /// A returned branch exists.
    fn get_current_branch(&self) -> (r: Option<String>)
        requires
            self.wf(),
        ensures
            r is Some <==> self.model().current is Some,
            r matches Some(b) ==> self.model().current == Some(b@) && self.model(
            ).branches.dom().contains(b@),
    ;

    /// The staged and unstaged modified files.
    fn get_working_area(&self) -> (r: Result<WorkingArea, GiError>)
        requires
            self.wf(),
        ensures
            r matches Ok(w) ==> w.staged_files.deep_view() == self.model().staged
                && w.unstaged_files.deep_view() == self.model().unstaged,
            r matches Err(e) ==> e == GiError::BackendFailure,
    ;

    /// Stages every modified file.
    fn add_all(&mut self) -> (r: Result<(), GiError>)
        requires
            old(self).wf(),
        ensures
            final(self).wf(),
            r is Ok ==> final(self).model() == (GitModel {
                staged: old(self).model().staged + old(self).model().unstaged,
                unstaged: Seq::empty(),
                ..old(self).model()
            }),
            r is Err ==> final(self).model() == old(self).model(),
            r matches Err(e) ==> e == GiError::BackendFailure,
    ;

    /// Attempts to create a branch under exactly this name, at the current
    /// head. A taken name always fails (the collision the retry is for);
    /// other backend reasons may fail a free name too, so success on a free
    /// name is not promised. The caller retries under another name.
    fn try_create_branch(&mut self, branch: &str) -> (r: Result<(), GiError>)
        requires
            old(self).wf(),
        ensures
            final(self).wf(),
            old(self).model().branches.dom().contains(branch@) ==> r is Err,
            r is Ok ==> !old(self).model().branches.dom().contains(branch@) && final(self).model().branches == old(self).model().branches.insert(
                branch@,
                final(self).model().branches[branch@],
            ) && final(self).model() == (GitModel {
                branches: final(self).model().branches,
                ..old(self).model()
            }),
            r is Err ==> final(self).model() == old(self).model(),
            r matches Err(e) ==> e == GiError::BackendFailure,
    ;

    /// Checks out an existing branch. The head moves to that branch's tip,
    /// so the head commit's title and body are not preserved.
    fn checkout(&mut self, branch: &str) -> (r: Result<(), GiError>)
        requires
            old(self).wf(),
        ensures
            final(self).wf(),
            r is Ok ==> old(self).model().branches.dom().contains(branch@) && final(self).model() == (GitModel {
                current: Some(branch@),
                head_title: final(self).model().head_title,
                head_body: final(self).model().head_body,
                ..old(self).model()
            }),
            r is Err ==> final(self).model() == old(self).model(),
            r matches Err(e) ==> e == GiError::CheckoutFailed,
    ;

    /// Deletes a branch other than the checked-out one. References and
    /// objects are untouched: lineage survives its branch.
    fn delete_branch(&mut self, branch: &str) -> (r: Result<(), GiError>)
        requires
            old(self).wf(),
        ensures
            final(self).wf(),
            r is Ok ==> old(self).model().branches.dom().contains(branch@) && old(self).model().current != Some(branch@) && final(self).model() == (GitModel {
                branches: old(self).model().branches.remove(branch@),
                ..old(self).model()
            }),
            r is Err ==> final(self).model() == old(self).model(),
            r matches Err(e) ==> e == GiError::DeleteFailed,
    ;

    /// Runs the operator-driven commit step on the checked-out branch. On
    /// success the staged changes become a new head commit: the current
    /// branch's tip moves, the staged set empties, and the head title and
    /// body are whatever the operator wrote. An abort changes nothing.
    fn interactive_commit(&mut self) -> (r: Result<CommitStatus, GiError>)
        requires
            old(self).wf(),
            old(self).model().current is Some,
        ensures
            final(self).wf(),
            r matches Ok(CommitStatus::Success) ==> final(self).model().branches == old(self).model().branches.insert(
                old(self).model().current->0,
                final(self).model().branches[old(self).model().current->0],
            ) && final(self).model() == (GitModel {
                branches: final(self).model().branches,
                staged: Seq::empty(),
                head_title: final(self).model().head_title,
                head_body: final(self).model().head_body,
                ..old(self).model()
            }),
            r matches Ok(CommitStatus::Aborted) ==> final(self).model() == old(self).model(),
            r is Err ==> final(self).model() == old(self).model(),
            r matches Err(e) ==> e == GiError::BackendFailure,
    ;

    /// The head commit's title, trimmed.
    fn get_current_commit_title(&self) -> (r: Result<String, GiError>)
        requires
            self.wf(),
        ensures
            r matches Ok(t) ==> t@ == self.model().head_title,
            r matches Err(e) ==> e == GiError::BackendFailure,
    ;

    /// The head commit's body with sign-off trailer lines removed and
    /// surrounding whitespace trimmed.
    fn get_current_commit_body(&self) -> (r: Result<String, GiError>)
        requires
            self.wf(),
        ensures
            r matches Ok(b) ==> b@ == filtered_body(self.model().head_body),
            r matches Err(e) ==> e == GiError::BackendFailure,
    ;

    /// The revision at the tip of an existing branch.
    fn get_branch_revision(&self, branch: &str) -> (r: Result<String, GiError>)
        requires
            self.wf(),
        ensures
            self.model().branches.dom().contains(branch@) ==> (r matches Ok(rv) && rv@
                == self.model().branches[branch@]),
            !self.model().branches.dom().contains(branch@) ==> r is Err,
            r matches Err(e) ==> e == GiError::BackendFailure,
    ;

    /// Writes content into the object store and returns its id. The store is
    /// content-addressed and append-only: an id already present holds this
    /// very content.
    fn create_blob(&mut self, content: &str) -> (r: Result<String, GiError>)
        requires
            old(self).wf(),
        ensures
            final(self).wf(),
            r matches Ok(oid) ==> (old(self).model().objects.dom().contains(oid@) ==> old(self).model().objects[oid@] == content@) && final(self).model() == (GitModel {
                objects: old(self).model().objects.insert(oid@, content@),
                ..old(self).model()
            }),
            r is Err ==> final(self).model() == old(self).model(),
            r matches Err(e) ==> e == GiError::BackendFailure,
    ;

    /// The content of an object in the store; fails exactly when the id is
    /// unknown.
    fn read_object(&self, oid: &str) -> (r: Result<String, GiError>)
        requires
            self.wf(),
        ensures
            self.model().objects.dom().contains(oid@) ==> (r matches Ok(c) && c@ == self.model(
            ).objects[oid@]),
            !self.model().objects.dom().contains(oid@) ==> r is Err,
            r matches Err(e) ==> e == GiError::BackendFailure,
    ;

    /// Makes the named reference point at the given object id.
    fn update_ref(&mut self, refname: &str, oid: &str) -> (r: Result<(), GiError>)
        requires
            old(self).wf(),
        ensures
            final(self).wf(),
            r is Ok ==> final(self).model() == (GitModel {
                refs: old(self).model().refs.insert(refname@, oid@),
                ..old(self).model()
            }),
            r is Err ==> final(self).model() == old(self).model(),
            r matches Err(e) ==> e == GiError::RefUpdateFailed,
    ;

    /// The object id the named reference points at; absence is not an error.
    /// Never fails.
    fn read_ref(&self, refname: &str) -> (r: Option<String>)
        requires
            self.wf(),
        ensures
            r is Some <==> self.model().refs.dom().contains(refname@),
            r matches Some(oid) ==> self.model().refs[refname@] == oid@,
    ;

    /// Pushes a branch to the remote.
    fn push_branch(&mut self, branch: &String) -> (r: Result<(), GiError>)
        requires
            old(self).wf(),
        ensures
            final(self).wf(),
            r is Ok ==> final(self).model() == (GitModel {
                pushed: old(self).model().pushed.push(branch@),
                ..old(self).model()
            }),
            r is Err ==> final(self).model() == old(self).model(),
            r matches Err(e) ==> e == GiError::PushFailed,
    ;

    /// The raw remote URL text for the configured origin.
    fn get_remote_url(&self) -> (r: Result<String, GiError>)
        requires
            self.wf(),
        ensures
            r matches Ok(u) ==> u@ == self.model().remote_url,
            r matches Err(e) ==> e == GiError::BackendFailure,
    ;

    /// The root directory of the repository, if inside one. Only the
    /// unverified surroundings read it, so nothing is claimed of it.
    fn get_repository_root(&self) -> (r: Option<String>)
        requires
            self.wf(),
    ;
}

/// How many names the bounded collision retry may try, the base name
/// included. A tunable constant.
pub const BRANCH_CREATE_ATTEMPTS: usize = 16;

/// The decimal digit character for `d`.
pub open spec fn digit_char(d: int) -> char {
    if d == 0 {
        '0'
    } else if d == 1 {
        '1'
    } else if d == 2 {
        '2'
    } else if d == 3 {
        '3'
    } else if d == 4 {
        '4'
    } else if d == 5 {
        '5'
    } else if d == 6 {
        '6'
    } else if d == 7 {
        '7'
    } else if d == 8 {
        '8'
    } else {
        '9'
    }
}

/// The decimal digits of an attempt counter below 16.
pub open spec fn suffix_digits(a: int) -> Seq<char> {
    if a < 10 {
        seq![digit_char(a)]
    } else {
        seq!['1', digit_char(a - 10)]
    }
}

/// The name tried on the given attempt: the base name first, then the base
/// name with the attempt counter appended.
pub open spec fn candidate_name(base: Seq<char>, attempt: int) -> Seq<char> {
    if attempt == 0 {
        base
    } else {
        base + suffix_digits(attempt)
    }
}

/// The decimal digit character for `d`.
fn digit(d: usize) -> (c: char)
    requires
        d < 10,
    ensures
        c == digit_char(d as int),
{
    if d == 0 {
        '0'
    } else if d == 1 {
        '1'
    } else if d == 2 {
        '2'
    } else if d == 3 {
        '3'
    } else if d == 4 {
        '4'
    } else if d == 5 {
        '5'
    } else if d == 6 {
        '6'
    } else if d == 7 {
        '7'
    } else if d == 8 {
        '8'
    } else {
        '9'
    }
}

/// The branch name tried on the given attempt.
fn candidate_branch_name(base: &str, attempt: usize) -> (r: String)
    requires
        attempt < BRANCH_CREATE_ATTEMPTS,
    ensures
        r@ == candidate_name(base@, attempt as int),
{
    let mut s = String::from_str(base);
    if attempt == 0 {
        s
    } else if attempt < 10 {
        push_char(&mut s, digit(attempt));
        proof {
            assert(s@ =~= candidate_name(base@, attempt as int));
        }
        s
    } else {
        push_char(&mut s, '1');
        push_char(&mut s, digit(attempt - 10));
        proof {
            assert(s@ =~= candidate_name(base@, attempt as int));
        }
        s
    }
}

/// Creates a branch under the given name, or, on collision, under the name
/// with an attempt counter appended: `name`, `name1`, `name2`, and so on.
/// After `BRANCH_CREATE_ATTEMPTS` colliding attempts it gives up with
/// `BranchNameExhausted` instead of retrying without bound.
///
/// The contract pins the candidate sequence and that a taken name is never
/// returned; it does not pin *which* free candidate is returned, because
/// the backend may reject a free name too (`try_create_branch` promises
/// failure on collision, and nothing on a free name). Against a backend
/// that fails exactly on collision, the run returns the first free
/// candidate.
pub fn create_branch<C: GitClient>(client: &mut C, branch: &str) -> (r: Result<String, GiError>)
    requires
        old(client).wf(),
    ensures
        final(client).wf(),
        r matches Ok(name) ==> !old(client).model().branches.dom().contains(name@) && final(client).model().branches == old(client).model().branches.insert(
            name@,
            final(client).model().branches[name@],
        ) && final(client).model() == (GitModel {
            branches: final(client).model().branches,
            ..old(client).model()
        }) && (exists|a: int|
            0 <= a < BRANCH_CREATE_ATTEMPTS && name@ == candidate_name(branch@, a)),
        r matches Err(e) ==> e == GiError::BranchNameExhausted && final(client).model() == old(client).model(),
{
    let mut attempt: usize = 0;
    while attempt < BRANCH_CREATE_ATTEMPTS
        invariant
            attempt <= BRANCH_CREATE_ATTEMPTS,
            client.wf(),
            client.model() == old(client).model(),
        decreases BRANCH_CREATE_ATTEMPTS - attempt,
    {
        let name = candidate_branch_name(branch, attempt);
        match client.try_create_branch(name.as_str()) {
            Ok(()) => {
                return Ok(name);
            },
            Err(_) => {},
        }
        attempt = attempt + 1;
    }
    Err(GiError::BranchNameExhausted)
}

} // verus!
