//! The two workflows: stacking a change onto a new branch, and submitting a
//! branch as a pull request.
//!
//! Both are written against the capability interfaces — the backend, the
//! prompter, the settings store, the provider — so their logic is
//! deterministic in what those collaborators answered, and their contracts
//! say exactly how the backend model moves on every outcome.

use vstd::prelude::*;

use crate::errors::GiError;
use crate::git_client::{
    create_branch, candidate_name, CommitStatus, GitClient, GitModel, BRANCH_CREATE_ATTEMPTS,
};
use crate::metadata::{
    create_branch_metadata, lineage_lookup_spec, lineage_ref_name, objects_grown, BranchMetadata,
    LineageLookup, LineageView,
};
use crate::naming::{derived_branch_name, format_commit_title};
use crate::prompt::{Prompter, StageChoice};
use crate::provider::{get_repository_info, host_is_github, resolved_identity, GitProvider};
use crate::settings::{ProjectSettings, SettingsStore};

verus! {

/// How a run of the stacking workflow ended. The two aborts are
/// operator-chosen no-ops, not errors.
#[derive(Clone, Debug, PartialEq, Eq)]
pub enum CreateOutcome {
    /// The change now sits on this newly created, metadata-tagged branch.
    Completed(String),
    /// The operator aborted at the staging prompt; nothing was touched.
    AbortedAtStaging,
    /// The operator aborted the commit step; the base branch is checked out
    /// again and nothing was recorded. Removing the scratch branch is
    /// best-effort: if that delete fails, the scratch branch survives.
    AbortedAtCommit,
}

/// The fixed name the scratch branch is created under (a counter is
/// appended on collision).
pub open spec fn scratch_branch_name() -> Seq<char> {
    "gi_temp_branch"@
}

/// After best-effort cleanup: the branch map is `expected`, except that one
/// scratch-named branch — fresh before the workflow ran — may survive a
/// failed delete.
pub open spec fn branches_after_cleanup(
    before: Map<Seq<char>, Seq<char>>,
    expected: Map<Seq<char>, Seq<char>>,
    got: Map<Seq<char>, Seq<char>>,
) -> bool {
    got == expected || (exists|a: int, rv: Seq<char>|
        0 <= a < BRANCH_CREATE_ATTEMPTS && !before.dom().contains(
            candidate_name(scratch_branch_name(), a),
        ) && got == expected.insert(candidate_name(scratch_branch_name(), a), rv))
}

/// Turns the current working-area change into a new, named, metadata-tagged
/// branch.
///
/// The steps: require a current branch and a non-empty working area; if
/// nothing is staged, let the operator stage everything or abort; create and
/// check out a scratch branch; run the interactive commit, rolling the
/// scratch branch back on abort; derive the final name from the commit title
/// and the date; move onto the final branch, drop the scratch branch, and
/// record the lineage (base branch and its pre-workflow revision) for the
/// new branch.
///
/// The contract: the base branch is never touched; an abort at the staging
/// prompt changes nothing at all; an aborted commit leaves the operator back
/// on the base branch with no lineage recorded; and a completed run leaves a
/// new branch, checked out, whose recorded lineage is the base branch at its
/// old revision. Deleting the scratch branch is best-effort cleanup: its
/// failure never masks the outcome, so in either of those two endings at
/// most one scratch-named branch may survive.
#[verifier::rlimit(100)]
pub fn create<C: GitClient, P: Prompter>(client: &mut C, prompter: &mut P) -> (r: Result<
    CreateOutcome,
    GiError,
>)
    requires
        old(client).wf(),
    ensures
        final(client).wf(),
        // nothing here pushes or re-points the remote
        final(client).model().pushed == old(client).model().pushed,
        final(client).model().remote_url == old(client).model().remote_url,
        // the base branch is untouched, whatever happens
        ({
            let m0 = old(client).model();
            let m1 = final(client).model();
            let base = m0.current->0;
            m0.current is Some && m0.branches.dom().contains(base)
                ==> m1.branches.dom().contains(base) && m1.branches[base] == m0.branches[base]
        }),
        // preconditions: the two terminal failures leave everything unchanged
        old(client).model().current is None ==> r == Err::<CreateOutcome, GiError>(
            GiError::NoCurrentBranch,
        ),
        ({
            let m0 = old(client).model();
            let m1 = final(client).model();
            &&& (r matches Err(e) && e == GiError::NoCurrentBranch ==> m1 == m0
                && m0.current is None)
            &&& (r matches Err(e) && e == GiError::NoChanges ==> m1 == m0 && m0.current is Some
                && m0.staged.len() == 0 && m0.unstaged.len() == 0)
            &&& (m0.current is Some && m0.staged.len() == 0 && m0.unstaged.len() == 0 ==> r
                == Err::<CreateOutcome, GiError>(GiError::NoChanges) || r == Err::<
                CreateOutcome,
                GiError,
            >(GiError::BackendFailure))
        }),
        // the errors this workflow can surface: its own two precondition
        // checks, and the backend's, each under its taxonomy variant
        ({
            r matches Err(e) ==> e == GiError::NoCurrentBranch || e == GiError::NoChanges || e
                == GiError::BackendFailure || e == GiError::CheckoutFailed || e
                == GiError::BranchNameExhausted || e == GiError::RefUpdateFailed
        }),
        // abort at the staging prompt: a complete no-op
        ({
            let m0 = old(client).model();
            let m1 = final(client).model();
            r matches Ok(o) && o == CreateOutcome::AbortedAtStaging ==> m1 == m0
        }),
        // abort during commit: rolled back to the base branch, the scratch
        // branch gone, no lineage recorded; only the working area may have
        // been staged
        ({
            let m0 = old(client).model();
            let m1 = final(client).model();
            r matches Ok(o) && o == CreateOutcome::AbortedAtCommit ==> {
                &&& m1.current == m0.current
                &&& branches_after_cleanup(m0.branches, m0.branches, m1.branches)
                &&& m1.refs == m0.refs
                &&& m1.objects == m0.objects
                &&& m0.staged.len() > 0 ==> m1.staged == m0.staged && m1.unstaged == m0.unstaged
                &&& m0.staged.len() == 0 ==> m1.staged == m0.staged + m0.unstaged && m1.unstaged
                    == Seq::<Seq<char>>::empty()
            }
        }),
        // completion: exactly one new branch, checked out, lineage recorded
        ({
            let m0 = old(client).model();
            let m1 = final(client).model();
            let base = m0.current->0;
            r matches Ok(CreateOutcome::Completed(nb)) ==> {
                &&& m0.current is Some
                &&& !m0.branches.dom().contains(nb@)
                &&& m1.current == Some(nb@)
                &&& m1.branches.dom().contains(nb@)
                &&& branches_after_cleanup(
                    m0.branches,
                    m0.branches.insert(nb@, m1.branches[nb@]),
                    m1.branches,
                )
                &&& lineage_lookup_spec(m1, nb@) == LineageLookup::Present(
                    (LineageView {
                        parent_branch_name: base,
                        parent_branch_revision: m0.branches[base],
                    }),
                )
                &&& m1.refs == m0.refs.insert(lineage_ref_name(nb@), m1.refs[lineage_ref_name(nb@)])
                &&& objects_grown(m0.objects, m1.objects)
                &&& exists|d: Seq<char>, t: Seq<char>, a: int|
                    0 <= a < BRANCH_CREATE_ATTEMPTS && d.len() == 5 && nb@ == candidate_name(
                        derived_branch_name(d, t),
                        a,
                    )
            }
        }),
{
    let base_branch = match client.get_current_branch() {
        Some(b) => b,
        None => {
            return Err(GiError::NoCurrentBranch);
        },
    };
    let working_area = match client.get_working_area() {
        Ok(w) => w,
        Err(e) => {
            return Err(e);
        },
    };
    if working_area.is_empty() {
        return Err(GiError::NoChanges);
    }
    // captured before any mutation; the steps below do not move the base branch
    let base_revision = match client.get_branch_revision(base_branch.as_str()) {
        Ok(rv) => rv,
        Err(e) => {
            return Err(e);
        },
    };
    if !working_area.has_staged_changes() {
        match prompter.choose_stage_action() {
            Ok(StageChoice::StageAll) => {
                match client.add_all() {
                    Ok(()) => {},
                    Err(e) => {
                        return Err(e);
                    },
                }
            },
            Ok(StageChoice::Abort) => {
                return Ok(CreateOutcome::AbortedAtStaging);
            },
            Err(e) => {
                return Err(e);
            },
        }
    }
    let temp_branch = match create_branch(client, "gi_temp_branch") {
        Ok(b) => b,
        Err(e) => {
            return Err(e);
        },
    };
    match client.checkout(temp_branch.as_str()) {
        Ok(()) => {},
        Err(e) => {
            return Err(e);
        },
    }
    let commit_status = match client.interactive_commit() {
        Ok(s) => s,
        Err(e) => {
            return Err(e);
        },
    };
    match commit_status {
        CommitStatus::Aborted => {
            match client.checkout(base_branch.as_str()) {
                Ok(()) => {},
                Err(e) => {
                    return Err(e);
                },
            }
            match client.delete_branch(temp_branch.as_str()) {
                Ok(()) => {
                    proof {
                        assert(client.model().branches =~= old(client).model().branches);
                    }
                },
                Err(_) => {
                    // best-effort cleanup: a failed scratch delete must not
                    // mask the no-op outcome
                    proof {
                        let a = choose|a: int|
                            0 <= a < BRANCH_CREATE_ATTEMPTS && temp_branch@ == candidate_name(
                                "gi_temp_branch"@,
                                a,
                            );
                        assert(client.model().branches == old(client).model().branches.insert(
                            candidate_name(scratch_branch_name(), a),
                            client.model().branches[candidate_name(scratch_branch_name(), a)],
                        ));
                    }
                },
            }
            return Ok(CreateOutcome::AbortedAtCommit);
        },
        CommitStatus::Success => {},
    }
    let commit_title = match client.get_current_commit_title() {
        Ok(t) => t,
        Err(e) => {
            return Err(e);
        },
    };
    let target_name = format_commit_title(commit_title.as_str());
    let new_branch = match create_branch(client, target_name.as_str()) {
        Ok(b) => b,
        Err(e) => {
            return Err(e);
        },
    };
    match client.checkout(new_branch.as_str()) {
        Ok(()) => {},
        Err(e) => {
            return Err(e);
        },
    }
    match client.delete_branch(temp_branch.as_str()) {
        Ok(()) => {
            proof {
                assert(client.model().branches =~= old(client).model().branches.insert(
                    new_branch@,
                    client.model().branches[new_branch@],
                ));
            }
        },
        Err(_) => {
            // best-effort cleanup: a failed scratch delete must not stop the
            // lineage from being recorded or mask the completed outcome
            proof {
                let a = choose|a: int|
                    0 <= a < BRANCH_CREATE_ATTEMPTS && temp_branch@ == candidate_name(
                        "gi_temp_branch"@,
                        a,
                    );
                assert(client.model().branches =~= old(client).model().branches.insert(
                    new_branch@,
                    client.model().branches[new_branch@],
                ).insert(
                    candidate_name(scratch_branch_name(), a),
                    client.model().branches[candidate_name(scratch_branch_name(), a)],
                ));
            }
        },
    }
    let metadata = BranchMetadata::new(base_branch, base_revision);
    match create_branch_metadata(client, new_branch.as_str(), &metadata) {
        Ok(()) => {},
        Err(e) => {
            return Err(e);
        },
    }
    Ok(CreateOutcome::Completed(new_branch))
}

/// Pushes the current branch and opens a pull request of it against the
/// configured trunk, returning the pull request's URL.
///
/// The steps: require a current branch; resolve the trunk from the settings
/// (asking the operator on first use); resolve the repository identity from
/// the remote URL; push the branch; let the operator settle title and body,
/// with the commit's own as defaults; and hand the request to the provider.
/// Failure at any step is terminal: nothing is retried, and a provider
/// failure after a successful push leaves the pushed branch in place.
pub fn submit<C: GitClient, F: GitProvider, P: Prompter, S: SettingsStore>(
    client: &mut C,
    provider: &mut F,
    prompter: &mut P,
    store: &mut S,
    settings: &mut ProjectSettings,
) -> (r: Result<String, GiError>)
    requires
        old(client).wf(),
    ensures
        final(client).wf(),
        old(client).model().current is None ==> r == Err::<String, GiError>(
            GiError::NoCurrentBranch,
        ),
        // on success the current branch was pushed; nothing else moved
        ({
            let m0 = old(client).model();
            let m1 = final(client).model();
            let b = m0.current->0;
            r is Ok ==> m0.current is Some && m1 == (GitModel {
                pushed: m0.pushed.push(b),
                ..m0
            }) && final(settings)@ is Some
        }),
        // on failure the backend is unchanged, except that the branch may
        // already have been pushed (re-running simply re-pushes)
        ({
            let m0 = old(client).model();
            let m1 = final(client).model();
            let b = m0.current->0;
            r is Err ==> m1 == m0 || (m0.current is Some && m1 == (GitModel {
                pushed: m0.pushed.push(b),
                ..m0
            }))
        }),
        // the errors this workflow can surface, and on which side of the
        // push each of them comes: every failure before the push leaves
        // nothing pushed, and only a provider-side failure follows it
        ({
            let m0 = old(client).model();
            let m1 = final(client).model();
            let b = m0.current->0;
            &&& (r matches Err(e) ==> e == GiError::NoCurrentBranch || e
                == GiError::BackendFailure || e == GiError::UnrecognizedRemoteUrl || e
                == GiError::UnsupportedProvider || e == GiError::PushFailed || e
                == GiError::CredentialError || e == GiError::ForgeRequestFailed)
            &&& (r matches Err(e) && (e == GiError::NoCurrentBranch || e
                == GiError::UnrecognizedRemoteUrl || e == GiError::UnsupportedProvider || e
                == GiError::PushFailed) ==> m1 == m0)
            &&& (r matches Err(e) && e == GiError::NoCurrentBranch ==> m0.current is None)
            &&& (r matches Err(e) && (e == GiError::CredentialError || e
                == GiError::ForgeRequestFailed) ==> m0.current is Some && m1 == (GitModel {
                pushed: m0.pushed.push(b),
                ..m0
            }))
        }),
        // with the trunk already configured, an unusable remote URL fails
        // the run before anything is pushed
        ({
            let m0 = old(client).model();
            let m1 = final(client).model();
            &&& (old(settings)@ is Some && m0.current is Some && resolved_identity(
                m0.remote_url,
            ) is None ==> (r == Err::<String, GiError>(GiError::UnrecognizedRemoteUrl) || r
                == Err::<String, GiError>(GiError::BackendFailure)) && m1 == m0)
            &&& (old(settings)@ is Some && m0.current is Some && (resolved_identity(
                m0.remote_url,
            ) matches Some((h, o, rp)) && !host_is_github(h)) ==> (r == Err::<String, GiError>(
                GiError::UnsupportedProvider,
            ) || r == Err::<String, GiError>(GiError::BackendFailure)) && m1 == m0)
        }),
{
    let branch = match client.get_current_branch() {
        Some(b) => b,
        None => {
            return Err(GiError::NoCurrentBranch);
        },
    };
    let trunk = match settings.get_trunk(prompter, store) {
        Ok(t) => t,
        Err(e) => {
            return Err(e);
        },
    };
    let info = match get_repository_info(client) {
        Ok(i) => i,
        Err(e) => {
            return Err(e);
        },
    };
    match client.push_branch(&branch) {
        Ok(()) => {},
        Err(e) => {
            return Err(e);
        },
    }
    let commit_title = match client.get_current_commit_title() {
        Ok(t) => t,
        Err(e) => {
            return Err(e);
        },
    };
    let title = match prompter.ask_for_pr_title(commit_title.as_str()) {
        Ok(t) => t,
        Err(e) => {
            return Err(e);
        },
    };
    let commit_body = match client.get_current_commit_body() {
        Ok(b) => b,
        Err(e) => {
            return Err(e);
        },
    };
    let body = match prompter.ask_for_pr_body(commit_body.as_str()) {
        Ok(b) => b,
        Err(e) => {
            return Err(e);
        },
    };
    provider.create_pull_request(
        info.1.as_str(),
        info.2.as_str(),
        branch.as_str(),
        trunk.as_str(),
        title.as_str(),
        body.as_str(),
    )
}

} // verus!
