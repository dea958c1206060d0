//! The operator-prompt capability.
//!
//! Interactive terminal prompts are modeled as a synchronous capability
//! injected into the workflows, so the workflow logic is deterministic in
//! what the operator answered. Nothing is promised of the answers
//! themselves: they are the operator's.

use vstd::prelude::*;

use crate::errors::GiError;

verus! {

/// What the operator chose at the staging prompt: stage every change and
/// continue, or abort the whole operation.
#[derive(Clone, Copy, Debug, PartialEq, Eq, Structural)]
pub enum StageChoice {
    StageAll,
    Abort,
}

/// A synchronous operator-prompt capability. Each call blocks until the
/// operator answers; a failed prompt (no terminal, closed editor) is an
/// error the workflows propagate, reported as a backend failure so that the
/// workflow's own precondition errors stay unmistakable.
pub trait Prompter {
    /// The binary choice offered when nothing is staged: stage everything
    /// and continue, or abort.
    fn choose_stage_action(&mut self) -> (r: Result<StageChoice, GiError>)
        ensures
            r matches Err(e) ==> e == GiError::BackendFailure,
    ;

    /// The name of the trunk branch, asked on first use.
    fn ask_for_trunk(&mut self) -> (r: Result<String, GiError>)
        ensures
            r matches Err(e) ==> e == GiError::BackendFailure,
    ;

    /// The pull-request title, with the commit title offered as default.
    fn ask_for_pr_title(&mut self, commit_title: &str) -> (r: Result<String, GiError>)
        ensures
            r matches Err(e) ==> e == GiError::BackendFailure,
    ;

    /// The pull-request body, with the commit body offered as default.
    fn ask_for_pr_body(&mut self, commit_body: &str) -> (r: Result<String, GiError>)
        ensures
            r matches Err(e) ==> e == GiError::BackendFailure,
    ;
}

} // verus!
