//! The error taxonomy of the library.
//!
//! Every fallible operation of the library reports one of these variants.
//! Operator-chosen aborts are not errors: the workflows report them as
//! distinct success outcomes instead.

use vstd::prelude::*;

verus! {

/// Everything that can go wrong while running a workflow.
#[derive(Clone, Copy, Debug, PartialEq, Eq, Structural)]
pub enum GiError {
    /// The required external backend binary is missing.
    EnvironmentError,
    /// The working directory is not inside a repository.
    NotARepository,
    /// No branch is checked out (detached head).
    NoCurrentBranch,
    /// The working area holds neither staged nor unstaged changes.
    NoChanges,
    /// The backend failed to report the working-area status.
    BackendFailure,
    /// The backend refused to switch branches.
    CheckoutFailed,
    /// The backend refused to delete a branch.
    DeleteFailed,
    /// The backend refused to push a branch.
    PushFailed,
    /// The backend refused to update a reference.
    RefUpdateFailed,
    /// Bounded branch-name collision retry gave up.
    BranchNameExhausted,
    /// The remote URL matches neither accepted shape.
    UnrecognizedRemoteUrl,
    /// The remote host maps to no known provider.
    UnsupportedProvider,
    /// A lineage reference points at malformed content.
    CorruptMetadata,
    /// The stored credential could not be read or written securely.
    CredentialError,
    /// The hosting provider rejected the pull-request call.
    ForgeRequestFailed,
}

impl GiError {
    /// A human-readable description of the error.
    pub fn message(&self) -> String {
        match self {
            GiError::EnvironmentError => String::from_str("Git is not installed"),
            GiError::NotARepository => String::from_str("You are not inside a git repository."),
            GiError::NoCurrentBranch => String::from_str(
                "Can't find a current branch to work from.",
            ),
            GiError::NoChanges => String::from_str(
                "Can't create a new stacked commit without changes in the working area.",
            ),
            GiError::BackendFailure => String::from_str("Failed to get working area status"),
            GiError::CheckoutFailed => String::from_str("Failed to checkout branch"),
            GiError::DeleteFailed => String::from_str("Failed to delete branch"),
            GiError::PushFailed => String::from_str("Failed to push branch"),
            GiError::RefUpdateFailed => String::from_str("Failed to update reference"),
            GiError::BranchNameExhausted => String::from_str(
                "Gave up creating a branch: every candidate name collided",
            ),
            GiError::UnrecognizedRemoteUrl => String::from_str(
                "Unrecognised git repository URL format",
            ),
            GiError::UnsupportedProvider => String::from_str("Unsupported provider"),
            GiError::CorruptMetadata => String::from_str(
                "The recorded branch lineage is malformed",
            ),
            GiError::CredentialError => String::from_str(
                "Failed to read or store the access token securely",
            ),
            GiError::ForgeRequestFailed => String::from_str("Failed to create pull request"),
        }
    }

    /// An actionable suggestion to print next to the message.
    pub fn suggestion(&self) -> String {
        match self {
            GiError::EnvironmentError => String::from_str("Install git and try again."),
            GiError::NotARepository => String::from_str(
                "Run this inside a git repository, or run `git init` to create one.",
            ),
            GiError::NoCurrentBranch => String::from_str("Checkout onto a branch and try again."),
            GiError::NoChanges => String::from_str(
                "Make some changes to your files and try again.",
            ),
            GiError::BackendFailure => String::from_str(
                "Make sure you are inside a git repository.",
            ),
            GiError::CheckoutFailed => String::from_str(
                "Check that the branch exists and the working area allows switching.",
            ),
            GiError::DeleteFailed => String::from_str("Check that the branch exists."),
            GiError::PushFailed => String::from_str(
                "Check your network connection and push permissions.",
            ),
            GiError::RefUpdateFailed => String::from_str(
                "Check that you have write permissions to the repository.",
            ),
            GiError::BranchNameExhausted => String::from_str(
                "Delete some of the colliding branches and try again.",
            ),
            GiError::UnrecognizedRemoteUrl => String::from_str(
                "Use a HTTPS or SSH git repository URL.",
            ),
            GiError::UnsupportedProvider => {
                let mut s = String::from_str("Supported providers: ");
                s.append(crate::provider::SupportedProviders::get_providers().as_str());
                s.append(". Add a remote that uses one of the currently supported providers.");
                s
            },
            GiError::CorruptMetadata => String::from_str(
                "Remove the branch-metadata reference for this branch and recreate it.",
            ),
            GiError::CredentialError => String::from_str(
                "Check the permissions of your configuration directory.",
            ),
            GiError::ForgeRequestFailed => String::from_str(
                "Please check your personal access token.",
            ),
        }
    }
}

} // verus!
