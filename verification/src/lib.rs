//! Stacked-branch workflow library.
//!
//! Layers "stacked branch" semantics over a version-control repository and a
//! code-hosting provider: it isolates a working-area change onto a branch
//! named after its commit, records which branch it was stacked from directly
//! in the object store, and prepares pull requests against a configured trunk.

pub mod args;
pub mod commitmsg;
pub mod errors;
pub mod fake;
pub mod git_client;
pub mod metadata;
pub mod naming;
pub mod prompt;
pub mod provider;
pub mod settings;
pub mod text;
pub mod workflow;
