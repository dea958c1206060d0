//! The command-line surface: which command an invocation runs.
//!
//! The argument parser itself lives outside the verified library; it hands
//! over one of these values.

use vstd::prelude::*;

verus! {

/// The two commands.
#[derive(Clone, Copy, Debug, PartialEq, Eq, Structural)]
pub enum Commands {
    /// Turn the working-area change into a new stacked branch.
    Create,
    /// Push the current branch and open a pull request against the trunk.
    Submit,
}

/// A parsed command line.
#[derive(Clone, Copy, Debug, PartialEq, Eq, Structural)]
pub struct Args {
    pub command: Commands,
}

} // verus!
