//! What every command of the tool has in common.

use vstd::prelude::*;

verus! {

/// How a command ended. A command that failed has reported why by itself.
pub type CommandResult = Result<(), ()>;

/// A command that can be run.
pub trait Executable {
    /// Runs the command.
    fn execute(&mut self) -> CommandResult;
}

} // verus!
