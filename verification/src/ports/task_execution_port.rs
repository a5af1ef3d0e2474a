//! Running a command as a process of its own.

use crate::domain::models::{Command, ExitStatus};
use crate::errors::TaskExecutionError;
use vstd::prelude::*;

verus! {

/// Port for executing commands.
///
/// Nothing is promised of what an implementation answers.
pub trait TaskExecutionPort {
    /// Runs `command` to its end and answers with how it ended.
    fn execute_command(&self, command: Command) -> Result<ExitStatus, TaskExecutionError>;
}

} // verus!
