//! The adapter that runs a command as a process of its own, with its
//! output kept in files. Starting the process is left to whoever
//! implements the task execution port on top of it.

use crate::domain::models::{texts, Command};
use crate::errors::TaskExecutionError;
use crate::ports::filesystem_port::FileSystemPort;
use vstd::prelude::*;

verus! {

/// What a list of strings reads as when it is written out for debugging,
/// as the `Debug` of `Vec<String>` renders it.
pub uninterp spec fn debug_text(strings: Seq<Seq<char>>) -> Seq<char>;

/// Writes `strings` out for debugging with the `Debug` of `Vec<String>`:
/// in square brackets, with commas between them, each in double quotes
/// and with what could not be read in it escaped. What comes out depends
/// on the texts of the strings alone; nothing else is claimed of it.
#[verifier::external_body]
fn debug_of(strings: &Vec<String>) -> (text: String)
    ensures
        text@ == debug_text(texts(strings@)),
{
    format!("{:?}", strings)
}

/// The error for the command `command` whose output file could not be
/// created.
pub fn stdout_failure(command: &Command) -> (error: TaskExecutionError)
    ensures
        error matches TaskExecutionError::Execute(detail) && detail@
            == "Failed to create stdout file for command: "@ + command.program@,
{
    TaskExecutionError::Execute(
        String::from_str("Failed to create stdout file for command: ").concat(
            command.program.as_str(),
        ),
    )
}

/// The error for the command `command` whose error file could not be
/// created.
pub fn stderr_failure(command: &Command) -> (error: TaskExecutionError)
    ensures
        error matches TaskExecutionError::Execute(detail) && detail@
            == "Failed to create stderr file for command: "@ + command.program@,
{
    TaskExecutionError::Execute(
        String::from_str("Failed to create stderr file for command: ").concat(
            command.program.as_str(),
        ),
    )
}

/// The error for the command `command` that could not be run: it names
/// the program and shows the arguments as a list written out for
/// debugging.
pub fn execution_failure(command: &Command) -> (error: TaskExecutionError)
    ensures
        error matches TaskExecutionError::Execute(detail) && detail@
            == "Failed to execute command: "@ + command.program@ + " "@ + debug_text(
            command@.args,
        ),
{
    TaskExecutionError::Execute(
        String::from_str("Failed to execute command: ").concat(command.program.as_str()).concat(
            " ",
        ).concat(debug_of(&command.args).as_str()),
    )
}

/// Runs commands with the help of the file system `F`.
pub struct TaskExecutionAdapter<F: FileSystemPort> {
    file_system: F,
}

impl<F: FileSystemPort> TaskExecutionAdapter<F> {
    /// An adapter that keeps its files through `file_system`.
    pub fn new(file_system: F) -> (adapter: Self)
        ensures
            adapter.file_system() == file_system,
    {
        Self { file_system }
    }

    /// The file system the adapter was made with, as a value.
    pub closed spec fn file_system(&self) -> F {
        self.file_system
    }

    /// The file system the adapter was made with.
    pub fn file_system_port(&self) -> (port: &F)
        ensures
            *port == self.file_system(),
    {
        &self.file_system
    }
}

} // verus!
