//! The words spoken to the terminal multiplexer and what is read from its
//! answers. Running the multiplexer itself is left to whoever implements
//! the terminal port on top of this.

use crate::domain::models::{texts, Direction};
use crate::errors::TerminalError;
use crate::text::{decimal, decimal_of, join_path, joined_path, trim, trimmed};
use vstd::prelude::*;

verus! {

/// What the terminal adapter is set up with: where the logs of a task lie.
#[derive(Debug)]
pub struct TerminalAdapter {
    pub dot_dir: String,
    pub output_filename: String,
    pub error_filename: String,
}

/// The arguments that ask the multiplexer for a new pane in `direction`,
/// `size` percent of the current one. A pane to the right is a horizontal
/// split; the size is given in the same way for both directions.
pub open spec fn open_pane_arguments(direction: Direction, size: int) -> Seq<Seq<char>> {
    match direction {
        Direction::Right => seq![
            "cli"@,
            "split-pane"@,
            "--horizontal"@,
            "--percent"@,
            decimal(size),
        ],
        Direction::Down => seq!["cli"@, "split-pane"@, "--percent"@, decimal(size)],
    }
}

/// The arguments that ask the multiplexer to close the pane `pane_id`.
pub open spec fn close_pane_arguments(pane_id: Seq<char>) -> Seq<Seq<char>> {
    seq!["cli"@, "kill-pane"@, "--pane-id"@, pane_id]
}

/// The arguments that ask the multiplexer to type what it reads into the
/// pane `pane_id`, without bracketed paste.
pub open spec fn send_text_arguments(pane_id: Seq<char>) -> Seq<Seq<char>> {
    seq!["cli"@, "send-text"@, "--pane-id"@, pane_id, "--no-paste"@]
}

/// The shell command that follows the two log files `error_file` and
/// `output_file` and shows them as logs.
pub open spec fn display_logs_text(error_file: Seq<char>, output_file: Seq<char>) -> Seq<char> {
    "tail -f -n 20 "@ + error_file + " "@ + output_file + " | bat --paging=never -l log"@
}

impl TerminalAdapter {
    /// An adapter whose logs lie in the directory `dot_dir`, under the two
    /// file names given.
    pub fn new(dot_dir: String, output_filename: String, error_filename: String) -> (adapter: Self)
        ensures
            adapter.dot_dir == dot_dir,
            adapter.output_filename == output_filename,
            adapter.error_filename == error_filename,
    {
        Self { dot_dir, output_filename, error_filename }
    }

    /// The arguments that ask the multiplexer for a new pane.
    pub fn open_pane_args(direction: Direction, size: i32) -> (args: Vec<String>)
        ensures
            texts(args@) == open_pane_arguments(direction, size as int),
    {
        let mut args: Vec<String> = Vec::new();
        args.push(String::from_str("cli"));
        args.push(String::from_str("split-pane"));
        match direction {
            Direction::Right => {
                args.push(String::from_str("--horizontal"));
            },
            Direction::Down => {},
        }
        args.push(String::from_str("--percent"));
        args.push(decimal_of(size));
        assert(texts(args@) =~= open_pane_arguments(direction, size as int));
        args
    }

    /// Reads the identifier of the new pane from what the multiplexer
    /// printed when asked for a pane in `direction`: the output without
    /// the white space around it. Output that holds nothing else means
    /// that there is no pane.
    pub fn pane_id_from_output(stdout: &str, direction: Direction) -> (result: Result<
        String,
        TerminalError,
    >)
        ensures
            match result {
                Ok(pane_id) => pane_id@ == trimmed(stdout@) && pane_id@.len() > 0,
                Err(error) => {
                    &&& trimmed(stdout@).len() == 0
                    &&& error matches TerminalError::OpenPane(detail)
                    &&& detail@ == "There is no pane "@ + direction.spec_name()
                },
            },
    {
        let pane_id = trim(stdout);
        if pane_id.as_str().unicode_len() == 0 {
            Err(
                TerminalError::OpenPane(
                    String::from_str("There is no pane ").concat(direction.name().as_str()),
                ),
            )
        } else {
            Ok(pane_id)
        }
    }

    /// The error for a multiplexer that could not be run to open a pane.
    pub fn run_failure() -> (error: TerminalError)
        ensures
            error matches TerminalError::OpenPane(detail) && detail@
                == "Failed to run wezterm command"@,
    {
        TerminalError::OpenPane(String::from_str("Failed to run wezterm command"))
    }

    /// The error for a multiplexer whose answer to opening a pane is no
    /// text.
    pub fn output_failure() -> (error: TerminalError)
        ensures
            error matches TerminalError::OpenPane(detail) && detail@
                == "Failed to parse wezterm output"@,
    {
        TerminalError::OpenPane(String::from_str("Failed to parse wezterm output"))
    }

    /// The error for the pane `pane_id` that could not be closed.
    pub fn close_failure(pane_id: &str) -> (error: TerminalError)
        ensures
            error matches TerminalError::ClosePane(detail) && detail@ == "Failed to close pane "@
                + pane_id@,
    {
        TerminalError::ClosePane(String::from_str("Failed to close pane ").concat(pane_id))
    }

    /// The error for logs that could not be shown in the pane `pane_id`
    /// because the text to type could not be made ready.
    pub fn display_echo_failure(pane_id: &str) -> (error: TerminalError)
        ensures
            error matches TerminalError::DisplayLogs(detail) && detail@
                == "Failed to create echo command for pane "@ + pane_id@,
    {
        TerminalError::DisplayLogs(
            String::from_str("Failed to create echo command for pane ").concat(pane_id),
        )
    }

    /// The error for logs that could not be shown in the pane `pane_id`
    /// because the text could not be sent to it.
    pub fn display_send_failure(pane_id: &str) -> (error: TerminalError)
        ensures
            error matches TerminalError::DisplayLogs(detail) && detail@
                == "Failed to send text to pane "@ + pane_id@,
    {
        TerminalError::DisplayLogs(String::from_str("Failed to send text to pane ").concat(pane_id))
    }

    /// The error for a command that could not be delivered to the pane
    /// `pane_id` because the text to type could not be made ready.
    pub fn pipe_echo_failure(pane_id: &str) -> (error: TerminalError)
        ensures
            error matches TerminalError::PipeText(detail) && detail@
                == "Failed to create echo command for pane "@ + pane_id@,
    {
        TerminalError::PipeText(
            String::from_str("Failed to create echo command for pane ").concat(pane_id),
        )
    }

    /// The error for a command that could not be delivered to the pane
    /// `pane_id` because the text could not be sent to it.
    pub fn pipe_failure(pane_id: &str) -> (error: TerminalError)
        ensures
            error matches TerminalError::PipeText(detail) && detail@
                == "Failed to pipe text to pane "@ + pane_id@,
    {
        TerminalError::PipeText(String::from_str("Failed to pipe text to pane ").concat(pane_id))
    }

    /// The arguments that ask the multiplexer to close the pane `pane_id`.
    pub fn close_pane_args(pane_id: &str) -> (args: Vec<String>)
        ensures
            texts(args@) == close_pane_arguments(pane_id@),
    {
        let mut args: Vec<String> = Vec::new();
        args.push(String::from_str("cli"));
        args.push(String::from_str("kill-pane"));
        args.push(String::from_str("--pane-id"));
        args.push(String::from_str(pane_id));
        assert(texts(args@) =~= close_pane_arguments(pane_id@));
        args
    }

    /// The arguments that ask the multiplexer to type what it reads into
    /// the pane `pane_id`.
    pub fn send_text_args(pane_id: &str) -> (args: Vec<String>)
        ensures
            texts(args@) == send_text_arguments(pane_id@),
    {
        let mut args: Vec<String> = Vec::new();
        args.push(String::from_str("cli"));
        args.push(String::from_str("send-text"));
        args.push(String::from_str("--pane-id"));
        args.push(String::from_str(pane_id));
        args.push(String::from_str("--no-paste"));
        assert(texts(args@) =~= send_text_arguments(pane_id@));
        args
    }

    /// The path of the log that takes what a task prints as errors.
    pub fn error_log_path(&self) -> (path: String)
        ensures
            path@ == joined_path(self.dot_dir@, self.error_filename@),
    {
        join_path(self.dot_dir.as_str(), self.error_filename.as_str())
    }

    /// The path of the log that takes what a task prints as output.
    pub fn output_log_path(&self) -> (path: String)
        ensures
            path@ == joined_path(self.dot_dir@, self.output_filename@),
    {
        join_path(self.dot_dir.as_str(), self.output_filename.as_str())
    }

    /// The shell command that follows both logs of this adapter, the error
    /// log first.
    pub fn display_logs_command(&self) -> (command: String)
        ensures
            command@ == display_logs_text(
                joined_path(self.dot_dir@, self.error_filename@),
                joined_path(self.dot_dir@, self.output_filename@),
            ),
    {
        let error_file = self.error_log_path();
        let output_file = self.output_log_path();
        String::from_str("tail -f -n 20 ").concat(error_file.as_str()).concat(" ").concat(
            output_file.as_str(),
        ).concat(" | bat --paging=never -l log")
    }
}

} // verus!
