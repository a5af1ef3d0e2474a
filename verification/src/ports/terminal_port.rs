//! The terminal multiplexer, as the domain sees it.

use crate::domain::models::{Direction, ExitStatus};
use crate::errors::TerminalError;
use vstd::prelude::*;

verus! {

/// Port for terminal operations.
///
/// Nothing is promised of what an implementation answers: whoever calls
/// through the port has to cope with every answer.
pub trait TerminalPort {
    /// Opens a new pane in `direction`, `size` percent of the current one,
    /// and answers with the identifier of the new pane.
    fn open_pane(&self, direction: Direction, size: i32) -> Result<String, TerminalError>;

    /// Closes the pane `pane_id`.
    fn close_pane(&self, pane_id: &str) -> Result<(), TerminalError>;

    /// Submits `args` as a command line to the pane `pane_id`, waits for
    /// the command to end and answers with how it ended.
    fn pipe_text_to_pane(&self, args: Vec<String>, pane_id: &str) -> Result<
        ExitStatus,
        TerminalError,
    >;
}

} // verus!
