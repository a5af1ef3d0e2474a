//! Resolving a task by name and running it in a pane of its own.

use crate::domain::journal::{Exchange, Journaled};
use crate::domain::models::{
    texts, Command, CommandView, Direction, ExitStatus, Task, TaskClose, TaskConfig, TaskSettings,
    TaskView,
};
use crate::errors::{DomainError, TerminalError};
use crate::ports::terminal_port::TerminalPort;
use vstd::prelude::*;

verus! {

/// The size of the pane a task runs in, in percent of the current pane.
/// It is the same for both directions.
pub const PANE_SIZE_PERCENT: i32 = 30;

/// The command line of a command: the program, then its arguments.
pub open spec fn command_line(command: CommandView) -> Seq<Seq<char>> {
    seq![command.program] + command.args
}

/// Whether the pane is closed under the policy `close` once the command
/// has been delivered with the outcome `delivered`. A command that could
/// not be delivered counts as one that did not succeed.
pub open spec fn closes_pane(close: TaskClose, delivered: Result<ExitStatus, TerminalError>) -> bool {
    match close {
        TaskClose::Always => true,
        TaskClose::OnSuccess => delivered matches Ok(status) && status.spec_success(),
        TaskClose::Never => false,
    }
}

/// Whether `run` is what running `task` asks of a terminal, with `result`
/// as the outcome of the run.
///
/// A run opens one pane in the direction of the task. If that fails, the
/// run ends there with the error. Otherwise it delivers the command line
/// of the task to the new pane, and its outcome is the outcome of the
/// delivery. It then closes that pane if and only if the close policy says
/// so; what closing the pane answers does not matter.
pub open spec fn is_task_run(
    task: TaskView,
    run: Seq<Exchange>,
    result: Result<ExitStatus, TerminalError>,
) -> bool {
    &&& run.len() >= 1
    &&& run[0] matches Exchange::OpenPane { direction, size, reply: opened }
    &&& direction == task.settings.direction
    &&& size == PANE_SIZE_PERCENT
    &&& match opened {
        Err(error) => run.len() == 1 && result == Err::<ExitStatus, TerminalError>(error),
        Ok(pane) => {
            &&& run.len() >= 2
            &&& run[1] matches Exchange::PipeText { args, pane_id, reply: delivered }
            &&& args == command_line(task.command)
            &&& pane_id == pane@
            &&& result == delivered
            &&& if closes_pane(task.settings.close, delivered) {
                &&& run.len() == 3
                &&& run[2] matches Exchange::ClosePane { pane_id: closed, .. }
                &&& closed == pane@
            } else {
                run.len() == 2
            }
        },
    }
}

/// The command line of `command`: the program, then its arguments.
pub fn command_line_of(command: &Command) -> (line: Vec<String>)
    ensures
        texts(line@) == command_line(command@),
{
    let mut line: Vec<String> = Vec::new();
    line.push(command.program.clone());
    let mut i: usize = 0;
    while i < command.args.len()
        invariant
            i <= command.args.len(),
            line.len() == i + 1,
            line[0]@ == command.program@,
            forall|j: int| 0 <= j < i ==> line[j + 1]@ == command.args[j]@,
        decreases command.args.len() - i,
    {
        line.push(command.args[i].clone());
        i += 1;
    }
    assert(texts(line@) =~= command_line(command@));
    line
}

/// Decides whether the pane is closed under the policy `close` once the
/// command has been delivered with the outcome `delivered`.
pub fn should_close_pane(close: TaskClose, delivered: &Result<ExitStatus, TerminalError>) -> (yes:
    bool)
    ensures
        yes == closes_pane(close, *delivered),
{
    match close {
        TaskClose::Always => true,
        TaskClose::OnSuccess => match delivered {
            Ok(status) => status.success(),
            Err(_) => false,
        },
        TaskClose::Never => false,
    }
}

/// The core application service for task execution.
pub struct TaskExecutionService<P: TerminalPort> {
    terminal_controller: Journaled<P>,
}

impl<P: TerminalPort> TaskExecutionService<P> {
    /// Everything this service has asked of its terminal so far, with the
    /// answers, oldest first.
    pub closed spec fn journal(&self) -> Seq<Exchange> {
        self.terminal_controller.journal()
    }

    /// The terminal this service runs its tasks on, as a value.
    pub closed spec fn spec_terminal(&self) -> P {
        self.terminal_controller.spec_port()
    }

    /// A service that runs its tasks on `terminal_controller`. It has asked
    /// nothing of the terminal yet.
    pub fn new(terminal_controller: P) -> (service: Self)
        ensures
            service.journal() == Seq::<Exchange>::empty(),
            service.spec_terminal() == terminal_controller,
    {
        Self { terminal_controller: Journaled::new(terminal_controller) }
    }

    /// Gives back the terminal this service ran its tasks on.
    pub fn into_terminal(self) -> (terminal: P)
        ensures
            terminal == self.spec_terminal(),
    {
        self.terminal_controller.into_port()
    }

    /// Runs `task`: opens a pane, delivers the command to it, waits for the
    /// command to end and closes the pane if the close policy of the task
    /// says so.
    ///
    /// The outcome is the error of opening the pane if no pane could be
    /// opened, and else whatever delivering the command gave. Closing the
    /// pane is best effort: its failure changes nothing.
    pub fn execute_task(&mut self, task: Task) -> (result: Result<ExitStatus, TerminalError>)
        ensures
            exists|run: Seq<Exchange>|
                is_task_run(task@, run, result) && final(self).journal() == old(self).journal()
                    + run,
            final(self).spec_terminal() == old(self).spec_terminal(),
    {
        let ghost before = self.journal();
        let pane_id = match self.terminal_controller.open_pane(
            task.settings.direction,
            PANE_SIZE_PERCENT,
        ) {
            Ok(pane_id) => pane_id,
            Err(error) => {
                proof {
                    let run = seq![self.journal().last()];
                    assert(self.journal() =~= before + run);
                    assert(is_task_run(task@, run, Err(error)));
                }
                return Err(error);
            },
        };
        let ghost opened = self.journal().last();
        let result = self.execute_interactive_task(pane_id.as_str(), &task);
        let ghost delivered = self.journal().last();
        if should_close_pane(task.settings.close, &result) {
            let _ = self.terminal_controller.close_pane(pane_id.as_str());
            proof {
                let run = seq![opened, delivered, self.journal().last()];
                assert(self.journal() =~= before + run);
                assert(is_task_run(task@, run, result));
            }
        } else {
            proof {
                let run = seq![opened, delivered];
                assert(self.journal() =~= before + run);
                assert(is_task_run(task@, run, result));
            }
        }
        result
    }

    /// Delivers the command line of `task` to the pane `pane_id` and waits
    /// for the command to end.
    fn execute_interactive_task(&mut self, pane_id: &str, task: &Task) -> (result: Result<
        ExitStatus,
        TerminalError,
    >)
        ensures
            final(self).journal() == old(self).journal().push(
                Exchange::PipeText {
                    args: command_line(task.command@),
                    pane_id: pane_id@,
                    reply: result,
                },
            ),
            final(self).spec_terminal() == old(self).spec_terminal(),
    {
        let args = command_line_of(&task.command);
        self.terminal_controller.pipe_text_to_pane(args, pane_id)
    }

    /// Looks `task_name` up in `config` and binds the command found there
    /// to the settings given. The only failure is a name that `config`
    /// does not hold; the error then carries that name.
    pub fn find_task(
        &self,
        task_name: &str,
        config: &TaskConfig,
        close: TaskClose,
        direction: Direction,
    ) -> (result: Result<Task, DomainError>)
        ensures
            match result {
                Ok(task) => {
                    &&& config@.contains_key(task_name@)
                    &&& task.command@ == config@[task_name@]
                    &&& task.settings == (TaskSettings { close, direction })
                },
                Err(error) => {
                    &&& !config@.contains_key(task_name@)
                    &&& error matches DomainError::FeatureNotConfigured(name)
                    &&& name@ == task_name@
                },
            },
    {
        match config.get(task_name) {
            Some(command) => Ok(Task::new(command.clone(), TaskSettings { close, direction })),
            None => Err(DomainError::FeatureNotConfigured(task_name.to_owned())),
        }
    }
}

} // verus!
