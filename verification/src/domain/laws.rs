//! What holds of every run of a task, whatever the terminal answers.
//!
//! Each statement is about a sequence of exchanges that
//! [`is_task_run`] accepts: the sequences by which
//! `TaskExecutionService::execute_task` extends the journal of the service.

use crate::domain::behaviours::{closes_pane, command_line, is_task_run};
use crate::domain::journal::{close_calls, open_calls, pipe_calls, Exchange};
use crate::domain::models::{ExitStatus, TaskClose, TaskView};
use crate::errors::TerminalError;
use vstd::prelude::*;

verus! {

/// A run opens exactly one pane, before anything else, and asks for
/// nothing to be retried: it delivers at most one command and closes at
/// most one pane.
pub proof fn lemma_run_makes_single_attempts(
    task: TaskView,
    run: Seq<Exchange>,
    result: Result<ExitStatus, TerminalError>,
)
    requires
        is_task_run(task, run, result),
    ensures
        run[0] is OpenPane,
        open_calls(run) == 1,
        pipe_calls(run) <= 1,
        close_calls(run) <= 1,
{
    reveal_with_fuel(open_calls, 4);
    reveal_with_fuel(pipe_calls, 4);
    reveal_with_fuel(close_calls, 4);
}

/// Under the policy `Never` no pane is ever closed, however the command
/// ended.
pub proof fn lemma_never_leaves_pane_open(
    task: TaskView,
    run: Seq<Exchange>,
    result: Result<ExitStatus, TerminalError>,
)
    requires
        is_task_run(task, run, result),
        task.settings.close == TaskClose::Never,
    ensures
        close_calls(run) == 0,
{
    reveal_with_fuel(close_calls, 4);
}

/// Under the policy `Always` a run that got its pane closes it exactly
/// once, whether the command succeeded or not, and it is that pane which
/// it closes.
pub proof fn lemma_always_closes_pane_once(
    task: TaskView,
    run: Seq<Exchange>,
    result: Result<ExitStatus, TerminalError>,
)
    requires
        is_task_run(task, run, result),
        task.settings.close == TaskClose::Always,
        run[0] matches Exchange::OpenPane { reply: Ok(_), .. },
    ensures
        close_calls(run) == 1,
        run.len() == 3,
        run[2] matches Exchange::ClosePane { pane_id, .. } && run[0] matches Exchange::OpenPane {
            reply: Ok(pane),
            ..
        } && pane_id == pane@,
{
    reveal_with_fuel(close_calls, 4);
}

/// Under the policy `OnSuccess` a run that got its pane closes it exactly
/// once if the command it delivered ended in success, and not at all
/// otherwise.
pub proof fn lemma_on_success_closes_pane_iff_success(
    task: TaskView,
    run: Seq<Exchange>,
    result: Result<ExitStatus, TerminalError>,
)
    requires
        is_task_run(task, run, result),
        task.settings.close == TaskClose::OnSuccess,
        run[0] matches Exchange::OpenPane { reply: Ok(_), .. },
    ensures
        close_calls(run) == if result matches Ok(status) && status.spec_success() {
            1nat
        } else {
            0nat
        },
        close_calls(run) == 1 <==> (result matches Ok(status) && status.spec_success()),
{
    reveal_with_fuel(close_calls, 4);
}

/// If the pane cannot be opened, the run ends with that error: no command
/// is delivered and no pane is closed.
pub proof fn lemma_open_failure_aborts(
    task: TaskView,
    run: Seq<Exchange>,
    result: Result<ExitStatus, TerminalError>,
)
    requires
        is_task_run(task, run, result),
        run[0] matches Exchange::OpenPane { reply: Err(_), .. },
    ensures
        run[0] matches Exchange::OpenPane { reply: Err(error), .. } && result == Err::<
            ExitStatus,
            TerminalError,
        >(error),
        pipe_calls(run) == 0,
        close_calls(run) == 0,
{
    reveal_with_fuel(pipe_calls, 4);
    reveal_with_fuel(close_calls, 4);
}

/// A pane that fails to close changes nothing: the outcome of the run is
/// still what delivering the command gave, the status of the command
/// itself if it ran.
pub proof fn lemma_close_failure_is_swallowed(
    task: TaskView,
    run: Seq<Exchange>,
    result: Result<ExitStatus, TerminalError>,
)
    requires
        is_task_run(task, run, result),
        run.len() == 3,
        run[2] matches Exchange::ClosePane { reply: Err(_), .. },
    ensures
        run[1] matches Exchange::PipeText { reply: delivered, .. } && result == delivered,
{
}

/// The outcome of a run that got its pane is what delivering the command
/// gave, whether or not the pane was closed afterwards.
pub proof fn lemma_outcome_is_that_of_the_delivery(
    task: TaskView,
    run: Seq<Exchange>,
    result: Result<ExitStatus, TerminalError>,
)
    requires
        is_task_run(task, run, result),
        run[0] matches Exchange::OpenPane { reply: Ok(_), .. },
    ensures
        pipe_calls(run) == 1,
        run[1] matches Exchange::PipeText { args, pane_id, reply: delivered } && result
            == delivered && args == command_line(task.command) && (run[0] matches Exchange::OpenPane {
            reply: Ok(pane),
            ..
        } && pane_id == pane@),
{
    reveal_with_fuel(pipe_calls, 4);
}

/// A run under the policy `close` closes its pane exactly when
/// [`closes_pane`] says so of what delivering the command gave.
pub proof fn lemma_close_follows_policy(
    task: TaskView,
    run: Seq<Exchange>,
    result: Result<ExitStatus, TerminalError>,
)
    requires
        is_task_run(task, run, result),
        run[0] matches Exchange::OpenPane { reply: Ok(_), .. },
    ensures
        close_calls(run) == if closes_pane(task.settings.close, result) {
            1nat
        } else {
            0nat
        },
{
    reveal_with_fuel(close_calls, 4);
}

} // verus!
