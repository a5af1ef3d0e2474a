//! The commands of the command line and what each of them sets in motion.
//! Reading the arguments of the process and printing are left to the
//! program around this.

use crate::adapters::config_journal::{ConfigExchange, JournaledConfig};
use crate::domain::behaviours::{is_task_run, TaskExecutionService};
use crate::domain::journal::Exchange;
use crate::domain::models::{
    Direction, ExitStatus, TaskClose, TaskConfig, TaskSettings, TaskView,
};
use crate::errors::{ConfigError, DomainError, TerminalError};
use crate::ports::config_port::ConfigPort;
use crate::ports::terminal_port::TerminalPort;
use vstd::prelude::*;

verus! {

/// The command line, parsed.
#[derive(Debug)]
pub struct Cli {
    pub cmd: CliSubCmd,
}

/// What the command line asks for.
#[derive(Debug)]
pub enum CliSubCmd {
    /// Run a project scoped task.
    TaskRunner {
        /// Task name in the configuration.
        name: String,
        /// When the pane of the task is closed.
        close: TaskCloseOption,
        /// Where the pane of the task opens.
        direction: TaskDirectionOption,
    },
    /// Interact with the configuration.
    Config { cmd: ConfigSubCmd },
}

/// The close policy, as the command line names it.
#[derive(Debug, Clone, Copy, PartialEq, Eq, Structural)]
pub enum TaskCloseOption {
    Always,
    OnSuccess,
    Never,
}

impl TaskCloseOption {
    /// The close policy that the option names.
    pub open spec fn spec_task_close(&self) -> TaskClose {
        match self {
            TaskCloseOption::Always => TaskClose::Always,
            TaskCloseOption::OnSuccess => TaskClose::OnSuccess,
            TaskCloseOption::Never => TaskClose::Never,
        }
    }

    /// The close policy that the option names.
    #[verifier::when_used_as_spec(spec_task_close)]
    pub fn to_task_close(&self) -> (close: TaskClose)
        ensures
            close == self.spec_task_close(),
    {
        match self {
            TaskCloseOption::Always => TaskClose::Always,
            TaskCloseOption::OnSuccess => TaskClose::OnSuccess,
            TaskCloseOption::Never => TaskClose::Never,
        }
    }
}

/// The direction of the pane, as the command line names it.
#[derive(Debug, Clone, Copy, PartialEq, Eq, Structural)]
pub enum TaskDirectionOption {
    Right,
    Down,
}

impl TaskDirectionOption {
    /// The direction that the option names.
    pub open spec fn spec_task_direction(&self) -> Direction {
        match self {
            TaskDirectionOption::Right => Direction::Right,
            TaskDirectionOption::Down => Direction::Down,
        }
    }

    /// The direction that the option names.
    #[verifier::when_used_as_spec(spec_task_direction)]
    pub fn to_task_direction(&self) -> (direction: Direction)
        ensures
            direction == self.spec_task_direction(),
    {
        match self {
            TaskDirectionOption::Right => Direction::Right,
            TaskDirectionOption::Down => Direction::Down,
        }
    }
}

/// What to do with the configuration.
#[derive(Debug, Clone, Copy, PartialEq, Eq, Structural)]
pub enum ConfigSubCmd {
    Create,
    View,
}

/// What a command of the command line comes to: the status the process
/// ends with, and the text to print before that, if there is any.
#[derive(Debug)]
pub struct CommandOutput {
    pub status: ExitStatus,
    pub text: Option<String>,
}

/// Whether `result` is the outcome `outcome` of a task run, seen from the
/// command line: the status as it is, an error of the terminal as a
/// terminal operation error of the domain that carries its message.
pub open spec fn reports_outcome(
    result: Result<ExitStatus, DomainError>,
    outcome: Result<ExitStatus, TerminalError>,
) -> bool {
    match outcome {
        Ok(status) => result == Ok::<ExitStatus, DomainError>(status),
        Err(error) => result matches Err(DomainError::TerminalOperation(detail)) && detail@
            == error.spec_message(),
    }
}

/// Whether `result` is the outcome `outcome` of a task run as a command
/// comes to it: the status of the run and nothing to print, or an error
/// of the terminal as a terminal operation error of the domain that
/// carries its message.
pub open spec fn reports_run(
    result: Result<CommandOutput, DomainError>,
    outcome: Result<ExitStatus, TerminalError>,
) -> bool {
    match outcome {
        Ok(status) => result matches Ok(output) && output.status == status && output.text is None,
        Err(error) => result matches Err(DomainError::TerminalOperation(detail)) && detail@
            == error.spec_message(),
    }
}

/// Whether `result` is the failure `failure` of the configuration
/// collaborator as a command comes to it: a configuration error of the
/// domain that carries its message.
pub open spec fn reports_config_failure(
    result: Result<CommandOutput, DomainError>,
    failure: ConfigError,
) -> bool {
    result matches Err(DomainError::Configuration(detail)) && detail@ == failure.spec_message()
}

/// Whether `run` and `result` are what the command to run the task `name`
/// with `settings` comes to, once the configuration collaborator has
/// answered the request for the tasks with `reply`.
///
/// If the tasks could not be loaded, or if they hold no task of that
/// name, nothing is asked of the terminal: the outcome is the failure of
/// the collaborator, or the error for a task that is not configured.
/// Otherwise the task runs once, with the command found under the name,
/// and the outcome is that of the run.
pub open spec fn is_task_command(
    name: Seq<char>,
    settings: TaskSettings,
    reply: Result<TaskConfig, ConfigError>,
    run: Seq<Exchange>,
    result: Result<CommandOutput, DomainError>,
) -> bool {
    match reply {
        Err(failure) => run.len() == 0 && reports_config_failure(result, failure),
        Ok(config) => if config@.contains_key(name) {
            exists|outcome: Result<ExitStatus, TerminalError>|
                {
                    &&& #[trigger] is_task_run(
                        TaskView { command: config@[name], settings },
                        run,
                        outcome,
                    )
                    &&& reports_run(result, outcome)
                }
        } else {
            &&& run.len() == 0
            &&& result matches Err(DomainError::FeatureNotConfigured(missing))
            &&& missing@ == name
        },
    }
}

/// Whether `result` is what the command to create the default
/// configuration comes to, once the collaborator has answered with
/// `reply`: status zero and nothing to print, or the failure of the
/// collaborator.
pub open spec fn is_create_command(
    reply: Result<(), ConfigError>,
    result: Result<CommandOutput, DomainError>,
) -> bool {
    match reply {
        Ok(_) => {
            &&& result matches Ok(output)
            &&& output.status.spec_code() == Some(0i32)
            &&& output.text is None
        },
        Err(failure) => reports_config_failure(result, failure),
    }
}

/// Whether `result` is what the command to view the configuration comes
/// to, once the collaborator has answered with `reply`: status zero and
/// the text it answered to print, or the failure of the collaborator.
pub open spec fn is_view_command(
    reply: Result<String, ConfigError>,
    result: Result<CommandOutput, DomainError>,
) -> bool {
    match reply {
        Ok(text) => {
            &&& result matches Ok(output)
            &&& output.status.spec_code() == Some(0i32)
            &&& output.text == Some(text)
        },
        Err(failure) => reports_config_failure(result, failure),
    }
}

/// The command line adapter: it loads the configuration through
/// `config_manager` and runs tasks through `task_service`.
pub struct CliAdapter<C: ConfigPort, P: TerminalPort> {
    config_manager: JournaledConfig<C>,
    task_service: TaskExecutionService<P>,
}

impl<C: ConfigPort, P: TerminalPort> CliAdapter<C, P> {
    /// Everything the adapter has asked of the terminal so far, through
    /// its task service.
    pub closed spec fn journal(&self) -> Seq<Exchange> {
        self.task_service.journal()
    }

    /// Everything the adapter has asked of the configuration collaborator
    /// so far, with the answers, oldest first.
    pub closed spec fn config_journal(&self) -> Seq<ConfigExchange> {
        self.config_manager.journal()
    }

    /// The configuration collaborator, as a value.
    pub closed spec fn spec_config_manager(&self) -> C {
        self.config_manager.spec_port()
    }

    /// The task service, as a value.
    pub closed spec fn spec_task_service(&self) -> TaskExecutionService<P> {
        self.task_service
    }

    /// An adapter on top of the two collaborators given. It has asked
    /// nothing of the configuration collaborator yet.
    pub fn new(config_manager: C, task_service: TaskExecutionService<P>) -> (adapter: Self)
        ensures
            adapter.journal() == task_service.journal(),
            adapter.config_journal() == Seq::<ConfigExchange>::empty(),
            adapter.spec_config_manager() == config_manager,
            adapter.spec_task_service() == task_service,
    {
        Self { config_manager: JournaledConfig::new(config_manager), task_service }
    }

    /// Takes the adapter apart into its two collaborators.
    pub fn into_parts(self) -> (parts: (C, TaskExecutionService<P>))
        ensures
            parts.0 == self.spec_config_manager(),
            parts.1 == self.spec_task_service(),
            parts.1.journal() == self.journal(),
    {
        (self.config_manager.into_port(), self.task_service)
    }

    /// The configuration collaborator.
    pub fn config_manager(&self) -> (config_manager: &C)
        ensures
            *config_manager == self.spec_config_manager(),
    {
        self.config_manager.port()
    }

    /// The task service.
    pub fn task_service(&self) -> (task_service: &TaskExecutionService<P>)
        ensures
            *task_service == self.spec_task_service(),
            task_service.journal() == self.journal(),
    {
        &self.task_service
    }

    /// Runs the task that `config` holds under `name`, with the settings
    /// given. If `config` holds no such task, nothing is asked of the
    /// terminal and the error carries `name`. Otherwise the task runs
    /// once, and the result reports the outcome of that run.
    pub fn run_task(
        &mut self,
        name: &str,
        config: &TaskConfig,
        close: TaskClose,
        direction: Direction,
    ) -> (result: Result<ExitStatus, DomainError>)
        ensures
            final(self).config_journal() == old(self).config_journal(),
            !config@.contains_key(name@) ==> {
                &&& final(self).journal() == old(self).journal()
                &&& result matches Err(DomainError::FeatureNotConfigured(missing))
                &&& missing@ == name@
            },
            config@.contains_key(name@) ==> exists|
                run: Seq<Exchange>,
                outcome: Result<ExitStatus, TerminalError>,
            |
                {
                    &&& is_task_run(
                        TaskView {
                            command: config@[name@],
                            settings: TaskSettings { close, direction },
                        },
                        run,
                        outcome,
                    )
                    &&& final(self).journal() == old(self).journal() + run
                    &&& reports_outcome(result, outcome)
                },
    {
        let task = match self.task_service.find_task(name, config, close, direction) {
            Ok(task) => task,
            Err(error) => {
                return Err(error);
            },
        };
        let ghost view = task@;
        let ghost before = self.journal();
        match self.task_service.execute_task(task) {
            Ok(status) => {
                proof {
                    let run = choose|run: Seq<Exchange>|
                        is_task_run(view, run, Ok(status)) && self.journal() == before + run;
                    assert(reports_outcome(Ok(status), Ok(status)));
                }
                Ok(status)
            },
            Err(error) => {
                let ghost outcome = Err::<ExitStatus, TerminalError>(error);
                proof {
                    let run = choose|run: Seq<Exchange>|
                        is_task_run(view, run, outcome) && self.journal() == before + run;
                }
                let result = Err(DomainError::from(error));
                assert(reports_outcome(result, outcome));
                result
            },
        }
    }

    /// Carries out the command `cli`.
    ///
    /// Each command asks the configuration collaborator exactly one thing.
    /// Running a task asks it for the tasks and then runs the task as
    /// [`Self::run_task`] does. The two configuration commands ask it to
    /// create or to view the configuration and ask nothing of the
    /// terminal; they end with status zero, and viewing hands back the
    /// text to print. A failure of the collaborator comes back as a
    /// configuration error of the domain that carries its message.
    pub fn handle_command(&mut self, cli: Cli) -> (result: Result<CommandOutput, DomainError>)
        ensures
            match cli.cmd {
                CliSubCmd::TaskRunner { name, close, direction } => exists|
                    reply: Result<TaskConfig, ConfigError>,
                    run: Seq<Exchange>,
                |
                    {
                        &&& final(self).config_journal() == old(self).config_journal().push(
                            ConfigExchange::Load { reply },
                        )
                        &&& final(self).journal() == old(self).journal() + run
                        &&& #[trigger] is_task_command(
                            name@,
                            TaskSettings {
                                close: close.spec_task_close(),
                                direction: direction.spec_task_direction(),
                            },
                            reply,
                            run,
                            result,
                        )
                    },
                CliSubCmd::Config { cmd: ConfigSubCmd::Create } => exists|
                    reply: Result<(), ConfigError>,
                |
                    {
                        &&& final(self).config_journal() == old(self).config_journal().push(
                            ConfigExchange::Create { reply },
                        )
                        &&& final(self).journal() == old(self).journal()
                        &&& is_create_command(reply, result)
                    },
                CliSubCmd::Config { cmd: ConfigSubCmd::View } => exists|
                    reply: Result<String, ConfigError>,
                |
                    {
                        &&& final(self).config_journal() == old(self).config_journal().push(
                            ConfigExchange::View { reply },
                        )
                        &&& final(self).journal() == old(self).journal()
                        &&& is_view_command(reply, result)
                    },
            },
    {
        let ghost before = self.journal();
        match cli.cmd {
            CliSubCmd::TaskRunner { name, close, direction } => {
                let ghost settings = TaskSettings {
                    close: close.spec_task_close(),
                    direction: direction.spec_task_direction(),
                };
                let reply = self.config_manager.load_config();
                let result = match &reply {
                    Ok(tasks_config) => {
                        let ran = self.run_task(
                            name.as_str(),
                            tasks_config,
                            close.to_task_close(),
                            direction.to_task_direction(),
                        );
                        match ran {
                            Ok(status) => Ok(CommandOutput { status, text: None }),
                            Err(error) => Err(error),
                        }
                    },
                    Err(error) => Err(DomainError::Configuration(error.message())),
                };
                proof {
                    let run = self.journal().subrange(
                        before.len() as int,
                        self.journal().len() as int,
                    );
                    match reply {
                        Ok(tasks_config) => {
                            if tasks_config@.contains_key(name@) {
                                let task = TaskView {
                                    command: tasks_config@[name@],
                                    settings,
                                };
                                let (ran, outcome) = choose|
                                    ran: Seq<Exchange>,
                                    outcome: Result<ExitStatus, TerminalError>,
                                |
                                    #[trigger] is_task_run(task, ran, outcome) && self.journal()
                                        == before + ran && reports_run(result, outcome);
                                assert(run =~= ran);
                            } else {
                                assert(run =~= Seq::<Exchange>::empty());
                            }
                        },
                        Err(_) => {
                            assert(run =~= Seq::<Exchange>::empty());
                        },
                    }
                    assert(self.journal() =~= before + run);
                    assert(is_task_command(name@, settings, reply, run, result));
                }
                result
            },
            CliSubCmd::Config { cmd } => match cmd {
                ConfigSubCmd::Create => {
                    let reply = self.config_manager.create_default_config();
                    let result = match &reply {
                        Ok(()) => Ok(CommandOutput { status: ExitStatus::from_code(0), text: None }),
                        Err(error) => Err(DomainError::Configuration(error.message())),
                    };
                    assert(is_create_command(reply, result));
                    result
                },
                ConfigSubCmd::View => {
                    let reply = self.config_manager.view_config();
                    let ghost answered = reply;
                    let result = match reply {
                        Ok(config_str) => Ok(
                            CommandOutput {
                                status: ExitStatus::from_code(0),
                                text: Some(config_str),
                            },
                        ),
                        Err(error) => Err(DomainError::from(error)),
                    };
                    assert(is_view_command(answered, result));
                    result
                },
            },
        }
    }
}

} // verus!
