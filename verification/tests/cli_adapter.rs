use std::cell::Cell;

use wez_bits::adapters::cli_adapter::{
    Cli, CliAdapter, CliSubCmd, ConfigSubCmd, TaskCloseOption, TaskDirectionOption,
};
use wez_bits::domain::behaviours::TaskExecutionService;
use wez_bits::domain::models::{Command, Direction, ExitStatus, TaskClose, TaskConfig};
use wez_bits::errors::{ConfigError, DomainError, TerminalError};
use wez_bits::ports::config_port::ConfigPort;
use wez_bits::ports::terminal_port::TerminalPort;

/// A configuration collaborator that hands out one task and counts what
/// it is asked.
struct MockConfigPort {
    task: Option<(String, Command)>,
    fails: bool,
    loads: Cell<usize>,
    creates: Cell<usize>,
    views: Cell<usize>,
}

impl MockConfigPort {
    fn new(task: Option<(&str, Command)>) -> Self {
        MockConfigPort {
            task: task.map(|(name, command)| (name.to_string(), command)),
            fails: false,
            loads: Cell::new(0),
            creates: Cell::new(0),
            views: Cell::new(0),
        }
    }

    fn failing() -> Self {
        let mut port = MockConfigPort::new(None);
        port.fails = true;
        port
    }
}

impl ConfigPort for MockConfigPort {
    fn load_config(&mut self) -> Result<TaskConfig, ConfigError> {
        self.loads.set(self.loads.get() + 1);
        if self.fails {
            return Err(ConfigError::Load("unreadable".to_string()));
        }
        let mut config = TaskConfig::new();
        if let Some((name, command)) = &self.task {
            config.insert(name.clone(), command.clone());
        }
        Ok(config)
    }

    fn create_default_config(&mut self) -> Result<(), ConfigError> {
        self.creates.set(self.creates.get() + 1);
        if self.fails {
            return Err(ConfigError::Create("read-only".to_string()));
        }
        Ok(())
    }

    fn view_config(&mut self) -> Result<String, ConfigError> {
        self.views.set(self.views.get() + 1);
        if self.fails {
            return Err(ConfigError::Load("unreadable".to_string()));
        }
        Ok("[test] echo test\n".to_string())
    }
}

/// A terminal that always answers with the same pane and status and counts
/// what it is asked.
struct MockTerminalPort {
    code: Option<i32>,
    opens: Cell<usize>,
    pipes: Cell<usize>,
    closes: Cell<usize>,
}

impl MockTerminalPort {
    fn new(code: Option<i32>) -> Self {
        MockTerminalPort { code, opens: Cell::new(0), pipes: Cell::new(0), closes: Cell::new(0) }
    }
}

impl TerminalPort for MockTerminalPort {
    fn open_pane(&self, _direction: Direction, _size: i32) -> Result<String, TerminalError> {
        self.opens.set(self.opens.get() + 1);
        Ok("test-pane-id".to_string())
    }

    fn close_pane(&self, _pane_id: &str) -> Result<(), TerminalError> {
        self.closes.set(self.closes.get() + 1);
        Ok(())
    }

    fn pipe_text_to_pane(
        &self,
        _args: Vec<String>,
        pane_id: &str,
    ) -> Result<ExitStatus, TerminalError> {
        self.pipes.set(self.pipes.get() + 1);
        match self.code {
            Some(code) => Ok(ExitStatus::from_code(code)),
            None => Err(TerminalError::PipeText(format!("Failed to pipe text to pane {}", pane_id))),
        }
    }
}

// Helper to create a mock config port
fn setup_mock_config_port() -> MockConfigPort {
    MockConfigPort::new(Some((
        "test",
        Command { program: "echo".to_string(), args: vec!["test".to_string()] },
    )))
}

// Helper to create a mock terminal port
fn setup_mock_terminal() -> MockTerminalPort {
    MockTerminalPort::new(Some(0))
}

#[test]
fn test_cli_adapter_initialization() {
    let mock_config = setup_mock_config_port();
    let mock_terminal = setup_mock_terminal();

    let task_service = TaskExecutionService::new(mock_terminal);
    // Verify adapter can be created
    CliAdapter::new(mock_config, task_service);

    assert!(true);
}

#[test]
fn test_handle_config_create_command() {
    let mock_config = setup_mock_config_port();
    let mock_terminal = setup_mock_terminal();

    let task_service = TaskExecutionService::new(mock_terminal);
    let mut adapter = CliAdapter::new(mock_config, task_service);

    // Create a Config Create command
    let cli = Cli { cmd: CliSubCmd::Config { cmd: ConfigSubCmd::Create } };

    // Handle the command
    let result = adapter.handle_command(cli);

    // Check that execution succeeded
    assert!(result.is_ok());
    let output = result.unwrap();
    assert_eq!(output.status.code(), Some(0));
    assert_eq!(output.text, None);
    assert_eq!(adapter.config_manager().creates.get(), 1);
    assert_eq!(adapter.config_manager().loads.get(), 0);
    assert_eq!(adapter.config_manager().views.get(), 0);
    let (_, task_service) = adapter.into_parts();
    assert_eq!(task_service.into_terminal().opens.get(), 0);
}

#[test]
fn test_handle_config_view_command() {
    let mock_config = setup_mock_config_port();
    let mock_terminal = setup_mock_terminal();

    let task_service = TaskExecutionService::new(mock_terminal);
    let mut adapter = CliAdapter::new(mock_config, task_service);

    // Create a Config View command
    let cli = Cli { cmd: CliSubCmd::Config { cmd: ConfigSubCmd::View } };

    // Handle the command
    let result = adapter.handle_command(cli);

    // Check that execution succeeded
    assert!(result.is_ok());
    let output = result.unwrap();
    assert_eq!(output.status.code(), Some(0));
    assert_eq!(output.text.as_deref(), Some("[test] echo test\n"));
    assert_eq!(adapter.config_manager().views.get(), 1);
    assert_eq!(adapter.config_manager().loads.get(), 0);
    assert_eq!(adapter.config_manager().creates.get(), 0);
    let (_, task_service) = adapter.into_parts();
    let terminal = task_service.into_terminal();
    assert_eq!(terminal.opens.get() + terminal.pipes.get() + terminal.closes.get(), 0);
}

#[test]
fn test_handle_task_runner_command() {
    // Setup mock config that returns a task config with a "build" task
    let mock_config = MockConfigPort::new(Some((
        "build",
        Command { program: "npm".to_string(), args: vec!["run".to_string(), "build".to_string()] },
    )));

    // Setup mock terminal for task execution
    let mock_terminal = setup_mock_terminal();

    let task_service = TaskExecutionService::new(mock_terminal);
    let mut adapter = CliAdapter::new(mock_config, task_service);

    // Create a TaskRunner command for the "build" task
    let cli = Cli {
        cmd: CliSubCmd::TaskRunner {
            name: "build".to_string(),
            close: TaskCloseOption::OnSuccess,
            direction: TaskDirectionOption::Right,
        },
    };

    // Handle the command
    let result = adapter.handle_command(cli);

    // Check that execution succeeded
    assert!(result.is_ok());
    assert_eq!(result.unwrap().status.code(), Some(0));
    assert_eq!(adapter.config_manager().loads.get(), 1);
    let (_, task_service) = adapter.into_parts();
    let terminal = task_service.into_terminal();
    assert_eq!(terminal.opens.get(), 1);
    assert_eq!(terminal.pipes.get(), 1);
    assert_eq!(terminal.closes.get(), 1);
}

#[test]
fn test_task_runner_with_nonexistent_task() {
    // Setup mock config that returns an empty task config
    let mock_config = MockConfigPort::new(None);
    let mock_terminal = setup_mock_terminal();

    let task_service = TaskExecutionService::new(mock_terminal);
    let mut adapter = CliAdapter::new(mock_config, task_service);

    // Create a TaskRunner command for a non-existent task
    let cli = Cli {
        cmd: CliSubCmd::TaskRunner {
            name: "nonexistent".to_string(),
            close: TaskCloseOption::OnSuccess,
            direction: TaskDirectionOption::Right,
        },
    };

    // Handle the command
    let result = adapter.handle_command(cli);

    // Check that execution failed
    assert!(result.is_err());

    // Check error message indicates task not found
    let err = result.unwrap_err();
    let err_string = err.message();
    assert!(err_string.contains("nonexistent"));
    assert_eq!(adapter.config_manager().loads.get(), 1);
    let (_, task_service) = adapter.into_parts();
    assert_eq!(task_service.into_terminal().opens.get(), 0);
}

#[test]
fn a_failing_command_leaves_the_pane_open_on_success_policy() {
    let task_service = TaskExecutionService::new(MockTerminalPort::new(Some(2)));
    let mut adapter = CliAdapter::new(setup_mock_config_port(), task_service);
    let cli = Cli {
        cmd: CliSubCmd::TaskRunner {
            name: "test".to_string(),
            close: TaskCloseOption::OnSuccess,
            direction: TaskDirectionOption::Down,
        },
    };
    let output = adapter.handle_command(cli).unwrap();
    assert_eq!(output.status.code(), Some(2));
    assert_eq!(output.text, None);
    let (_, task_service) = adapter.into_parts();
    assert_eq!(task_service.into_terminal().closes.get(), 0);
}

#[test]
fn an_error_of_the_terminal_becomes_a_terminal_operation_error() {
    let task_service = TaskExecutionService::new(MockTerminalPort::new(None));
    let mut adapter = CliAdapter::new(setup_mock_config_port(), task_service);
    let result =
        adapter.run_task("test", &TaskConfig::new(), TaskClose::Always, Direction::Right);
    assert!(matches!(result, Err(DomainError::FeatureNotConfigured(name)) if name == "test"));

    let mut config = TaskConfig::new();
    config.insert("test".to_string(), Command { program: "echo".to_string(), args: vec![] });
    let error =
        adapter.run_task("test", &config, TaskClose::Always, Direction::Right).unwrap_err();
    assert!(matches!(
        &error,
        DomainError::TerminalOperation(detail)
            if detail == "Failed to pipe text to pane: Failed to pipe text to pane test-pane-id"
    ));
    assert_eq!(
        error.message(),
        "Terminal operation failed: Failed to pipe text to pane: \
         Failed to pipe text to pane test-pane-id"
    );
    let (_, task_service) = adapter.into_parts();
    assert_eq!(task_service.into_terminal().closes.get(), 1);
}

#[test]
fn a_failure_of_the_configuration_becomes_a_configuration_error() {
    for (cmd, detail) in [
        (ConfigSubCmd::Create, "Failed to create default configuration: read-only"),
        (ConfigSubCmd::View, "Failed to load configuration: unreadable"),
    ] {
        let task_service = TaskExecutionService::new(setup_mock_terminal());
        let mut adapter = CliAdapter::new(MockConfigPort::failing(), task_service);
        let result = adapter.handle_command(Cli { cmd: CliSubCmd::Config { cmd } });
        assert!(matches!(result, Err(DomainError::Configuration(found)) if found == detail));
        let asked = adapter.config_manager();
        assert_eq!(asked.loads.get() + asked.creates.get() + asked.views.get(), 1);
    }
    let task_service = TaskExecutionService::new(setup_mock_terminal());
    let mut adapter = CliAdapter::new(MockConfigPort::failing(), task_service);
    let cli = Cli {
        cmd: CliSubCmd::TaskRunner {
            name: "test".to_string(),
            close: TaskCloseOption::Always,
            direction: TaskDirectionOption::Right,
        },
    };
    let error = adapter.handle_command(cli).unwrap_err();
    assert!(matches!(
        &error,
        DomainError::Configuration(detail) if detail == "Failed to load configuration: unreadable"
    ));
    let (_, task_service) = adapter.into_parts();
    assert_eq!(task_service.into_terminal().opens.get(), 0);
}

#[test]
fn the_options_of_the_command_line_name_policies_and_directions() {
    assert_eq!(TaskCloseOption::Always.to_task_close(), TaskClose::Always);
    assert_eq!(TaskCloseOption::OnSuccess.to_task_close(), TaskClose::OnSuccess);
    assert_eq!(TaskCloseOption::Never.to_task_close(), TaskClose::Never);
    assert_eq!(TaskDirectionOption::Right.to_task_direction(), Direction::Right);
    assert_eq!(TaskDirectionOption::Down.to_task_direction(), Direction::Down);
}
