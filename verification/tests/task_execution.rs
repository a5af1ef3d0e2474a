use std::cell::RefCell;

use wez_bits::domain::behaviours::{
    command_line_of, should_close_pane, TaskExecutionService, PANE_SIZE_PERCENT,
};
use wez_bits::domain::models::{
    Command, Direction, ExitStatus, Task, TaskClose, TaskConfig, TaskSettings,
};
use wez_bits::errors::{DomainError, TerminalError};
use wez_bits::ports::terminal_port::TerminalPort;

#[derive(Debug, Clone, PartialEq)]
enum Call {
    Open(Direction, i32),
    Pipe(Vec<String>, String),
    Close(String),
}

/// A terminal that answers as it was told to and keeps what it was asked.
struct FakeTerminal {
    pane: Option<String>,
    status: Option<ExitStatus>,
    close_fails: bool,
    calls: RefCell<Vec<Call>>,
}

impl FakeTerminal {
    fn new(pane: Option<&str>, status: Option<ExitStatus>, close_fails: bool) -> Self {
        FakeTerminal {
            pane: pane.map(|p| p.to_string()),
            status,
            close_fails,
            calls: RefCell::new(Vec::new()),
        }
    }

    fn opens(&self) -> usize {
        self.calls.borrow().iter().filter(|c| matches!(c, Call::Open(..))).count()
    }

    fn pipes(&self) -> usize {
        self.calls.borrow().iter().filter(|c| matches!(c, Call::Pipe(..))).count()
    }

    fn closes(&self) -> usize {
        self.calls.borrow().iter().filter(|c| matches!(c, Call::Close(..))).count()
    }
}

impl TerminalPort for FakeTerminal {
    fn open_pane(&self, direction: Direction, size: i32) -> Result<String, TerminalError> {
        self.calls.borrow_mut().push(Call::Open(direction, size));
        match &self.pane {
            Some(pane) => Ok(pane.clone()),
            None => Err(TerminalError::OpenPane("no pane".to_string())),
        }
    }

    fn close_pane(&self, pane_id: &str) -> Result<(), TerminalError> {
        self.calls.borrow_mut().push(Call::Close(pane_id.to_string()));
        if self.close_fails {
            Err(TerminalError::ClosePane(pane_id.to_string()))
        } else {
            Ok(())
        }
    }

    fn pipe_text_to_pane(
        &self,
        args: Vec<String>,
        pane_id: &str,
    ) -> Result<ExitStatus, TerminalError> {
        self.calls.borrow_mut().push(Call::Pipe(args, pane_id.to_string()));
        match self.status {
            Some(status) => Ok(status),
            None => Err(TerminalError::PipeText(pane_id.to_string())),
        }
    }
}

fn npm_build() -> Command {
    Command { program: "npm".to_string(), args: vec!["run".to_string(), "build".to_string()] }
}

fn task(close: TaskClose, direction: Direction) -> Task {
    Task::new(npm_build(), TaskSettings { close, direction })
}

fn service(
    pane: Option<&str>,
    status: Option<ExitStatus>,
    close_fails: bool,
) -> TaskExecutionService<FakeTerminal> {
    TaskExecutionService::new(FakeTerminal::new(pane, status, close_fails))
}

fn build_config() -> TaskConfig {
    let mut config = TaskConfig::new();
    config.insert("build".to_string(), npm_build());
    config
}

#[test]
fn find_task_fails_for_a_name_that_is_not_configured() {
    let service = service(Some("1"), Some(ExitStatus::from_code(0)), false);
    let config = build_config();
    for name in ["Build", "build ", "", "test", "buil"] {
        let result = service.find_task(name, &config, TaskClose::Always, Direction::Down);
        match result {
            Err(DomainError::FeatureNotConfigured(missing)) => assert_eq!(missing, name),
            other => panic!("expected a task that is not configured, got {:?}", other),
        }
    }
}

#[test]
fn find_task_binds_the_configured_command_to_the_settings() {
    let service = service(Some("1"), Some(ExitStatus::from_code(0)), false);
    let config = build_config();
    for close in [TaskClose::Always, TaskClose::OnSuccess, TaskClose::Never] {
        for direction in [Direction::Right, Direction::Down] {
            let task = service.find_task("build", &config, close, direction).unwrap();
            assert_eq!(task.command.program, "npm");
            assert_eq!(task.command.args, vec!["run", "build"]);
            assert_eq!(task.settings, TaskSettings { close, direction });
        }
    }
    assert_eq!(config.len(), 1);
    assert_eq!(config.get("build").unwrap().program, "npm");
}

#[test]
fn find_task_in_an_empty_config_names_the_task() {
    let service = service(Some("1"), Some(ExitStatus::from_code(0)), false);
    let config = TaskConfig::new();
    let error = service
        .find_task("anything", &config, TaskClose::OnSuccess, Direction::Right)
        .unwrap_err();
    assert!(matches!(&error, DomainError::FeatureNotConfigured(name) if name == "anything"));
    assert_eq!(error.message(), "Task 'anything' not configured");
    assert!(error.message().contains("anything"));
    assert_eq!(service.into_terminal().calls.borrow().len(), 0);
}

#[test]
fn never_leaves_the_pane_open_whatever_the_status() {
    for status in [
        Some(ExitStatus::from_code(0)),
        Some(ExitStatus::from_code(1)),
        Some(ExitStatus::without_code()),
        None,
    ] {
        let mut service = service(Some("7"), status, false);
        let result = service.execute_task(task(TaskClose::Never, Direction::Right));
        assert_eq!(result.ok(), status);
        let terminal = service.into_terminal();
        assert_eq!(terminal.opens(), 1);
        assert_eq!(terminal.pipes(), 1);
        assert_eq!(terminal.closes(), 0);
    }
}

#[test]
fn always_closes_the_pane_once_whether_the_command_succeeds_or_fails() {
    for status in [
        Some(ExitStatus::from_code(0)),
        Some(ExitStatus::from_code(2)),
        Some(ExitStatus::without_code()),
        None,
    ] {
        let mut service = service(Some("7"), status, false);
        let result = service.execute_task(task(TaskClose::Always, Direction::Down));
        assert_eq!(result.ok(), status);
        let terminal = service.into_terminal();
        assert_eq!(terminal.closes(), 1);
        assert_eq!(terminal.calls.borrow()[2], Call::Close("7".to_string()));
    }
}

#[test]
fn on_success_closes_the_pane_only_after_success() {
    let mut succeeded = service(Some("3"), Some(ExitStatus::from_code(0)), false);
    let result = succeeded.execute_task(task(TaskClose::OnSuccess, Direction::Right));
    assert_eq!(result.unwrap().code(), Some(0));
    assert_eq!(succeeded.into_terminal().closes(), 1);

    for status in [Some(ExitStatus::from_code(1)), Some(ExitStatus::without_code()), None] {
        let mut failed = service(Some("3"), status, false);
        let result = failed.execute_task(task(TaskClose::OnSuccess, Direction::Right));
        assert_eq!(result.ok(), status);
        let terminal = failed.into_terminal();
        assert_eq!(terminal.closes(), 0);
        assert_eq!(terminal.calls.borrow().len(), 2);
    }
}

#[test]
fn a_pane_that_does_not_open_aborts_the_run() {
    for close in [TaskClose::Always, TaskClose::OnSuccess, TaskClose::Never] {
        let mut service = service(None, Some(ExitStatus::from_code(0)), false);
        let result = service.execute_task(task(close, Direction::Right));
        assert!(matches!(result, Err(TerminalError::OpenPane(detail)) if detail == "no pane"));
        let terminal = service.into_terminal();
        assert_eq!(terminal.opens(), 1);
        assert_eq!(terminal.pipes(), 0);
        assert_eq!(terminal.closes(), 0);
    }
}

#[test]
fn a_pane_that_does_not_close_leaves_the_status_as_it_is() {
    for code in [0, 3] {
        let mut service = service(Some("9"), Some(ExitStatus::from_code(code)), true);
        let result = service.execute_task(task(TaskClose::Always, Direction::Right));
        assert_eq!(result.unwrap(), ExitStatus::from_code(code));
        assert_eq!(service.into_terminal().closes(), 1);
    }
}

#[test]
fn a_command_that_cannot_be_delivered_is_reported_as_it_is() {
    let mut service = service(Some("9"), None, false);
    let result = service.execute_task(task(TaskClose::OnSuccess, Direction::Right));
    assert!(matches!(result, Err(TerminalError::PipeText(pane)) if pane == "9"));
    assert_eq!(service.into_terminal().closes(), 0);
}

#[test]
fn build_task_runs_to_the_right_and_closes_on_success() {
    let mut service = service(Some("42"), Some(ExitStatus::from_code(0)), false);
    let config = build_config();
    let task =
        service.find_task("build", &config, TaskClose::OnSuccess, Direction::Right).unwrap();
    let result = service.execute_task(task);
    assert_eq!(result.unwrap().code(), Some(0));
    let line = vec!["npm".to_string(), "run".to_string(), "build".to_string()];
    assert_eq!(
        *service.into_terminal().calls.borrow(),
        vec![
            Call::Open(Direction::Right, 30),
            Call::Pipe(line.clone(), "42".to_string()),
            Call::Close("42".to_string()),
        ]
    );

    let mut failing = TaskExecutionService::new(FakeTerminal::new(
        Some("42"),
        Some(ExitStatus::from_code(1)),
        false,
    ));
    let task =
        failing.find_task("build", &config, TaskClose::OnSuccess, Direction::Right).unwrap();
    assert_eq!(failing.execute_task(task).unwrap().code(), Some(1));
    assert_eq!(
        *failing.into_terminal().calls.borrow(),
        vec![Call::Open(Direction::Right, 30), Call::Pipe(line, "42".to_string())]
    );
}

#[test]
fn a_service_runs_one_task_after_the_other() {
    let mut service = service(Some("5"), Some(ExitStatus::from_code(0)), false);
    service.execute_task(task(TaskClose::Never, Direction::Down)).unwrap();
    service.execute_task(task(TaskClose::Always, Direction::Right)).unwrap();
    let terminal = service.into_terminal();
    let calls = terminal.calls.borrow();
    assert_eq!(calls.len(), 5);
    assert_eq!(calls[0], Call::Open(Direction::Down, PANE_SIZE_PERCENT));
    assert_eq!(calls[2], Call::Open(Direction::Right, PANE_SIZE_PERCENT));
    assert_eq!(calls[4], Call::Close("5".to_string()));
}

#[test]
fn the_pane_size_is_thirty_percent() {
    assert_eq!(PANE_SIZE_PERCENT, 30);
}

#[test]
fn the_command_line_is_the_program_and_then_the_arguments() {
    assert_eq!(command_line_of(&npm_build()), vec!["npm", "run", "build"]);
    let bare = Command { program: String::new(), args: Vec::new() };
    assert_eq!(command_line_of(&bare), vec![""]);
}

#[test]
fn the_close_policy_decides_on_the_outcome_of_the_delivery() {
    let success = Ok(ExitStatus::from_code(0));
    let failure = Ok(ExitStatus::from_code(1));
    let killed = Ok(ExitStatus::without_code());
    let undelivered = Err(TerminalError::PipeText("1".to_string()));
    for outcome in [&success, &failure, &killed, &undelivered] {
        assert!(should_close_pane(TaskClose::Always, outcome));
        assert!(!should_close_pane(TaskClose::Never, outcome));
    }
    assert!(should_close_pane(TaskClose::OnSuccess, &success));
    assert!(!should_close_pane(TaskClose::OnSuccess, &failure));
    assert!(!should_close_pane(TaskClose::OnSuccess, &killed));
    assert!(!should_close_pane(TaskClose::OnSuccess, &undelivered));
}
