use wez_bits::adapters::task_execution_adapter::{
    execution_failure, stderr_failure, stdout_failure, TaskExecutionAdapter,
};
use wez_bits::domain::models::Command;
use wez_bits::errors::{FileSystemError, TaskExecutionError};
use wez_bits::ports::filesystem_port::FileSystemPort;

struct NoFileSystem;

impl FileSystemPort for NoFileSystem {
    fn create_directory(&self, path: &str) -> Result<(), FileSystemError> {
        Err(FileSystemError::CreateDirectory(path.to_string()))
    }

    fn write_to_file(&self, path: &str, _content: &str) -> Result<(), FileSystemError> {
        Err(FileSystemError::Write(path.to_string()))
    }

    fn read_from_file(&self, path: &str) -> Result<String, FileSystemError> {
        Err(FileSystemError::Read(path.to_string()))
    }
}

#[test]
fn test_adapter_initialization() {
    let mock_fs = NoFileSystem;
    // Verify adapter can be created
    let adapter = TaskExecutionAdapter::new(mock_fs);
    assert!(true);
    assert!(adapter.file_system_port().read_from_file("x").is_err());
}

#[test]
fn a_command_that_fails_to_run_is_named_in_the_error() {
    let command = Command {
        program: "echo".to_string(),
        args: vec!["test".to_string(), "a \"b\"\n".to_string(), "é\\".to_string()],
    };
    assert!(matches!(
        stdout_failure(&command),
        TaskExecutionError::Execute(detail)
            if detail == "Failed to create stdout file for command: echo"
    ));
    assert!(matches!(
        stderr_failure(&command),
        TaskExecutionError::Execute(detail)
            if detail == "Failed to create stderr file for command: echo"
    ));
    let error = execution_failure(&command);
    assert!(matches!(
        &error,
        TaskExecutionError::Execute(detail)
            if *detail == format!("Failed to execute command: {} {:?}", command.program, command.args)
    ));
    assert_eq!(
        error.message(),
        "Failed to execute command: Failed to execute command: echo \
         [\"test\", \"a \\\"b\\\"\\n\", \"é\\\\\"]"
    );
    let bare = Command { program: String::new(), args: Vec::new() };
    assert!(matches!(
        execution_failure(&bare),
        TaskExecutionError::Execute(detail) if detail == "Failed to execute command:  []"
    ));
}
