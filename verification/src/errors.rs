//! The error types of each layer and the text each of them reads as.
//!
//! Every variant carries one piece of detail. An error of an inner layer
//! becomes an error of the domain by carrying its whole message as the
//! detail of the matching domain variant.
//!
//! A conversion states in its own `ensures` which variant comes out and
//! what text its detail holds. It lays no claim to a model of the result
//! as a value, since the text of a string does not say which string it is.

use vstd::prelude::*;
use vstd::std_specs::convert::FromSpecImpl;

verus! {

/// Errors of the domain: the layer that resolves and runs tasks.
#[derive(Debug)]
pub enum DomainError {
    Configuration(String),
    FeatureNotConfigured(String),
    CommandExecution(String),
    FileOperation(String),
    TerminalOperation(String),
}

/// Errors of the file system.
#[derive(Debug)]
pub enum FileSystemError {
    Read(String),
    Write(String),
    CreateDirectory(String),
    CreateOutputFile(String),
}

/// Errors of loading, parsing or creating the configuration.
#[derive(Debug)]
pub enum ConfigError {
    Load(String),
    Parse(String),
    Create(String),
}

/// Errors of operating the terminal multiplexer.
#[derive(Debug)]
pub enum TerminalError {
    OpenPane(String),
    ClosePane(String),
    DisplayLogs(String),
    PipeText(String),
}

/// Errors of running a command as a process.
#[derive(Debug)]
pub enum TaskExecutionError {
    Execute(String),
}

impl DomainError {
    /// The message of the error, as text.
    pub open spec fn spec_message(&self) -> Seq<char> {
        match self {
            DomainError::Configuration(detail) => "Configuration error: "@ + detail@,
            DomainError::FeatureNotConfigured(name) => "Task '"@ + name@ + "' not configured"@,
            DomainError::CommandExecution(detail) => "Command execution failed: "@ + detail@,
            DomainError::FileOperation(detail) => "File operation failed: "@ + detail@,
            DomainError::TerminalOperation(detail) => "Terminal operation failed: "@ + detail@,
        }
    }

    /// The message of the error. For a task that is not configured it
    /// holds the name that was asked for.
    pub fn message(&self) -> (text: String)
        ensures
            text@ == self.spec_message(),
    {
        match self {
            DomainError::Configuration(detail) => String::from_str("Configuration error: ").concat(
                detail.as_str(),
            ),
            DomainError::FeatureNotConfigured(name) => String::from_str("Task '").concat(
                name.as_str(),
            ).concat("' not configured"),
            DomainError::CommandExecution(detail) => String::from_str(
                "Command execution failed: ",
            ).concat(detail.as_str()),
            DomainError::FileOperation(detail) => String::from_str("File operation failed: ").concat(
                detail.as_str(),
            ),
            DomainError::TerminalOperation(detail) => String::from_str(
                "Terminal operation failed: ",
            ).concat(detail.as_str()),
        }
    }
}

impl FileSystemError {
    /// The message of the error, as text.
    pub open spec fn spec_message(&self) -> Seq<char> {
        match self {
            FileSystemError::Read(detail) => "Failed to read file: "@ + detail@,
            FileSystemError::Write(detail) => "Failed to write file: "@ + detail@,
            FileSystemError::CreateDirectory(detail) => "Failed to create directory: "@ + detail@,
            FileSystemError::CreateOutputFile(detail) => "Failed to create output file: "@
                + detail@,
        }
    }

    /// The message of the error.
    pub fn message(&self) -> (text: String)
        ensures
            text@ == self.spec_message(),
    {
        match self {
            FileSystemError::Read(detail) => String::from_str("Failed to read file: ").concat(
                detail.as_str(),
            ),
            FileSystemError::Write(detail) => String::from_str("Failed to write file: ").concat(
                detail.as_str(),
            ),
            FileSystemError::CreateDirectory(detail) => String::from_str(
                "Failed to create directory: ",
            ).concat(detail.as_str()),
            FileSystemError::CreateOutputFile(detail) => String::from_str(
                "Failed to create output file: ",
            ).concat(detail.as_str()),
        }
    }
}

impl ConfigError {
    /// The message of the error, as text.
    pub open spec fn spec_message(&self) -> Seq<char> {
        match self {
            ConfigError::Load(detail) => "Failed to load configuration: "@ + detail@,
            ConfigError::Parse(detail) => "Failed to parse configuration: "@ + detail@,
            ConfigError::Create(detail) => "Failed to create default configuration: "@ + detail@,
        }
    }

    /// The message of the error.
    pub fn message(&self) -> (text: String)
        ensures
            text@ == self.spec_message(),
    {
        match self {
            ConfigError::Load(detail) => String::from_str("Failed to load configuration: ").concat(
                detail.as_str(),
            ),
            ConfigError::Parse(detail) => String::from_str(
                "Failed to parse configuration: ",
            ).concat(detail.as_str()),
            ConfigError::Create(detail) => String::from_str(
                "Failed to create default configuration: ",
            ).concat(detail.as_str()),
        }
    }
}

impl TerminalError {
    /// The message of the error, as text.
    pub open spec fn spec_message(&self) -> Seq<char> {
        match self {
            TerminalError::OpenPane(detail) => "Failed to open pane: "@ + detail@,
            TerminalError::ClosePane(detail) => "Failed to close pane: "@ + detail@,
            TerminalError::DisplayLogs(detail) => "Failed to display logs: "@ + detail@,
            TerminalError::PipeText(detail) => "Failed to pipe text to pane: "@ + detail@,
        }
    }

    /// The message of the error.
    pub fn message(&self) -> (text: String)
        ensures
            text@ == self.spec_message(),
    {
        match self {
            TerminalError::OpenPane(detail) => String::from_str("Failed to open pane: ").concat(
                detail.as_str(),
            ),
            TerminalError::ClosePane(detail) => String::from_str("Failed to close pane: ").concat(
                detail.as_str(),
            ),
            TerminalError::DisplayLogs(detail) => String::from_str(
                "Failed to display logs: ",
            ).concat(detail.as_str()),
            TerminalError::PipeText(detail) => String::from_str(
                "Failed to pipe text to pane: ",
            ).concat(detail.as_str()),
        }
    }
}

impl TaskExecutionError {
    /// The message of the error, as text.
    pub open spec fn spec_message(&self) -> Seq<char> {
        match self {
            TaskExecutionError::Execute(detail) => "Failed to execute command: "@ + detail@,
        }
    }

    /// The message of the error.
    pub fn message(&self) -> (text: String)
        ensures
            text@ == self.spec_message(),
    {
        match self {
            TaskExecutionError::Execute(detail) => String::from_str(
                "Failed to execute command: ",
            ).concat(detail.as_str()),
        }
    }
}

/// An error of input or output, kept as the standard library made it.
#[verifier::external_type_specification]
#[verifier::external_body]
pub struct ExIoError(std::io::Error);

/// What `error` reads as when it is displayed, through the `to_string`
/// that the `Display` of `std::io::Error` gives it. For an error of the
/// operating system the text comes from the system, so nothing is claimed
/// of it.
#[verifier::external_body]
fn io_error_text(error: &std::io::Error) -> String {
    error.to_string()
}

impl From<std::io::Error> for FileSystemError {
    /// An error of input or output becomes a read error whose detail is
    /// what the error reads as.
    fn from(err: std::io::Error) -> (out: FileSystemError)
        ensures
            out is Read,
    {
        FileSystemError::Read(io_error_text(&err))
    }
}

impl FromSpecImpl<std::io::Error> for FileSystemError {
    open spec fn obeys_from_spec() -> bool {
        false
    }

    open spec fn from_spec(err: std::io::Error) -> FileSystemError {
        FileSystemError::Read(arbitrary())
    }
}

impl From<FileSystemError> for DomainError {
    /// A file system error becomes a file operation error of the domain.
    fn from(err: FileSystemError) -> (out: DomainError)
        ensures
            out matches DomainError::FileOperation(detail) && detail@ == err.spec_message(),
    {
        DomainError::FileOperation(err.message())
    }
}

impl FromSpecImpl<FileSystemError> for DomainError {
    open spec fn obeys_from_spec() -> bool {
        false
    }

    open spec fn from_spec(err: FileSystemError) -> DomainError {
        DomainError::FileOperation(choose|detail: String| detail@ == err.spec_message())
    }
}

impl From<ConfigError> for DomainError {
    /// A configuration error becomes a configuration error of the domain.
    fn from(err: ConfigError) -> (out: DomainError)
        ensures
            out matches DomainError::Configuration(detail) && detail@ == err.spec_message(),
    {
        DomainError::Configuration(err.message())
    }
}

impl FromSpecImpl<ConfigError> for DomainError {
    open spec fn obeys_from_spec() -> bool {
        false
    }

    open spec fn from_spec(err: ConfigError) -> DomainError {
        DomainError::Configuration(choose|detail: String| detail@ == err.spec_message())
    }
}

impl From<TerminalError> for DomainError {
    /// A terminal error becomes a terminal operation error of the domain.
    fn from(err: TerminalError) -> (out: DomainError)
        ensures
            out matches DomainError::TerminalOperation(detail) && detail@ == err.spec_message(),
    {
        DomainError::TerminalOperation(err.message())
    }
}

impl FromSpecImpl<TerminalError> for DomainError {
    open spec fn obeys_from_spec() -> bool {
        false
    }

    open spec fn from_spec(err: TerminalError) -> DomainError {
        DomainError::TerminalOperation(choose|detail: String| detail@ == err.spec_message())
    }
}

impl From<TaskExecutionError> for DomainError {
    /// A task execution error becomes a command execution error of the domain.
    fn from(err: TaskExecutionError) -> (out: DomainError)
        ensures
            out matches DomainError::CommandExecution(detail) && detail@ == err.spec_message(),
    {
        DomainError::CommandExecution(err.message())
    }
}

impl FromSpecImpl<TaskExecutionError> for DomainError {
    open spec fn obeys_from_spec() -> bool {
        false
    }

    open spec fn from_spec(err: TaskExecutionError) -> DomainError {
        DomainError::CommandExecution(choose|detail: String| detail@ == err.spec_message())
    }
}

} // verus!
