//! What connects the ports to the outside: the command line, the
//! configuration file and the terminal multiplexer.

pub mod cli_adapter;
pub mod config_adapter;
pub mod config_journal;
pub mod file_adapter;
pub mod file_journal;
pub mod task_execution_adapter;
pub mod terminal_adapter;
pub mod toml_document;
