//! The capabilities the domain consumes, each as a trait that an adapter
//! implements.

pub mod config_port;
pub mod filesystem_port;
pub mod task_execution_port;
pub mod terminal_port;
