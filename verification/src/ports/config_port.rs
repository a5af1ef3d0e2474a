//! The configuration of a project, as the command line sees it.

use crate::domain::models::TaskConfig;
use crate::errors::ConfigError;
use vstd::prelude::*;

verus! {

/// Port for configuration management.
///
/// Nothing is promised of what an implementation answers.
pub trait ConfigPort {
    /// Loads the configured tasks.
    fn load_config(&mut self) -> Result<TaskConfig, ConfigError>;

    /// Creates the default configuration.
    fn create_default_config(&mut self) -> Result<(), ConfigError>;

    /// Renders the current configuration as text.
    fn view_config(&mut self) -> Result<String, ConfigError>;
}

} // verus!
