//! The names of the files and directories the program works with.

use vstd::prelude::*;

verus! {

/// The directory, below the project, that holds the configuration and the
/// logs.
pub const DOTDIR: &'static str = ".wez";

/// The name of the log that takes what a task prints as errors.
pub const ERROR_FILENAME: &'static str = "wez-bits-error.log";

/// The name of the log that takes what a task prints as output.
pub const OUTPUT_FILENAME: &'static str = "wez-bits-output.log";

/// The name of the configuration file.
pub const CONFIG_FILE: &'static str = "config.json";

} // verus!
