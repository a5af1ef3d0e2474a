//! The file system, as the adapters see it.

use crate::errors::FileSystemError;
use vstd::prelude::*;

verus! {

/// Port for file system operations.
///
/// Nothing is promised of what an implementation answers.
pub trait FileSystemPort {
    /// Creates the directory `path`.
    fn create_directory(&self, path: &str) -> Result<(), FileSystemError>;

    /// Writes `content` to the file `path`, replacing what it held.
    fn write_to_file(&self, path: &str, content: &str) -> Result<(), FileSystemError>;

    /// Reads the file `path` as text.
    fn read_from_file(&self, path: &str) -> Result<String, FileSystemError>;
}

} // verus!
