//! The adapter for the file system. It holds nothing: reading and writing
//! files is left to whoever implements the file system port on top of it.

use vstd::prelude::*;

verus! {

/// The file system of the machine.
#[derive(Debug, Clone, Copy, PartialEq, Eq, Structural)]
pub struct FileAdapter {}

impl FileAdapter {
    /// The file system of the machine.
    pub fn new() -> (adapter: Self)
        ensures
            adapter == (FileAdapter {  }),
    {
        Self {  }
    }
}

} // verus!
