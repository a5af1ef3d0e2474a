//! A file system together with the record of what was asked of it.
//!
//! The record is ghost: it exists for the contracts and costs nothing when
//! the program runs. While a file system is kept here, only the three
//! operations below reach it, and each of them adds its exchange to the
//! record. So the record holds what was asked of the file system, in
//! order, and what it answered.

use crate::errors::FileSystemError;
use crate::ports::filesystem_port::FileSystemPort;
use vstd::prelude::*;

verus! {

/// One request to the file system and the answer it gave.
#[allow(inconsistent_fields)]
pub ghost enum FileExchange {
    CreateDirectory { path: Seq<char>, reply: Result<(), FileSystemError> },
    WriteFile { path: Seq<char>, content: Seq<char>, reply: Result<(), FileSystemError> },
    ReadFile { path: Seq<char>, reply: Result<String, FileSystemError> },
}

/// A file system and the record of the exchanges made with it.
pub struct JournaledFiles<F: FileSystemPort> {
    port: F,
    journal: Ghost<Seq<FileExchange>>,
}

impl<F: FileSystemPort> JournaledFiles<F> {
    /// The exchanges made with the file system so far, oldest first.
    pub closed spec fn journal(&self) -> Seq<FileExchange> {
        self.journal@
    }

    /// The file system itself, as a value.
    pub closed spec fn spec_port(&self) -> F {
        self.port
    }

    /// Takes charge of `port`; nothing has been asked of it yet.
    pub fn new(port: F) -> (journaled: Self)
        ensures
            journaled.journal() == Seq::<FileExchange>::empty(),
            journaled.spec_port() == port,
    {
        JournaledFiles { port, journal: Ghost(Seq::empty()) }
    }

    /// Gives the file system back; the record ends here.
    pub fn into_port(self) -> (port: F)
        ensures
            port == self.spec_port(),
    {
        self.port
    }

    /// Asks the file system for a new directory and records the exchange.
    pub fn create_directory(&mut self, path: &str) -> (reply: Result<(), FileSystemError>)
        ensures
            final(self).journal() == old(self).journal().push(
                FileExchange::CreateDirectory { path: path@, reply },
            ),
            final(self).spec_port() == old(self).spec_port(),
    {
        let reply = self.port.create_directory(path);
        proof {
            self.journal@ = self.journal@.push(
                FileExchange::CreateDirectory { path: path@, reply },
            );
        }
        reply
    }

    /// Asks the file system to write a file and records the exchange.
    pub fn write_to_file(&mut self, path: &str, content: &str) -> (reply: Result<
        (),
        FileSystemError,
    >)
        ensures
            final(self).journal() == old(self).journal().push(
                FileExchange::WriteFile { path: path@, content: content@, reply },
            ),
            final(self).spec_port() == old(self).spec_port(),
    {
        let reply = self.port.write_to_file(path, content);
        proof {
            self.journal@ = self.journal@.push(
                FileExchange::WriteFile { path: path@, content: content@, reply },
            );
        }
        reply
    }

    /// Asks the file system for the text of a file and records the
    /// exchange.
    pub fn read_from_file(&mut self, path: &str) -> (reply: Result<String, FileSystemError>)
        ensures
            final(self).journal() == old(self).journal().push(
                FileExchange::ReadFile { path: path@, reply },
            ),
            final(self).spec_port() == old(self).spec_port(),
    {
        let reply = self.port.read_from_file(path);
        proof {
            self.journal@ = self.journal@.push(FileExchange::ReadFile { path: path@, reply });
        }
        reply
    }
}

} // verus!
