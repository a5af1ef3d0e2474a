//! A terminal together with the record of what was asked of it.
//!
//! The record is ghost: it exists for the contracts and costs nothing when
//! the program runs. While a terminal is kept here, only the three
//! operations below reach it, and each of them adds its exchange to the
//! record. So the record holds what was asked of the terminal, in order,
//! and what it answered.

use crate::domain::models::{texts, Direction, ExitStatus};
use crate::errors::TerminalError;
use crate::ports::terminal_port::TerminalPort;
use vstd::prelude::*;

verus! {

/// One request to the terminal and the answer it gave.
#[allow(inconsistent_fields)]
pub ghost enum Exchange {
    OpenPane { direction: Direction, size: i32, reply: Result<String, TerminalError> },
    PipeText {
        args: Seq<Seq<char>>,
        pane_id: Seq<char>,
        reply: Result<ExitStatus, TerminalError>,
    },
    ClosePane { pane_id: Seq<char>, reply: Result<(), TerminalError> },
}

/// How many of the exchanges in `run` ask for a pane to be opened.
pub open spec fn open_calls(run: Seq<Exchange>) -> nat
    decreases run.len(),
{
    if run.len() == 0 {
        0
    } else {
        open_calls(run.drop_last()) + if run.last() is OpenPane {
            1nat
        } else {
            0nat
        }
    }
}

/// How many of the exchanges in `run` submit a command to a pane.
pub open spec fn pipe_calls(run: Seq<Exchange>) -> nat
    decreases run.len(),
{
    if run.len() == 0 {
        0
    } else {
        pipe_calls(run.drop_last()) + if run.last() is PipeText {
            1nat
        } else {
            0nat
        }
    }
}

/// How many of the exchanges in `run` ask for a pane to be closed.
pub open spec fn close_calls(run: Seq<Exchange>) -> nat
    decreases run.len(),
{
    if run.len() == 0 {
        0
    } else {
        close_calls(run.drop_last()) + if run.last() is ClosePane {
            1nat
        } else {
            0nat
        }
    }
}

/// Counting goes through a record piece by piece: what `first + second`
/// holds of each kind of request is what `first` holds and what `second`
/// holds, together.
pub proof fn lemma_calls_add_up(first: Seq<Exchange>, second: Seq<Exchange>)
    ensures
        open_calls(first + second) == open_calls(first) + open_calls(second),
        pipe_calls(first + second) == pipe_calls(first) + pipe_calls(second),
        close_calls(first + second) == close_calls(first) + close_calls(second),
    decreases second.len(),
{
    if second.len() == 0 {
        assert(first + second =~= first);
    } else {
        assert((first + second).drop_last() =~= first + second.drop_last());
        assert((first + second).last() == second.last());
        lemma_calls_add_up(first, second.drop_last());
    }
}

/// A terminal and the record of the exchanges made with it.
pub struct Journaled<P: TerminalPort> {
    port: P,
    journal: Ghost<Seq<Exchange>>,
}

impl<P: TerminalPort> Journaled<P> {
    /// The exchanges made with the terminal so far, oldest first.
    pub closed spec fn journal(&self) -> Seq<Exchange> {
        self.journal@
    }

    /// Takes charge of `port`; nothing has been asked of it yet.
    pub fn new(port: P) -> (journaled: Self)
        ensures
            journaled.journal() == Seq::<Exchange>::empty(),
            journaled.spec_port() == port,
    {
        Journaled { port, journal: Ghost(Seq::empty()) }
    }

    /// The terminal itself, as a value.
    pub closed spec fn spec_port(&self) -> P {
        self.port
    }

    /// Gives the terminal back; the record ends here.
    pub fn into_port(self) -> (port: P)
        ensures
            port == self.spec_port(),
    {
        self.port
    }

    /// Asks the terminal for a new pane and records the exchange.
    pub fn open_pane(&mut self, direction: Direction, size: i32) -> (reply: Result<
        String,
        TerminalError,
    >)
        ensures
            final(self).journal() == old(self).journal().push(
                Exchange::OpenPane { direction, size, reply },
            ),
            final(self).spec_port() == old(self).spec_port(),
    {
        let reply = self.port.open_pane(direction, size);
        proof {
            self.journal@ = self.journal@.push(Exchange::OpenPane { direction, size, reply });
        }
        reply
    }

    /// Asks the terminal to close a pane and records the exchange.
    pub fn close_pane(&mut self, pane_id: &str) -> (reply: Result<(), TerminalError>)
        ensures
            final(self).journal() == old(self).journal().push(
                Exchange::ClosePane { pane_id: pane_id@, reply },
            ),
            final(self).spec_port() == old(self).spec_port(),
    {
        let reply = self.port.close_pane(pane_id);
        proof {
            self.journal@ = self.journal@.push(Exchange::ClosePane { pane_id: pane_id@, reply });
        }
        reply
    }

    /// Submits a command line to a pane, waits for the command to end and
    /// records the exchange.
    pub fn pipe_text_to_pane(&mut self, args: Vec<String>, pane_id: &str) -> (reply: Result<
        ExitStatus,
        TerminalError,
    >)
        ensures
            final(self).journal() == old(self).journal().push(
                Exchange::PipeText { args: texts(args@), pane_id: pane_id@, reply },
            ),
            final(self).spec_port() == old(self).spec_port(),
    {
        let ghost sent = texts(args@);
        let reply = self.port.pipe_text_to_pane(args, pane_id);
        proof {
            self.journal@ = self.journal@.push(
                Exchange::PipeText { args: sent, pane_id: pane_id@, reply },
            );
        }
        reply
    }
}

} // verus!
