//! A configuration collaborator together with the record of what was
//! asked of it.
//!
//! The record is ghost: it exists for the contracts and costs nothing when
//! the program runs. While a collaborator is kept here, only the three
//! operations below ask anything of it, and each of them adds its
//! exchange to the record. So the record holds what was asked of the
//! collaborator, in order, and what it answered.

use crate::domain::models::TaskConfig;
use crate::errors::ConfigError;
use crate::ports::config_port::ConfigPort;
use vstd::prelude::*;

verus! {

/// One request to the configuration collaborator and the answer it gave.
#[allow(inconsistent_fields)]
pub ghost enum ConfigExchange {
    Load { reply: Result<TaskConfig, ConfigError> },
    Create { reply: Result<(), ConfigError> },
    View { reply: Result<String, ConfigError> },
}

/// A configuration collaborator and the record of the exchanges made
/// with it.
pub struct JournaledConfig<C: ConfigPort> {
    port: C,
    journal: Ghost<Seq<ConfigExchange>>,
}

impl<C: ConfigPort> JournaledConfig<C> {
    /// The exchanges made with the collaborator so far, oldest first.
    pub closed spec fn journal(&self) -> Seq<ConfigExchange> {
        self.journal@
    }

    /// The collaborator itself, as a value.
    pub closed spec fn spec_port(&self) -> C {
        self.port
    }

    /// Takes charge of `port`; nothing has been asked of it yet.
    pub fn new(port: C) -> (journaled: Self)
        ensures
            journaled.journal() == Seq::<ConfigExchange>::empty(),
            journaled.spec_port() == port,
    {
        JournaledConfig { port, journal: Ghost(Seq::empty()) }
    }

    /// Gives the collaborator back; the record ends here.
    pub fn into_port(self) -> (port: C)
        ensures
            port == self.spec_port(),
    {
        self.port
    }

    /// The collaborator, to look at. Asking anything of it takes more than
    /// looking, so the record stays whole.
    pub fn port(&self) -> (port: &C)
        ensures
            *port == self.spec_port(),
    {
        &self.port
    }

    /// Asks the collaborator for the configured tasks and records the
    /// exchange.
    pub fn load_config(&mut self) -> (reply: Result<TaskConfig, ConfigError>)
        ensures
            final(self).journal() == old(self).journal().push(ConfigExchange::Load { reply }),
    {
        let reply = self.port.load_config();
        proof {
            self.journal@ = self.journal@.push(ConfigExchange::Load { reply });
        }
        reply
    }

    /// Asks the collaborator to create the default configuration and
    /// records the exchange.
    pub fn create_default_config(&mut self) -> (reply: Result<(), ConfigError>)
        ensures
            final(self).journal() == old(self).journal().push(ConfigExchange::Create { reply }),
    {
        let reply = self.port.create_default_config();
        proof {
            self.journal@ = self.journal@.push(ConfigExchange::Create { reply });
        }
        reply
    }

    /// Asks the collaborator to show the configuration and records the
    /// exchange.
    pub fn view_config(&mut self) -> (reply: Result<String, ConfigError>)
        ensures
            final(self).journal() == old(self).journal().push(ConfigExchange::View { reply }),
    {
        let reply = self.port.view_config();
        proof {
            self.journal@ = self.journal@.push(ConfigExchange::View { reply });
        }
        reply
    }
}

} // verus!
