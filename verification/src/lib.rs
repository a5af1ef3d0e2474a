//! Runs named, project-scoped tasks inside panes of a terminal multiplexer.
//!
//! The crate is laid out as ports and adapters around a small domain:
//! [`domain`] holds the data model, the task resolver and the task
//! execution service, [`ports`] the capabilities the domain consumes, and
//! [`adapters`] the pieces that connect those capabilities to the outside.

pub mod adapters;
pub mod constants;
pub mod domain;
pub mod errors;
pub mod ports;
pub mod text;
