//! The data model and the behaviour built on it.

pub mod behaviours;
pub mod journal;
pub mod laws;
pub mod models;
