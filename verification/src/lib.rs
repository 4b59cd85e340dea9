//! Supervision of a fleet of long-running tunnel processes: the entries that
//! can be managed, the rules a configuration must meet, and the decisions of
//! the supervisor that starts, stops and observes the processes.

pub mod backend;
pub mod cli;
pub mod constants;
pub mod errors;
pub mod text;
pub mod ui;
