//! Verified core of the focustime focus timer: command-line grammar,
//! configuration normalization and migration, schedule conflicts and
//! occurrences, the data commands' restore workflow, and the runtime clock
//! that turns elapsed time into timer ticks.
pub mod text;
pub mod config;
pub mod error;
pub mod json;
pub mod cli;
pub mod timer;
pub mod daemon;
pub mod notifications;
pub mod schedule;
pub mod occurrence;
