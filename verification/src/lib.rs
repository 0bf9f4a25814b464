//! Process execution engine for launching user scripts in a pseudo-terminal,
//! streaming their output, supporting interactive input, resize and
//! cooperative cancellation, and recording each run's outcome.
//!
//! The engine itself is a sequential state machine: the caller (which owns
//! the actual child processes, threads and persistence) drives it and
//! performs the I/O actions its operations return.

pub mod history;
pub mod launcher;
pub mod models;
pub mod output;
pub mod runner;
pub mod sched;
pub mod textnum;
pub mod transcript;
