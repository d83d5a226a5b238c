//! A fixed table of named monitors whose simulated measurements are refreshed
//! and snapshotted on independent timers.
//!
//! The library holds the data model and every rule of the job:
//!
//! - `monitor`: the table, what one update pass does to it, and the deep copy;
//! - `shared`: the handle the background tasks share, which offers a pass and
//!   a snapshot and nothing else;
//! - `history`: what a snapshot can hold over a whole run;
//! - `snapshot`: how a snapshot file is named;
//! - `schedule`: how long each task rests between cycles and when the run
//!   ends;
//! - `timestamp`: UTC instants.
//!
//! Threads, locks, sleeping and files belong to the program built around it.

pub mod history;
pub mod monitor;
pub mod schedule;
pub mod shared;
pub mod snapshot;
pub mod timestamp;
