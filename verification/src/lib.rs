//! Sorting the entries of a directory into `YYYY-MM` bucket directories.
//!
//! The library holds the decisions of such a run: which entries are left
//! alone, which bucket an entry belongs to, how a move is carried out step by
//! step, how many moves may be in flight at once, and how the outcomes are
//! counted. Reading directories and moving files is left to the caller, who
//! reports what the file system said and receives the next thing to do.

pub mod age;
pub mod bucket;
pub mod calendar;
pub mod mover;
pub mod plan;
pub mod run;
pub mod scan;
pub mod scheduler;
pub mod stats;
