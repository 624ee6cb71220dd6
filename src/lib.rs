//! Retires aged indices of a search cluster: selects the indices older than a
//! retention window, snapshots each under its own name, waits for the
//! snapshot to succeed, and only then deletes the index.
//!
//! - [`age`]: the age filter over the index catalog.
//! - [`date`]: creation timestamps, read exactly from millisecond text.
//! - [`snapshot`]: snapshot status listings.
//! - [`retire`]: the retirement run, one index at a time, as a state machine.
//! - [`args`]: run settings and their resolution against the environment.
pub mod age;
pub mod args;
pub mod date;
pub mod retire;
pub mod snapshot;
