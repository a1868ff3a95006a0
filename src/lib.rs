//! Energy-aware measurement of a test suite: hardware energy counters with
//! wraparound-safe accounting, the verdict of a single trial, the repeated
//! trial loop, session-level overhead accounting and the historical record
//! used to compare runs.

pub mod counter;
pub mod history;
pub mod laws;
pub mod sensor;
pub mod session;
pub mod text;
pub mod verdict;
