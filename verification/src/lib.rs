//! Supervision rules for one scheduled child process: the daily window, the
//! record of recent start attempts, the countdown warnings, and the decision
//! taken on every poll.

pub mod clock;
pub mod config;
pub mod ledger;
pub mod supervisor;
pub mod warning;
pub mod window;
