//! A token-vesting ledger.
//!
//! Per investment round (stage) of a project, the library tracks how much of
//! an allocated token balance each wallet has unlocked over time under a
//! piecewise-linear release schedule, and releases tokens on demand: an
//! immediate percentage once release starts, nothing more during a cliff,
//! then a linear ramp until the whole allocation is unlocked.

pub mod claim;
pub mod dispatch;
pub mod error;
pub mod ledger;
pub mod project;
pub mod schedule;
pub mod store;
