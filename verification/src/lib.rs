//! Session-tracking engine of a foreground-application time tracker.
//!
//! The engine turns focus-change notifications, shutdown signals and tray
//! commands into a sequence of non-overlapping usage sessions and decides how
//! each closed session leaves the process.

pub mod config;
pub mod coordinator;
pub mod delivery;
pub mod event;
pub mod identity;
pub mod session;
pub mod setup;
pub mod style;
pub mod theme;
pub mod time;
pub mod trace;
pub mod tracker;
