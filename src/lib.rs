//! A focus timer's session core: the work/break state machine, its single
//! countdown driver, the command dispatcher, the blocked-site list and the
//! registry of observers that receive status broadcasts.

pub mod config;
pub mod pomodoro;
pub mod blocked_sites;
pub mod server;
pub mod registry;
pub mod utils;
