//! A watchdog for the wall clock.
//!
//! The library holds the decisions of a monitor that samples the system time
//! once per tick, notices when it has leapt forward by more than a configured
//! threshold, and reacts: it reports the jump, optionally runs a remedy
//! command, gives it a grace period, looks again, and, where that is enabled,
//! escalates to a reboot. Reading the clock, sleeping and spawning processes
//! are left to the caller, which performs each [`action::Action`] the
//! controller asks for and hands back the matching [`action::Event`].
//!
//! - [`clock`]: readings of the clock and spans of time;
//! - [`detector`]: when the time between two readings is a jump;
//! - [`config`]: the options;
//! - [`action`]: the work the controller hands out and the answers it takes;
//! - [`remediation`]: the controller and its states;
//! - [`escalator`]: the reboot requests;
//! - [`runs`]: what holds of the controller over any sequence of events;
//! - [`report`]: the lines for the console.

pub mod action;
pub mod clock;
pub mod config;
pub mod detector;
pub mod escalator;
pub mod remediation;
pub mod report;
pub mod runs;
