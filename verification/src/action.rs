//! What the controller asks of the outside world, and what the outside world
//! answers.
//!
//! The controller never sleeps, reads the clock or starts a process itself.
//! It names the next [`Action`]; the caller performs it and hands back one
//! [`Event`]: the reading for an action that reads the clock, `Done` for
//! every other.

use vstd::prelude::*;
use crate::clock::{Sample, Span};
use crate::detector::Interval;

verus! {

/// Seconds between two ordinary readings of the clock.
pub const TICK_SECS: u64 = 1;

/// Seconds between two forced reboot requests, and between the graceful
/// request and the first forced one.
pub const FORCE_INTERVAL_SECS: u64 = 120;

/// One piece of outside work.
#[derive(Debug, PartialEq, Eq)]
pub enum Action {
    /// Sleep for `after`, then read the clock and hand back the reading.
    ReadClock { after: Span },
    /// Announce the jump on the console.
    Report { anomaly: Interval },
    /// Hand `command` to the shell and do not wait for it to finish.
    Execute { command: String },
    /// Nothing to do outside: the controller has a decision of its own to
    /// take.
    Proceed,
    /// Ask the system for an orderly reboot.
    Reboot,
    /// Sleep for `after`, then ask the system for a forced reboot.
    ForceReboot { after: Span },
}

/// The answer to one action.
#[derive(Clone, Copy, Debug, PartialEq, Eq, Structural)]
pub enum Event {
    /// The clock was read.
    Sampled(Sample),
    /// The action was carried out and has nothing to report.
    Done,
}

impl Clone for Action {
    fn clone(&self) -> (copy: Action)
        ensures
            copy == *self,
    {
        match self {
            Action::ReadClock { after } => Action::ReadClock { after: *after },
            Action::Report { anomaly } => Action::Report { anomaly: *anomaly },
            Action::Execute { command } => Action::Execute { command: command.clone() },
            Action::Proceed => Action::Proceed,
            Action::Reboot => Action::Reboot,
            Action::ForceReboot { after } => Action::ForceReboot { after: *after },
        }
    }
}

impl Action {
    /// Whether the action asks the system to reboot, orderly or by force.
    pub open spec fn is_reboot_request(&self) -> bool {
        self is Reboot || self is ForceReboot
    }

    /// Whether `event` answers this action: a reading answers `ReadClock`,
    /// `Done` answers all others.
    pub open spec fn answered_by(&self, event: Event) -> bool {
        (self is ReadClock) == (event is Sampled)
    }

    /// Whether the action asks the system to reboot, orderly or by force.
    pub fn requests_reboot(&self) -> (reboot: bool)
        ensures
            reboot == self.is_reboot_request(),
    {
        match self {
            Action::Reboot => true,
            Action::ForceReboot { .. } => true,
            _ => false,
        }
    }

    /// Whether `event` answers this action.
    pub fn is_answered_by(&self, event: &Event) -> (fits: bool)
        ensures
            fits == self.answered_by(*event),
    {
        let reads = match self {
            Action::ReadClock { .. } => true,
            _ => false,
        };
        let sampled = match event {
            Event::Sampled(_) => true,
            Event::Done => false,
        };
        reads == sampled
    }
}

} // verus!
