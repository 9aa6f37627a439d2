//! The reboot escalator: one orderly request, then forced requests at a
//! fixed interval for as long as the process lives.

use vstd::prelude::*;
use crate::action::{Action, Event, FORCE_INTERVAL_SECS};
use crate::clock::Span;

verus! {

/// How far the escalation has come. There is no last stage: the escalation
/// ends when the reboot ends the process.
#[derive(Clone, Copy, Debug, PartialEq, Eq, Structural)]
pub enum Escalator {
    /// The orderly reboot has yet to be requested.
    Requesting,
    /// The orderly reboot was requested; forced ones follow.
    Forcing,
}

impl Escalator {
    /// The request that is due at this stage.
    pub open spec fn spec_pending(self) -> Action {
        match self {
            Escalator::Requesting => Action::Reboot,
            Escalator::Forcing => Action::ForceReboot { after: Span::of_secs(FORCE_INTERVAL_SECS) },
        }
    }

    /// The stage after `event`: once a request has been made, only forced
    /// ones remain. A reading of the clock answers no request and changes
    /// nothing.
    pub open spec fn spec_advance(self, event: Event) -> Escalator {
        match event {
            Event::Done => Escalator::Forcing,
            Event::Sampled(_) => self,
        }
    }

    /// An escalation that has requested nothing yet.
    pub fn new() -> (escalator: Escalator)
        ensures
            escalator == Escalator::Requesting,
    {
        Escalator::Requesting
    }

    /// The request that is due at this stage.
    pub fn pending(&self) -> (action: Action)
        ensures
            action == self.spec_pending(),
            action.is_reboot_request(),
    {
        match self {
            Escalator::Requesting => Action::Reboot,
            Escalator::Forcing => Action::ForceReboot { after: Span::from_secs(FORCE_INTERVAL_SECS) },
        }
    }

    /// The stage after `event`.
    pub fn advance(self, event: Event) -> (next: Escalator)
        ensures
            next == self.spec_advance(event),
    {
        match event {
            Event::Done => Escalator::Forcing,
            Event::Sampled(_) => self,
        }
    }

    /// The orderly request is made once: after the first request, every
    /// request that is due is a forced one, a fixed interval after the one
    /// before.
    pub proof fn lemma_forced_ever_after(self, first: Event, later: Event)
        requires
            first is Done,
        ensures
            self.spec_advance(first) == Escalator::Forcing,
            self.spec_advance(first).spec_advance(later) == Escalator::Forcing,
            self.spec_advance(first).spec_pending() == (Action::ForceReboot {
                after: Span::of_secs(FORCE_INTERVAL_SECS),
            }),
            Span::of_secs(FORCE_INTERVAL_SECS)@ == 120 * 1_000_000_000,
    {
        Span::lemma_of_secs(FORCE_INTERVAL_SECS);
    }
}

} // verus!
