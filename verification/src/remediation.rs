//! The remediation controller: what follows a jump of the clock.
//!
//! A jump is reported, then a remedy command, if one is configured, is run
//! and given its grace period. After that the time since the reading before
//! the jump is measured again. If it is back within the threshold the jump
//! counts as resolved; if not, the watchdog reboots the machine where that is
//! enabled, and carries on where it is not.

use vstd::prelude::*;
use crate::action::{Action, Event, TICK_SECS};
use crate::clock::{elapsed_between, Sample, Span};
use crate::config::Configuration;
use crate::detector::{classify, is_anomalous, Interval};
use crate::escalator::Escalator;

verus! {

/// How one remediation ended.
#[derive(Clone, Copy, Debug, PartialEq, Eq, Structural)]
pub enum Outcome {
    /// The second look found the elapsed time back within the threshold.
    Resolved,
    /// The jump persists and rebooting is not enabled: it is tolerated.
    UnresolvedNoReboot,
    /// The jump persists and the machine is to be rebooted.
    UnresolvedReboot,
}

/// Where the controller stands.
#[derive(Clone, Copy, Debug, PartialEq, Eq, Structural)]
pub enum State {
    /// Ticking: `previous` is the reading the next one is measured against.
    Idle { previous: Sample },
    /// A jump was found and has yet to be reported.
    Detected { anomaly: Interval },
    /// The remedy command has yet to be started.
    Executing { anomaly: Interval },
    /// The remedy command runs; its grace period has yet to pass.
    Waiting { anomaly: Interval },
    /// `latest` is the reading to judge the jump by a second time.
    Rechecking { anomaly: Interval, latest: Sample },
    /// The jump is gone; ticking resumes from `latest`.
    Resolved { latest: Sample },
    /// The machine is being rebooted. Nothing leads out of this state.
    Escalating { escalator: Escalator },
}

/// The verdict of the second look: the time from the reading before the
/// jump to `latest`, held against the threshold as on the first look.
pub open spec fn outcome(config: Configuration, anomaly: Interval, latest: Sample) -> Outcome {
    if !is_anomalous(elapsed_between(anomaly.previous@, latest@), config.spec_threshold()@) {
        Outcome::Resolved
    } else if config.spec_reboot() {
        Outcome::UnresolvedReboot
    } else {
        Outcome::UnresolvedNoReboot
    }
}

/// Whether `state` can occur under `config`: a jump that is being handled is
/// longer than the threshold, and a command is only run or waited for where
/// one is configured.
pub open spec fn fits(config: Configuration, state: State) -> bool {
    match state {
        State::Idle { .. } | State::Resolved { .. } | State::Escalating { .. } => true,
        State::Detected { anomaly } | State::Rechecking { anomaly, .. } => is_anomalous(
            anomaly.elapsed_nanos(),
            config.spec_threshold()@,
        ),
        State::Executing { anomaly } | State::Waiting { anomaly } => {
            &&& is_anomalous(anomaly.elapsed_nanos(), config.spec_threshold()@)
            &&& config.has_command()
        },
    }
}

/// The outside work that is due in `state`.
pub open spec fn pending_action(config: Configuration, state: State) -> Action {
    match state {
        State::Idle { .. } => Action::ReadClock { after: Span::of_secs(TICK_SECS) },
        State::Detected { anomaly } => Action::Report { anomaly },
        State::Executing { .. } => Action::Execute { command: config.spec_command()->0 },
        State::Waiting { .. } => Action::ReadClock { after: config.spec_grace_period() },
        State::Rechecking { .. } | State::Resolved { .. } => Action::Proceed,
        State::Escalating { escalator } => escalator.spec_pending(),
    }
}

/// Whether `event` answers the work that is due in `state`: a reading where
/// the clock was to be read, `Done` everywhere else.
pub open spec fn accepts(state: State, event: Event) -> bool {
    (state is Idle || state is Waiting) == (event is Sampled)
}

/// The state after `event`. An event that does not answer the work that was
/// due changes nothing.
pub open spec fn step(config: Configuration, state: State, event: Event) -> State {
    match (state, event) {
        (State::Idle { previous }, Event::Sampled(current)) => {
            if is_anomalous(elapsed_between(previous@, current@), config.spec_threshold()@) {
                State::Detected { anomaly: Interval { previous, current } }
            } else {
                State::Idle { previous: current }
            }
        },
        (State::Detected { anomaly }, Event::Done) => {
            if config.has_command() {
                State::Executing { anomaly }
            } else {
                State::Rechecking { anomaly, latest: anomaly.current }
            }
        },
        (State::Executing { anomaly }, Event::Done) => State::Waiting { anomaly },
        (State::Waiting { anomaly }, Event::Sampled(latest)) => State::Rechecking {
            anomaly,
            latest,
        },
        (State::Rechecking { anomaly, latest }, Event::Done) => {
            match outcome(config, anomaly, latest) {
                Outcome::Resolved => State::Resolved { latest },
                Outcome::UnresolvedReboot => State::Escalating { escalator: Escalator::Requesting },
                Outcome::UnresolvedNoReboot => State::Idle { previous: anomaly.current },
            }
        },
        (State::Resolved { latest }, Event::Done) => State::Idle { previous: latest },
        (State::Escalating { escalator }, _) => State::Escalating {
            escalator: escalator.spec_advance(event),
        },
        _ => state,
    }
}

/// Judges a jump a second time, by the reading `latest`.
pub fn recheck(config: &Configuration, anomaly: &Interval, latest: Sample) -> (verdict: Outcome)
    ensures
        verdict == outcome(*config, *anomaly, latest),
{
    let (_, anomalous) = classify(anomaly.previous, latest, config.threshold());
    if !anomalous {
        Outcome::Resolved
    } else if config.reboot() {
        Outcome::UnresolvedReboot
    } else {
        Outcome::UnresolvedNoReboot
    }
}

/// The controller: the configuration and the state it has reached.
#[derive(Debug)]
pub struct Controller {
    config: Configuration,
    state: State,
}

impl Controller {
    /// The state is one that can occur under the configuration.
    #[verifier::type_invariant]
    pub closed spec fn wf(self) -> bool {
        self.config.wf() && fits(self.config, self.state)
    }

    /// The configuration the controller was made with.
    pub closed spec fn spec_config(&self) -> Configuration {
        self.config
    }

    /// The state the controller has reached.
    pub closed spec fn spec_state(&self) -> State {
        self.state
    }

    /// A controller that ticks, with `first` as the reading to measure the
    /// next one against.
    pub fn new(config: Configuration, first: Sample) -> (controller: Controller)
        ensures
            controller.wf(),
            controller.spec_config() == config,
            controller.spec_state() == (State::Idle { previous: first }),
    {
        proof {
            use_type_invariant(&config);
        }
        Controller { config, state: State::Idle { previous: first } }
    }

    /// The configuration the controller was made with.
    pub fn config(&self) -> (config: &Configuration)
        ensures
            *config == self.spec_config(),
    {
        &self.config
    }

    /// The state the controller has reached.
    pub fn state(&self) -> (state: State)
        ensures
            state == self.spec_state(),
            fits(self.spec_config(), state),
    {
        proof {
            use_type_invariant(self);
        }
        self.state
    }

    /// The outside work that is due now.
    pub fn pending(&self) -> (action: Action)
        ensures
            action == pending_action(self.spec_config(), self.spec_state()),
    {
        proof {
            use_type_invariant(self);
        }
        match self.state {
            State::Idle { .. } => Action::ReadClock { after: Span::from_secs(TICK_SECS) },
            State::Detected { anomaly } => Action::Report { anomaly },
            State::Executing { .. } => {
                match self.config.command() {
                    Some(command) => Action::Execute { command: command.clone() },
                    None => unreached(),
                }
            },
            State::Waiting { .. } => Action::ReadClock { after: self.config.grace_period() },
            State::Rechecking { .. } => Action::Proceed,
            State::Resolved { .. } => Action::Proceed,
            State::Escalating { escalator } => escalator.pending(),
        }
    }

    /// Takes in the answer to the work that was due and moves on. Returns
    /// whether `event` was such an answer; where it was not, the controller
    /// stays as it is.
    pub fn advance(&mut self, event: Event) -> (accepted: bool)
        ensures
            final(self).wf(),
            final(self).spec_config() == old(self).spec_config(),
            final(self).spec_state() == step(old(self).spec_config(), old(self).spec_state(), event),
            accepted == accepts(old(self).spec_state(), event),
            !accepted ==> final(self).spec_state() == old(self).spec_state(),
    {
        proof {
            use_type_invariant(&*self);
        }
        let state = self.state;
        let (next, accepted) = match (state, event) {
            (State::Idle { previous }, Event::Sampled(current)) => {
                let (anomaly, anomalous) = classify(previous, current, self.config.threshold());
                if anomalous {
                    (State::Detected { anomaly }, true)
                } else {
                    (State::Idle { previous: current }, true)
                }
            },
            (State::Detected { anomaly }, Event::Done) => {
                if self.config.command().is_some() {
                    (State::Executing { anomaly }, true)
                } else {
                    (State::Rechecking { anomaly, latest: anomaly.current }, true)
                }
            },
            (State::Executing { anomaly }, Event::Done) => (State::Waiting { anomaly }, true),
            (State::Waiting { anomaly }, Event::Sampled(latest)) => (
                State::Rechecking { anomaly, latest },
                true,
            ),
            (State::Rechecking { anomaly, latest }, Event::Done) => {
                match recheck(&self.config, &anomaly, latest) {
                    Outcome::Resolved => (State::Resolved { latest }, true),
                    Outcome::UnresolvedReboot => (
                        State::Escalating { escalator: Escalator::new() },
                        true,
                    ),
                    Outcome::UnresolvedNoReboot => (State::Idle { previous: anomaly.current }, true),
                }
            },
            (State::Resolved { latest }, Event::Done) => (State::Idle { previous: latest }, true),
            (State::Escalating { escalator }, Event::Done) => (
                State::Escalating { escalator: escalator.advance(event) },
                true,
            ),
            _ => (state, false),
        };
        self.state = next;
        accepted
    }
}

} // verus!
