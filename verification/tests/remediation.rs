use datemon::action::{Action, Event, FORCE_INTERVAL_SECS, TICK_SECS};
use datemon::clock::{Sample, Span};
use datemon::config::Configuration;
use datemon::detector::Interval;
use datemon::escalator::Escalator;
use datemon::remediation::{recheck, Controller, Outcome, State};

fn at(secs: i64) -> Sample {
    Sample::new(secs, 0).unwrap()
}

fn options(command: Option<&str>, grace_secs: u64, reboot: bool) -> Configuration {
    Configuration::new(
        Span::from_secs(10),
        command.map(String::from),
        Span::from_secs(grace_secs),
        reboot,
    )
    .unwrap()
}

/// Performs `steps` actions on a clock that yields `readings` in turn, and
/// returns the actions together with the state each one left behind.
fn drive(controller: &mut Controller, readings: &[Sample], steps: usize) -> Vec<(Action, State)> {
    let mut taken = 0;
    let mut log = Vec::new();
    for _ in 0..steps {
        let action = controller.pending();
        let event = match action {
            Action::ReadClock { .. } => {
                taken += 1;
                Event::Sampled(readings[taken - 1])
            }
            _ => Event::Done,
        };
        assert!(action.is_answered_by(&event));
        assert!(controller.advance(event));
        log.push((action, controller.state()));
    }
    log
}

fn tick() -> Action {
    Action::ReadClock { after: Span::from_secs(1) }
}

#[test]
fn constants_of_the_protocol() {
    assert_eq!(TICK_SECS, 1);
    assert_eq!(FORCE_INTERVAL_SECS, 120);
}

#[test]
fn a_new_controller_ticks() {
    let controller = Controller::new(options(None, 300, false), at(500));
    assert_eq!(controller.state(), State::Idle { previous: at(500) });
    assert_eq!(controller.pending(), tick());
    assert_eq!(controller.config().threshold(), Span::from_secs(10));
}

#[test]
fn normal_ticks_move_the_previous_reading_along() {
    let mut controller = Controller::new(options(Some("fix"), 5, true), at(100));
    let log = drive(&mut controller, &[at(101), at(102), at(112), at(90), at(100)], 5);
    assert_eq!(
        log,
        vec![
            (tick(), State::Idle { previous: at(101) }),
            (tick(), State::Idle { previous: at(102) }),
            (tick(), State::Idle { previous: at(112) }),
            (tick(), State::Idle { previous: at(90) }),
            (tick(), State::Idle { previous: at(100) }),
        ]
    );
}

#[test]
fn jump_without_command_or_reboot_is_reported_and_tolerated() {
    let mut controller = Controller::new(options(None, 300, false), at(1_000));
    let anomaly = Interval::new(at(1_000), at(1_015));
    let log = drive(&mut controller, &[at(1_015), at(1_016)], 4);
    assert_eq!(
        log,
        vec![
            (tick(), State::Detected { anomaly }),
            (Action::Report { anomaly }, State::Rechecking { anomaly, latest: at(1_015) }),
            (Action::Proceed, State::Idle { previous: at(1_015) }),
            (tick(), State::Idle { previous: at(1_016) }),
        ]
    );
    assert!(log.iter().all(|(action, _)| !action.requests_reboot()));
}

#[test]
fn jump_that_outlasts_the_command_is_tolerated_without_reboot() {
    let mut controller = Controller::new(options(Some("fix-clock"), 5, false), at(1_000));
    let anomaly = Interval::new(at(1_000), at(1_020));
    let log = drive(&mut controller, &[at(1_020), at(1_020), at(1_021)], 6);
    assert_eq!(
        log,
        vec![
            (tick(), State::Detected { anomaly }),
            (Action::Report { anomaly }, State::Executing { anomaly }),
            (Action::Execute { command: String::from("fix-clock") }, State::Waiting { anomaly }),
            (
                Action::ReadClock { after: Span::from_secs(5) },
                State::Rechecking { anomaly, latest: at(1_020) },
            ),
            (Action::Proceed, State::Idle { previous: at(1_020) }),
            (tick(), State::Idle { previous: at(1_021) }),
        ]
    );
    assert!(log.iter().all(|(action, _)| !action.requests_reboot()));
}

#[test]
fn jump_that_outlasts_the_command_leads_to_reboot() {
    let mut controller = Controller::new(options(Some("fix-clock"), 5, true), at(1_000));
    let anomaly = Interval::new(at(1_000), at(1_020));
    let log = drive(&mut controller, &[at(1_020), at(1_025)], 10);
    let forced = Action::ForceReboot { after: Span::from_secs(120) };
    let forcing = State::Escalating { escalator: Escalator::Forcing };
    assert_eq!(
        log[..6],
        [
            (tick(), State::Detected { anomaly }),
            (Action::Report { anomaly }, State::Executing { anomaly }),
            (Action::Execute { command: String::from("fix-clock") }, State::Waiting { anomaly }),
            (
                Action::ReadClock { after: Span::from_secs(5) },
                State::Rechecking { anomaly, latest: at(1_025) },
            ),
            (Action::Proceed, State::Escalating { escalator: Escalator::Requesting }),
            (Action::Reboot, forcing),
        ]
    );
    for entry in &log[6..] {
        assert_eq!(entry, &(forced.clone(), forcing));
    }
    let orderly = log.iter().filter(|(action, _)| *action == Action::Reboot).count();
    assert_eq!(orderly, 1);
}

#[test]
fn forced_reboots_follow_every_two_minutes_of_virtual_time() {
    let mut controller = Controller::new(options(None, 0, true), at(0));
    let log = drive(&mut controller, &[at(1_000)], 54);
    let mut clock: u64 = 0;
    let mut orderly = Vec::new();
    let mut forced = Vec::new();
    for (action, _) in &log {
        match action {
            Action::ReadClock { after } => clock += after.secs(),
            Action::Reboot => orderly.push(clock),
            Action::ForceReboot { after } => {
                clock += after.secs();
                forced.push(clock);
            }
            _ => {}
        }
    }
    assert_eq!(orderly, vec![1]);
    assert_eq!(forced.len(), 50);
    for (i, when) in forced.iter().enumerate() {
        assert_eq!(*when, 1 + 120 * (i as u64 + 1));
    }
    assert_eq!(controller.state(), State::Escalating { escalator: Escalator::Forcing });
}

#[test]
fn jump_without_command_leads_straight_to_reboot_where_enabled() {
    let mut controller = Controller::new(options(None, 300, true), at(1_000));
    let anomaly = Interval::new(at(1_000), at(1_015));
    let log = drive(&mut controller, &[at(1_015)], 4);
    assert_eq!(
        log,
        vec![
            (tick(), State::Detected { anomaly }),
            (Action::Report { anomaly }, State::Rechecking { anomaly, latest: at(1_015) }),
            (Action::Proceed, State::Escalating { escalator: Escalator::Requesting }),
            (Action::Reboot, State::Escalating { escalator: Escalator::Forcing }),
        ]
    );
}

#[test]
fn jump_that_the_command_undoes_is_resolved() {
    let mut controller = Controller::new(options(Some("fix-clock"), 5, true), at(1_000));
    let anomaly = Interval::new(at(1_000), at(90_000));
    let log = drive(&mut controller, &[at(90_000), at(1_006), at(1_007)], 7);
    assert_eq!(
        log,
        vec![
            (tick(), State::Detected { anomaly }),
            (Action::Report { anomaly }, State::Executing { anomaly }),
            (Action::Execute { command: String::from("fix-clock") }, State::Waiting { anomaly }),
            (
                Action::ReadClock { after: Span::from_secs(5) },
                State::Rechecking { anomaly, latest: at(1_006) },
            ),
            (Action::Proceed, State::Resolved { latest: at(1_006) }),
            (Action::Proceed, State::Idle { previous: at(1_006) }),
            (tick(), State::Idle { previous: at(1_007) }),
        ]
    );
    assert!(log.iter().all(|(action, _)| !action.requests_reboot()));
}

#[test]
fn recheck_measures_from_the_reading_before_the_jump() {
    let mut controller = Controller::new(options(Some("fix-clock"), 5, false), at(1_000));
    // Ten seconds after the reading before the jump is still within the
    // threshold, though the clock went back by far more than that.
    let log = drive(&mut controller, &[at(5_000), at(1_010)], 5);
    assert_eq!(log[4].1, State::Resolved { latest: at(1_010) });
    let mut controller = Controller::new(options(Some("fix-clock"), 5, false), at(1_000));
    let late = Sample::new(1_010, 1).unwrap();
    let log = drive(&mut controller, &[at(5_000), late], 5);
    assert_eq!(log[4].1, State::Idle { previous: at(5_000) });
}

#[test]
fn recheck_gives_each_of_the_three_outcomes() {
    let anomaly = Interval::new(at(1_000), at(1_020));
    let with_reboot = options(Some("fix-clock"), 5, true);
    let without_reboot = options(Some("fix-clock"), 5, false);
    assert_eq!(recheck(&with_reboot, &anomaly, at(1_010)), Outcome::Resolved);
    assert_eq!(recheck(&without_reboot, &anomaly, at(1_010)), Outcome::Resolved);
    assert_eq!(recheck(&with_reboot, &anomaly, at(900)), Outcome::Resolved);
    assert_eq!(recheck(&with_reboot, &anomaly, at(1_011)), Outcome::UnresolvedReboot);
    assert_eq!(recheck(&without_reboot, &anomaly, at(1_011)), Outcome::UnresolvedNoReboot);
}

#[test]
fn an_event_that_answers_nothing_changes_nothing() {
    let mut controller = Controller::new(options(Some("fix-clock"), 5, true), at(1_000));
    assert!(!controller.advance(Event::Done));
    assert_eq!(controller.state(), State::Idle { previous: at(1_000) });
    assert!(controller.advance(Event::Sampled(at(2_000))));
    let anomaly = Interval::new(at(1_000), at(2_000));
    assert_eq!(controller.state(), State::Detected { anomaly });
    assert!(!controller.advance(Event::Sampled(at(2_001))));
    assert_eq!(controller.state(), State::Detected { anomaly });
    assert!(controller.advance(Event::Done));
    assert!(!controller.advance(Event::Sampled(at(2_001))));
    assert_eq!(controller.state(), State::Executing { anomaly });
    assert!(controller.advance(Event::Done));
    assert!(!controller.advance(Event::Done));
    assert_eq!(controller.state(), State::Waiting { anomaly });
    assert!(controller.advance(Event::Sampled(at(2_005))));
    assert!(!controller.advance(Event::Sampled(at(2_006))));
    assert_eq!(controller.state(), State::Rechecking { anomaly, latest: at(2_005) });
    assert!(controller.advance(Event::Done));
    assert!(!controller.advance(Event::Sampled(at(2_006))));
    assert_eq!(controller.state(), State::Escalating { escalator: Escalator::Requesting });
    assert_eq!(controller.pending(), Action::Reboot);
}

#[test]
fn escalator_requests_once_then_forces() {
    let escalator = Escalator::new();
    assert_eq!(escalator, Escalator::Requesting);
    assert_eq!(escalator.pending(), Action::Reboot);
    assert_eq!(escalator.advance(Event::Sampled(at(0))), Escalator::Requesting);
    let forcing = escalator.advance(Event::Done);
    assert_eq!(forcing, Escalator::Forcing);
    assert_eq!(forcing.pending(), Action::ForceReboot { after: Span::from_secs(120) });
    assert_eq!(forcing.advance(Event::Done), Escalator::Forcing);
    assert_eq!(forcing.advance(Event::Sampled(at(0))), Escalator::Forcing);
}

#[test]
fn actions_know_their_answers() {
    let reading = Event::Sampled(at(0));
    assert!(tick().is_answered_by(&reading));
    assert!(!tick().is_answered_by(&Event::Done));
    let others = [
        Action::Report { anomaly: Interval::new(at(0), at(1)) },
        Action::Execute { command: String::from("true") },
        Action::Proceed,
        Action::Reboot,
        Action::ForceReboot { after: Span::from_secs(120) },
    ];
    for action in &others {
        assert!(action.is_answered_by(&Event::Done));
        assert!(!action.is_answered_by(&reading));
    }
    assert!(!tick().requests_reboot());
    assert!(!others[0].requests_reboot());
    assert!(!others[1].requests_reboot());
    assert!(!others[2].requests_reboot());
    assert!(others[3].requests_reboot());
    assert!(others[4].requests_reboot());
    assert_eq!(others[1].clone(), others[1]);
}
