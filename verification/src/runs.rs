//! What holds of the controller over whole runs: sequences of events taken
//! in one after the other.

use vstd::prelude::*;
use crate::action::{Action, Event};
use crate::clock::{elapsed_between, Sample};
use crate::config::Configuration;
use crate::detector::{is_anomalous, Interval};
use crate::escalator::Escalator;
use crate::remediation::{accepts, fits, outcome, pending_action, step, Outcome, State};

verus! {

/// The state reached from `state` after all of `events`, first to last.
pub open spec fn run(config: Configuration, state: State, events: Seq<Event>) -> State
    decreases events.len(),
{
    if events.len() == 0 {
        state
    } else {
        run(config, step(config, state, events[0]), events.drop_first())
    }
}

/// How often the run from `state` over `events` enters the escalation: the
/// number of events that lead from a state other than `Escalating` into
/// `Escalating`.
pub open spec fn escalations(config: Configuration, state: State, events: Seq<Event>) -> nat
    decreases events.len(),
{
    if events.len() == 0 {
        0
    } else {
        let next = step(config, state, events[0]);
        let entered: nat = if !(state is Escalating) && next is Escalating {
            1
        } else {
            0
        };
        entered + escalations(config, next, events.drop_first())
    }
}

/// Every state that is reached fits the configuration, if the first one
/// does.
pub proof fn lemma_step_keeps_fit(config: Configuration, state: State, event: Event)
    requires
        fits(config, state),
    ensures
        fits(config, step(config, state, event)),
{
}

/// Every state that a run reaches fits the configuration, if the first one
/// does.
pub proof fn lemma_run_keeps_fit(config: Configuration, state: State, events: Seq<Event>)
    requires
        fits(config, state),
    ensures
        fits(config, run(config, state, events)),
    decreases events.len(),
{
    if events.len() > 0 {
        lemma_step_keeps_fit(config, state, events[0]);
        lemma_run_keeps_fit(config, step(config, state, events[0]), events.drop_first());
    }
}

/// A run over two sequences of events, one after the other, is the run over
/// the second from where the run over the first ended, and it enters the
/// escalation as often as the two together.
pub proof fn lemma_run_in_two(
    config: Configuration,
    state: State,
    first: Seq<Event>,
    second: Seq<Event>,
)
    ensures
        run(config, state, first + second) == run(config, run(config, state, first), second),
        escalations(config, state, first + second) == escalations(config, state, first)
            + escalations(config, run(config, state, first), second),
    decreases first.len(),
{
    if first.len() == 0 {
        assert(first + second =~= second);
    } else {
        assert((first + second).drop_first() =~= first.drop_first() + second);
        lemma_run_in_two(config, step(config, state, first[0]), first.drop_first(), second);
    }
}

/// A state accepts exactly the events that answer the work that is due in
/// it, and an event it does not accept changes nothing.
pub proof fn lemma_accepted_events_answer_pending(config: Configuration, state: State, event: Event)
    ensures
        accepts(state, event) == pending_action(config, state).answered_by(event),
        !accepts(state, event) ==> step(config, state, event) == state,
{
}

/// A reboot is requested in the escalation and nowhere else.
pub proof fn lemma_reboot_only_while_escalating(config: Configuration, state: State)
    ensures
        pending_action(config, state).is_reboot_request() <==> state is Escalating,
{
}

/// Nothing leads out of the escalation, and after its first request every
/// further one is forced.
pub proof fn lemma_escalation_is_final(config: Configuration, state: State, event: Event)
    requires
        state is Escalating,
    ensures
        step(config, state, event) is Escalating,
        event is Done ==> step(config, state, event) == (State::Escalating {
            escalator: Escalator::Forcing,
        }),
        pending_action(config, step(config, state, event)) is Reboot ==> pending_action(
            config,
            state,
        ) is Reboot && event is Sampled,
{
}

/// The escalation is entered in one way only: by the second look at a jump
/// that persists, where rebooting is enabled.
pub proof fn lemma_escalation_begins_at_recheck(config: Configuration, state: State, event: Event)
    requires
        !(state is Escalating),
        step(config, state, event) is Escalating,
    ensures
        event is Done,
        config.spec_reboot(),
        state matches State::Rechecking { anomaly, latest } && is_anomalous(
            elapsed_between(anomaly.previous@, latest@),
            config.spec_threshold()@,
        ),
        step(config, state, event) == (State::Escalating { escalator: Escalator::Requesting }),
{
}

/// A run that starts in the escalation stays in it and never enters it
/// anew.
pub proof fn lemma_escalating_run(config: Configuration, state: State, events: Seq<Event>)
    requires
        state is Escalating,
    ensures
        run(config, state, events) is Escalating,
        escalations(config, state, events) == 0,
    decreases events.len(),
{
    if events.len() > 0 {
        lemma_escalating_run(config, step(config, state, events[0]), events.drop_first());
    }
}

/// How often the run from `state` over `events` carries out the orderly
/// reboot request: the number of events that answer it.
pub open spec fn orderly_requests(config: Configuration, state: State, events: Seq<Event>) -> nat
    decreases events.len(),
{
    if events.len() == 0 {
        0
    } else {
        let answered: nat = if pending_action(config, state) is Reboot && accepts(
            state,
            events[0],
        ) {
            1
        } else {
            0
        };
        answered + orderly_requests(config, step(config, state, events[0]), events.drop_first())
    }
}

/// Once forced reboots are due, a run asks for nothing else and never goes
/// back to the orderly request.
pub proof fn lemma_forcing_run(config: Configuration, events: Seq<Event>)
    ensures
        run(config, State::Escalating { escalator: Escalator::Forcing }, events)
            == (State::Escalating { escalator: Escalator::Forcing }),
        orderly_requests(config, State::Escalating { escalator: Escalator::Forcing }, events) == 0,
    decreases events.len(),
{
    if events.len() > 0 {
        lemma_forcing_run(config, events.drop_first());
    }
}

/// No run carries out the orderly reboot request twice.
pub proof fn lemma_orderly_request_at_most_once(
    config: Configuration,
    state: State,
    events: Seq<Event>,
)
    ensures
        orderly_requests(config, state, events) <= 1,
        orderly_requests(config, state, events) == 1 ==> run(config, state, events)
            == (State::Escalating { escalator: Escalator::Forcing }),
    decreases events.len(),
{
    if events.len() > 0 {
        let next = step(config, state, events[0]);
        if pending_action(config, state) is Reboot && accepts(state, events[0]) {
            lemma_forcing_run(config, events.drop_first());
        } else {
            lemma_orderly_request_at_most_once(config, next, events.drop_first());
        }
    }
}

/// No run enters the escalation twice, and a run has entered it once exactly
/// when it ends in it without having started there.
pub proof fn lemma_escalates_at_most_once(config: Configuration, state: State, events: Seq<Event>)
    ensures
        escalations(config, state, events) <= 1,
        escalations(config, state, events) == 1 <==> !(state is Escalating) && run(
            config,
            state,
            events,
        ) is Escalating,
    decreases events.len(),
{
    if events.len() > 0 {
        let next = step(config, state, events[0]);
        if next is Escalating {
            lemma_escalating_run(config, next, events.drop_first());
        } else {
            lemma_escalates_at_most_once(config, next, events.drop_first());
        }
    }
}

/// Without a remedy command the second look follows the report at once,
/// with nothing run and nothing waited for, and it judges the very reading
/// that showed the jump: so it never finds the jump resolved, and what
/// follows depends on the reboot option alone.
pub proof fn lemma_recheck_is_immediate_without_command(config: Configuration, anomaly: Interval)
    requires
        !config.has_command(),
        fits(config, State::Detected { anomaly }),
    ensures
        step(config, State::Detected { anomaly }, Event::Done) == (State::Rechecking {
            anomaly,
            latest: anomaly.current,
        }),
        pending_action(config, State::Rechecking { anomaly, latest: anomaly.current })
            == Action::Proceed,
        outcome(config, anomaly, anomaly.current) != Outcome::Resolved,
        config.spec_reboot() ==> step(
            config,
            State::Rechecking { anomaly, latest: anomaly.current },
            Event::Done,
        ) == (State::Escalating { escalator: Escalator::Requesting }),
        !config.spec_reboot() ==> step(
            config,
            State::Rechecking { anomaly, latest: anomaly.current },
            Event::Done,
        ) == (State::Idle { previous: anomaly.current }),
{
}

/// The states a jump is taken through where a remedy command is configured
/// and the reading after the grace period is `latest`: the command is
/// started, waited for, and the jump judged by `latest`.
pub open spec fn remedied(config: Configuration, anomaly: Interval, latest: Sample) -> Seq<State> {
    seq![
        State::Detected { anomaly },
        State::Executing { anomaly },
        State::Waiting { anomaly },
        State::Rechecking { anomaly, latest },
        step(config, State::Rechecking { anomaly, latest }, Event::Done),
    ]
}

/// The events that take a jump through those states.
pub open spec fn remedy_events(latest: Sample) -> Seq<Event> {
    seq![Event::Done, Event::Done, Event::Sampled(latest), Event::Done]
}

/// With a remedy command each event in turn leads to the next of the states
/// of a remedied jump.
pub proof fn lemma_remedy_path(config: Configuration, anomaly: Interval, latest: Sample, i: int)
    requires
        config.has_command(),
        0 <= i < 4,
    ensures
        step(config, remedied(config, anomaly, latest)[i], remedy_events(latest)[i]) == remedied(
            config,
            anomaly,
            latest,
        )[i + 1],
{
}

/// Where the remedy command has brought the elapsed time back within the
/// threshold by the end of the grace period, the jump ends as resolved,
/// ticking resumes from the latest reading, and in none of the states on the
/// way is a reboot requested.
pub proof fn lemma_remedied_jump_resolves(config: Configuration, anomaly: Interval, latest: Sample)
    requires
        config.has_command(),
        elapsed_between(anomaly.previous@, latest@) <= config.spec_threshold()@,
    ensures
        outcome(config, anomaly, latest) == Outcome::Resolved,
        remedied(config, anomaly, latest)[4] == (State::Resolved { latest }),
        run(config, State::Detected { anomaly }, remedy_events(latest)) == (State::Resolved {
            latest,
        }),
        step(config, State::Resolved { latest }, Event::Done) == (State::Idle { previous: latest }),
        forall|i: int|
            0 <= i < 5 ==> !(#[trigger] pending_action(
                config,
                remedied(config, anomaly, latest)[i],
            )).is_reboot_request(),
        !pending_action(config, State::Idle { previous: latest }).is_reboot_request(),
        escalations(config, State::Detected { anomaly }, remedy_events(latest)) == 0,
{
    lemma_run_of_remedy(config, anomaly, latest);
    lemma_escalates_at_most_once(config, State::Detected { anomaly }, remedy_events(latest));
}

/// With a remedy command the run over the events of a remedied jump ends in
/// the last of its states.
pub proof fn lemma_run_of_remedy(config: Configuration, anomaly: Interval, latest: Sample)
    requires
        config.has_command(),
    ensures
        run(config, State::Detected { anomaly }, remedy_events(latest)) == remedied(
            config,
            anomaly,
            latest,
        )[4],
{
    let events = remedy_events(latest);
    let states = remedied(config, anomaly, latest);
    let e1 = events.drop_first();
    let e2 = e1.drop_first();
    let e3 = e2.drop_first();
    let e4 = e3.drop_first();
    assert(e4.len() == 0);
    assert(run(config, states[4], e4) == states[4]);
    assert(run(config, states[3], e3) == states[4]);
    assert(run(config, states[2], e2) == states[4]);
    assert(run(config, states[1], e1) == states[4]);
}

/// Where a remedy command is configured, the jump persists after the grace
/// period and rebooting is enabled, the controller enters the escalation,
/// and it does so exactly once, whatever events follow.
pub proof fn lemma_persisting_jump_escalates_once(
    config: Configuration,
    anomaly: Interval,
    latest: Sample,
    events: Seq<Event>,
)
    requires
        config.has_command(),
        config.spec_reboot(),
        elapsed_between(anomaly.previous@, latest@) > config.spec_threshold()@,
        events.len() >= 4,
        events.subrange(0, 4) == remedy_events(latest),
    ensures
        outcome(config, anomaly, latest) == Outcome::UnresolvedReboot,
        remedied(config, anomaly, latest)[4] == (State::Escalating {
            escalator: Escalator::Requesting,
        }),
        run(config, State::Detected { anomaly }, events) is Escalating,
        escalations(config, State::Detected { anomaly }, events) == 1,
{
    let rest = events.subrange(4, events.len() as int);
    assert(events =~= remedy_events(latest) + rest);
    lemma_run_of_remedy(config, anomaly, latest);
    lemma_run_in_two(config, State::Detected { anomaly }, remedy_events(latest), rest);
    lemma_escalating_run(config, remedied(config, anomaly, latest)[4], rest);
    lemma_escalates_at_most_once(config, State::Detected { anomaly }, events);
}

} // verus!
