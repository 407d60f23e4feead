//! Runs of the tracker over whole sequences of events, and what holds of
//! every such run.

use vstd::prelude::*;
use crate::event::{ControlEvent, EventView};
use crate::session::{DeliveryMode, DeviceIdentityView, SessionView};
use crate::time::Timestamp;
use crate::tracker::{named, next_state, step_for, tracks, Flow, SealingView, StepView,
    TrackerStateView};

verus! {

/// An event together with the clock reading at which it is handled.
pub struct TimedEvent {
    pub event: EventView,
    pub at: Timestamp,
}

/// The state after handling `events` in order, starting in `state`.
pub open spec fn run_state(state: TrackerStateView, events: Seq<TimedEvent>) -> TrackerStateView
    decreases events.len(),
{
    if events.len() == 0 {
        state
    } else {
        next_state(run_state(state, events.drop_last()), events.last().event, events.last().at)
    }
}

/// The sealings of handling `events` in order, starting in `state`: one entry
/// for each event.
pub open spec fn run_sealings(
    state: TrackerStateView,
    events: Seq<TimedEvent>,
    identity: DeviceIdentityView,
) -> Seq<SealingView>
    decreases events.len(),
{
    if events.len() == 0 {
        Seq::empty()
    } else {
        run_sealings(state, events.drop_last(), identity).push(
            step_for(
                run_state(state, events.drop_last()),
                events.last().event,
                events.last().at,
                identity,
            ).sealing,
        )
    }
}

/// No clock reading is earlier than one before it.
pub open spec fn monotone(events: Seq<TimedEvent>) -> bool {
    forall|i: int, j: int|
        0 <= i <= j < events.len() ==> (#[trigger] events[i]).at.at_or_before(
            (#[trigger] events[j]).at,
        )
}

/// Number of sessions closed, delivered or dropped.
pub open spec fn closed_count(sealings: Seq<SealingView>) -> nat
    decreases sealings.len(),
{
    if sealings.len() == 0 {
        0
    } else {
        closed_count(sealings.drop_last()) + if sealings.last() is Nothing {
            0nat
        } else {
            1nat
        }
    }
}

/// Number of sessions handed over for delivery.
pub open spec fn delivered_count(sealings: Seq<SealingView>) -> nat
    decreases sealings.len(),
{
    if sealings.len() == 0 {
        0
    } else {
        delivered_count(sealings.drop_last()) + if sealings.last() is Deliver {
            1nat
        } else {
            0nat
        }
    }
}

/// Number of sessions closed but not delivered.
pub open spec fn dropped_count(sealings: Seq<SealingView>) -> nat
    decreases sealings.len(),
{
    if sealings.len() == 0 {
        0
    } else {
        dropped_count(sealings.drop_last()) + if sealings.last() is Dropped {
            1nat
        } else {
            0nat
        }
    }
}

/// Number of maximal runs of equal consecutive names.
pub open spec fn name_runs(names: Seq<Seq<char>>) -> nat
    decreases names.len(),
{
    if names.len() == 0 {
        0
    } else {
        name_runs(names.drop_last()) + if names.len() >= 2 && names[names.len() - 2]
            == names.last() {
            0nat
        } else {
            1nat
        }
    }
}

/// The names that name an application: `names` without the empty ones, in
/// the same order. A focus event with an empty name is no event.
pub open spec fn named_only(names: Seq<Seq<char>>) -> Seq<Seq<char>>
    decreases names.len(),
{
    if names.len() == 0 {
        Seq::empty()
    } else if names.last().len() == 0 {
        named_only(names.drop_last())
    } else {
        named_only(names.drop_last()).push(names.last())
    }
}

/// Where no name is empty, every name counts.
pub proof fn lemma_named_only_keeps_names(names: Seq<Seq<char>>)
    requires
        forall|i: int| 0 <= i < names.len() ==> (#[trigger] names[i]).len() > 0,
    ensures
        named_only(names) == names,
    decreases names.len(),
{
    if names.len() > 0 {
        lemma_named_only_keeps_names(names.drop_last());
        assert(names.drop_last().push(names.last()) =~= names);
    }
}

/// The focus events for `names`, the i-th handled at `times[i]`.
pub open spec fn focus_events(names: Seq<Seq<char>>, times: Seq<Timestamp>) -> Seq<TimedEvent> {
    Seq::new(names.len(), |i: int| TimedEvent { event: EventView::Focus(names[i]), at: times[i] })
}

/// 1 while a session is open, 0 while none is.
pub open spec fn open_count(state: TrackerStateView) -> nat {
    if state is Tracking {
        1
    } else {
        0
    }
}

/// A run yields one sealing for each event, and the k-th is the one of the
/// step taken from the state after the first k events.
pub proof fn lemma_sealing_at(
    state: TrackerStateView,
    events: Seq<TimedEvent>,
    identity: DeviceIdentityView,
    k: int,
)
    requires
        0 <= k < events.len(),
    ensures
        run_sealings(state, events, identity).len() == events.len(),
        run_sealings(state, events, identity)[k] == step_for(
            run_state(state, events.take(k)),
            events[k].event,
            events[k].at,
            identity,
        ).sealing,
    decreases events.len(),
{
    let front = events.drop_last();
    lemma_sealings_len(state, front, identity);
    if k == events.len() - 1 {
        assert(events.take(k) =~= front);
    } else {
        lemma_sealing_at(state, front, identity, k);
        assert(front.take(k) =~= events.take(k));
    }
}

/// A run yields one sealing for each event.
pub proof fn lemma_sealings_len(
    state: TrackerStateView,
    events: Seq<TimedEvent>,
    identity: DeviceIdentityView,
)
    ensures
        run_sealings(state, events, identity).len() == events.len(),
    decreases events.len(),
{
    if events.len() > 0 {
        lemma_sealings_len(state, events.drop_last(), identity);
    }
}

/// Every closed session is either delivered or dropped.
pub proof fn lemma_closed_is_delivered_or_dropped(sealings: Seq<SealingView>)
    ensures
        closed_count(sealings) == delivered_count(sealings) + dropped_count(sealings),
    decreases sealings.len(),
{
    if sealings.len() > 0 {
        lemma_closed_is_delivered_or_dropped(sealings.drop_last());
    }
}

/// Each maximal run of equal consecutive application names accounts for
/// exactly one session: after any sequence of focus events handled from the
/// idle state, the sessions closed so far, delivered or dropped, and the one
/// still open are together as many as the runs of names. Empty names do not
/// count: they name no application. The open session is that of the last
/// name.
pub proof fn lemma_one_session_per_run(
    names: Seq<Seq<char>>,
    times: Seq<Timestamp>,
    identity: DeviceIdentityView,
)
    requires
        names.len() == times.len(),
    ensures
        closed_count(
            run_sealings(TrackerStateView::Idle, focus_events(names, times), identity),
        ) + open_count(run_state(TrackerStateView::Idle, focus_events(names, times)))
            == name_runs(named_only(names)),
        named_only(names).len() == 0 ==> run_state(
            TrackerStateView::Idle,
            focus_events(names, times),
        ) == TrackerStateView::Idle,
        named_only(names).len() > 0 ==> tracks(
            run_state(TrackerStateView::Idle, focus_events(names, times)),
            named_only(names).last(),
        ),
    decreases names.len(),
{
    let events = focus_events(names, times);
    if names.len() > 0 {
        let front = focus_events(names.drop_last(), times.drop_last());
        assert(events.drop_last() =~= front);
        lemma_one_session_per_run(names.drop_last(), times.drop_last(), identity);
        let sealings = run_sealings(TrackerStateView::Idle, events, identity);
        assert(sealings.drop_last() =~= run_sealings(TrackerStateView::Idle, front, identity));
        assert(events.last().event == EventView::Focus(names.last()));
        if names.last().len() > 0 {
            let kept = named_only(names.drop_last());
            let all = named_only(names);
            assert(all == kept.push(names.last()));
            assert(all.drop_last() =~= kept);
            assert(all.last() == names.last());
            if kept.len() > 0 {
                assert(all[all.len() - 2] == kept.last());
            }
        }
    }
}

/// A shutdown after any sequence of focus events leaves exactly one closed
/// session, delivered or dropped, for each maximal run of equal consecutive
/// names, empty names left aside, and no session open.
pub proof fn lemma_sessions_equal_runs_at_shutdown(
    names: Seq<Seq<char>>,
    times: Seq<Timestamp>,
    shutdown_at: Timestamp,
    identity: DeviceIdentityView,
)
    requires
        names.len() == times.len(),
    ensures
        ({
            let events = focus_events(names, times).push(
                TimedEvent {
                    event: EventView::Control(ControlEvent::ShutdownRequested),
                    at: shutdown_at,
                },
            );
            let sealings = run_sealings(TrackerStateView::Idle, events, identity);
            &&& delivered_count(sealings) + dropped_count(sealings) == name_runs(
                named_only(names),
            )
            &&& run_state(TrackerStateView::Idle, events) == TrackerStateView::Idle
        }),
{
    let focus = focus_events(names, times);
    let last = TimedEvent {
        event: EventView::Control(ControlEvent::ShutdownRequested),
        at: shutdown_at,
    };
    let events = focus.push(last);
    assert(events.drop_last() =~= focus);
    lemma_one_session_per_run(names, times, identity);
    let sealings = run_sealings(TrackerStateView::Idle, events, identity);
    assert(sealings.drop_last() =~= run_sealings(TrackerStateView::Idle, focus, identity));
    lemma_closed_is_delivered_or_dropped(sealings);
}

/// A step never opens a session under an empty name.
pub proof fn lemma_step_keeps_sessions_named(
    state: TrackerStateView,
    event: EventView,
    now: Timestamp,
)
    requires
        named(state),
    ensures
        named(next_state(state, event, now)),
{
}

/// No session is open under an empty name, whatever events a run from the
/// idle state has handled.
pub proof fn lemma_open_name_is_not_empty(events: Seq<TimedEvent>, k: int)
    requires
        0 <= k <= events.len(),
    ensures
        named(run_state(TrackerStateView::Idle, events.take(k))),
    decreases k,
{
    if k > 0 {
        lemma_open_name_is_not_empty(events, k - 1);
        assert(events.take(k).drop_last() =~= events.take(k - 1));
        lemma_step_keeps_sessions_named(
            run_state(TrackerStateView::Idle, events.take(k - 1)),
            events.take(k).last().event,
            events.take(k).last().at,
        );
    }
}

/// No session is delivered under an empty name, whatever events a run from
/// the idle state has handled: a delivered session carries the name of the
/// focus event that opened it, and an empty name opens none.
pub proof fn lemma_delivered_name_is_not_empty(
    events: Seq<TimedEvent>,
    identity: DeviceIdentityView,
    k: int,
)
    requires
        0 <= k < events.len(),
    ensures
        run_sealings(TrackerStateView::Idle, events, identity)[k] matches SealingView::Deliver {
            session,
            ..
        } ==> session.app_name.len() > 0,
{
    lemma_sealing_at(TrackerStateView::Idle, events, identity, k);
}

/// A session that is open after some events of a run was opened at one of
/// them: it starts at the clock reading of an earlier event.
pub proof fn lemma_open_session_started_in_run(events: Seq<TimedEvent>, k: int)
    requires
        0 <= k <= events.len(),
    ensures
        run_state(TrackerStateView::Idle, events.take(k)) matches TrackerStateView::Tracking {
            start_time,
            ..
        } ==> exists|j: int| 0 <= j < k && start_time == (#[trigger] events[j]).at,
    decreases k,
{
    if k > 0 {
        lemma_open_session_started_in_run(events, k - 1);
        assert(events.take(k).drop_last() =~= events.take(k - 1));
        assert(events.take(k).last() == events[k - 1]);
        if let TrackerStateView::Tracking { start_time, .. } = run_state(
            TrackerStateView::Idle,
            events.take(k),
        ) {
            if start_time == events[k - 1].at {
                assert(0 <= k - 1 < k && start_time == events[k - 1].at);
            } else {
                let j = choose|j: int| 0 <= j < k - 1 && start_time == (#[trigger] events[j]).at;
                assert(0 <= j < k && start_time == events[j].at);
            }
        }
    }
}

/// With a clock that never runs backwards, a session that is open after an
/// event that closed one does not start before that event.
pub proof fn lemma_open_session_starts_after_close(
    events: Seq<TimedEvent>,
    identity: DeviceIdentityView,
    i: int,
    k: int,
)
    requires
        monotone(events),
        0 <= i < k <= events.len(),
        !(run_sealings(TrackerStateView::Idle, events, identity)[i] is Nothing),
    ensures
        run_state(TrackerStateView::Idle, events.take(k)) matches TrackerStateView::Tracking {
            start_time,
            ..
        } ==> events[i].at.at_or_before(start_time),
    decreases k,
{
    assert(events.take(k).drop_last() =~= events.take(k - 1));
    assert(events.take(k).last() == events[k - 1]);
    assert(events[i].at.at_or_before(events[k - 1].at));
    if k == i + 1 {
        lemma_sealing_at(TrackerStateView::Idle, events, identity, i);
    } else {
        lemma_open_session_starts_after_close(events, identity, i, k - 1);
    }
}

/// No two delivered sessions overlap: with a clock that never runs
/// backwards, of any two sessions that a run from the idle state hands over
/// for delivery, the earlier has ended when the later starts. Both carry the
/// identity of the one device.
pub proof fn lemma_delivered_sessions_do_not_overlap(
    events: Seq<TimedEvent>,
    identity: DeviceIdentityView,
    i: int,
    j: int,
)
    requires
        monotone(events),
        0 <= i < j < events.len(),
        run_sealings(TrackerStateView::Idle, events, identity)[i] is Deliver,
        run_sealings(TrackerStateView::Idle, events, identity)[j] is Deliver,
    ensures
        ({
            let sealings = run_sealings(TrackerStateView::Idle, events, identity);
            let first = sealings[i]->Deliver_session;
            let second = sealings[j]->Deliver_session;
            &&& first.end_time.at_or_before(second.start_time)
            &&& !first.overlaps(second)
            &&& first.device_id == identity.device_id
            &&& second.device_id == identity.device_id
        }),
{
    lemma_sealing_at(TrackerStateView::Idle, events, identity, i);
    lemma_sealing_at(TrackerStateView::Idle, events, identity, j);
    lemma_open_session_starts_after_close(events, identity, i, j);
}

/// What is delivered is long enough and what is dropped is not, and with a
/// clock that never runs backwards no closed session ends before it started:
/// a dropped one ends at the very moment it started.
pub proof fn lemma_closed_sessions_are_well_ordered(
    events: Seq<TimedEvent>,
    identity: DeviceIdentityView,
    k: int,
)
    requires
        0 <= k < events.len(),
    ensures
        match run_sealings(TrackerStateView::Idle, events, identity)[k] {
            SealingView::Nothing => true,
            SealingView::Deliver { session, .. } => {
                &&& session.start_time.precedes(session.end_time)
                &&& session.end_time == events[k].at
            },
            SealingView::Dropped { start_time, end_time, .. } => {
                &&& !start_time.precedes(end_time)
                &&& end_time == events[k].at
                &&& monotone(events) ==> start_time.nanos_since_epoch()
                    == end_time.nanos_since_epoch()
            },
        },
{
    lemma_sealing_at(TrackerStateView::Idle, events, identity, k);
    lemma_open_session_started_in_run(events, k);
    lemma_open_name_is_not_empty(events, k);
    if let TrackerStateView::Tracking { start_time, .. } = run_state(
        TrackerStateView::Idle,
        events.take(k),
    ) {
        let j = choose|j: int| 0 <= j < k && start_time == (#[trigger] events[j]).at;
        if monotone(events) {
            assert(events[j].at.at_or_before(events[k].at));
        }
    }
}

/// The clock reading of every event lies after the one before it.
pub open spec fn strictly_increasing(events: Seq<TimedEvent>) -> bool {
    forall|i: int, j: int|
        0 <= i < j < events.len() ==> (#[trigger] events[i]).at.precedes((#[trigger] events[j]).at)
}

/// With a clock that advances between any two events, no session of a run
/// from the idle state is dropped.
pub proof fn lemma_advancing_clock_drops_nothing(
    events: Seq<TimedEvent>,
    identity: DeviceIdentityView,
)
    requires
        strictly_increasing(events),
    ensures
        dropped_count(run_sealings(TrackerStateView::Idle, events, identity)) == 0,
        delivered_count(run_sealings(TrackerStateView::Idle, events, identity)) == closed_count(
            run_sealings(TrackerStateView::Idle, events, identity),
        ),
    decreases events.len(),
{
    let sealings = run_sealings(TrackerStateView::Idle, events, identity);
    lemma_closed_is_delivered_or_dropped(sealings);
    if events.len() > 0 {
        let front = events.drop_last();
        let k = events.len() - 1;
        assert forall|i: int, j: int| 0 <= i < j < front.len() implies (#[trigger] front[i]).at.precedes(
            (#[trigger] front[j]).at,
        ) by {
            assert(front[i] == events[i] && front[j] == events[j]);
        }
        lemma_advancing_clock_drops_nothing(front, identity);
        assert(sealings.drop_last() =~= run_sealings(TrackerStateView::Idle, front, identity));
        assert(events.take(k) =~= front);
        lemma_open_session_started_in_run(events, k);
        lemma_open_name_is_not_empty(events, k);
        if let TrackerStateView::Tracking { start_time, .. } = run_state(
            TrackerStateView::Idle,
            front,
        ) {
            let j = choose|j: int| 0 <= j < k && start_time == (#[trigger] events[j]).at;
            assert(events[j].at.precedes(events[k].at));
        }
        assert(!(sealings.last() is Dropped));
    }
}

/// With a clock that advances between any two events, a shutdown after a
/// sequence of focus events has delivered exactly one session for each
/// maximal run of equal consecutive names, empty names left aside.
pub proof fn lemma_delivered_sessions_equal_runs(
    names: Seq<Seq<char>>,
    times: Seq<Timestamp>,
    shutdown_at: Timestamp,
    identity: DeviceIdentityView,
)
    requires
        names.len() == times.len(),
        strictly_increasing(
            focus_events(names, times).push(
                TimedEvent {
                    event: EventView::Control(ControlEvent::ShutdownRequested),
                    at: shutdown_at,
                },
            ),
        ),
    ensures
        delivered_count(
            run_sealings(
                TrackerStateView::Idle,
                focus_events(names, times).push(
                    TimedEvent {
                        event: EventView::Control(ControlEvent::ShutdownRequested),
                        at: shutdown_at,
                    },
                ),
                identity,
            ),
        ) == name_runs(named_only(names)),
{
    let events = focus_events(names, times).push(
        TimedEvent { event: EventView::Control(ControlEvent::ShutdownRequested), at: shutdown_at },
    );
    lemma_sessions_equal_runs_at_shutdown(names, times, shutdown_at, identity);
    lemma_advancing_clock_drops_nothing(events, identity);
}

/// Whether every name is `app_name`.
pub open spec fn all_named(names: Seq<Seq<char>>, app_name: Seq<char>) -> bool {
    forall|i: int| 0 <= i < names.len() ==> #[trigger] names[i] == app_name
}

/// Repeated focus events for the application that is already tracked change
/// nothing: the session stays open with its start time, and every step
/// closes nothing.
pub proof fn lemma_repeated_focus_is_ignored(
    app_name: Seq<char>,
    start_time: Timestamp,
    names: Seq<Seq<char>>,
    times: Seq<Timestamp>,
    identity: DeviceIdentityView,
)
    requires
        names.len() == times.len(),
        all_named(names, app_name),
    ensures
        ({
            let state = TrackerStateView::Tracking { app_name, start_time };
            let events = focus_events(names, times);
            &&& run_state(state, events) == state
            &&& closed_count(run_sealings(state, events, identity)) == 0
            &&& forall|k: int|
                0 <= k < events.len() ==> #[trigger] run_sealings(state, events, identity)[k]
                    == SealingView::Nothing
        }),
    decreases names.len(),
{
    let state = TrackerStateView::Tracking { app_name, start_time };
    let events = focus_events(names, times);
    if names.len() > 0 {
        let front = focus_events(names.drop_last(), times.drop_last());
        assert(events.drop_last() =~= front);
        lemma_repeated_focus_is_ignored(
            app_name,
            start_time,
            names.drop_last(),
            times.drop_last(),
            identity,
        );
        assert(names.last() == app_name);
        assert(events.last().event == EventView::Focus(app_name));
        let sealings = run_sealings(state, events, identity);
        let before = run_sealings(state, front, identity);
        lemma_sealings_len(state, front, identity);
        assert(sealings == before.push(SealingView::Nothing));
        assert(sealings.drop_last() =~= before);
        assert forall|k: int| 0 <= k < events.len() implies #[trigger] sealings[k]
            == SealingView::Nothing by {
            if k < events.len() - 1 {
                assert(sealings[k] == before[k]);
            }
        }
    }
}

/// A shutdown or exit request while a session is open closes exactly that
/// session, for a delivery that is waited for, where `now` lies after its
/// start (one that has no length is dropped instead); while idle it closes
/// nothing. Either way the loop ends with the tracker idle. The open session
/// has a name, as every session that the tracker opens has.
pub proof fn lemma_shutdown_flushes_once(
    state: TrackerStateView,
    control: ControlEvent,
    now: Timestamp,
    identity: DeviceIdentityView,
)
    requires
        control != ControlEvent::ReconfigureRequested,
        named(state),
    ensures
        ({
            let step = step_for(state, EventView::Control(control), now, identity);
            &&& step.flow == Flow::Exit
            &&& next_state(state, EventView::Control(control), now) == TrackerStateView::Idle
            &&& state is Idle ==> step.sealing == SealingView::Nothing
            &&& state matches TrackerStateView::Tracking { app_name, start_time } ==> {
                if start_time.precedes(now) {
                    step.sealing == (SealingView::Deliver {
                        session: SessionView::sealed(app_name, start_time, now, identity),
                        mode: DeliveryMode::Blocking,
                    })
                } else {
                    step.sealing == (SealingView::Dropped { app_name, start_time, end_time: now })
                }
            }
        }),
{
}

/// A reconfigure request closes nothing and leaves the state as it is: the
/// open session is not flushed. The loop ends for the configurator.
pub proof fn lemma_reconfigure_flushes_nothing(
    state: TrackerStateView,
    now: Timestamp,
    identity: DeviceIdentityView,
)
    ensures
        step_for(state, EventView::Control(ControlEvent::ReconfigureRequested), now, identity)
            == (StepView { sealing: SealingView::Nothing, flow: Flow::Reconfigure }),
        next_state(state, EventView::Control(ControlEvent::ReconfigureRequested), now) == state,
{
}

} // verus!
