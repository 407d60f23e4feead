//! The session tracker: the state machine that owns the one open session and
//! decides when it is closed and how it leaves.

use vstd::prelude::*;
use crate::event::{ControlEvent, Event, EventView};
use crate::session::{sealable, DeliveryMode, DeviceIdentity, DeviceIdentityView, Session,
    SessionView};
use crate::time::Timestamp;

verus! {

/// What the tracker knows between two events.
#[derive(Clone, Debug)]
pub enum TrackerState {
    /// No session is open.
    Idle,
    /// `app_name` has held the foreground since `start_time`.
    Tracking { app_name: String, start_time: Timestamp },
}

/// A tracker state as plain values.
pub enum TrackerStateView {
    Idle,
    Tracking { app_name: Seq<char>, start_time: Timestamp },
}

impl View for TrackerState {
    type V = TrackerStateView;

    open spec fn view(&self) -> TrackerStateView {
        match self {
            TrackerState::Idle => TrackerStateView::Idle,
            TrackerState::Tracking { app_name, start_time } => TrackerStateView::Tracking {
                app_name: app_name@,
                start_time: *start_time,
            },
        }
    }
}

/// What became of the open session on a transition.
pub enum Sealing {
    /// No session was closed.
    Nothing,
    /// A session was closed, but it cannot be delivered: it was not long
    /// enough, or it had no name.
    Dropped { app_name: String, start_time: Timestamp, end_time: Timestamp },
    /// A session was closed and is to be delivered in the given mode.
    Deliver { session: Session, mode: DeliveryMode },
}

/// A sealing as plain values.
pub enum SealingView {
    Nothing,
    Dropped { app_name: Seq<char>, start_time: Timestamp, end_time: Timestamp },
    Deliver { session: SessionView, mode: DeliveryMode },
}

impl View for Sealing {
    type V = SealingView;

    open spec fn view(&self) -> SealingView {
        match self {
            Sealing::Nothing => SealingView::Nothing,
            Sealing::Dropped { app_name, start_time, end_time } => SealingView::Dropped {
                app_name: app_name@,
                start_time: *start_time,
                end_time: *end_time,
            },
            Sealing::Deliver { session, mode } => SealingView::Deliver {
                session: session@,
                mode: *mode,
            },
        }
    }
}

/// What the consumer loop does after a transition.
#[derive(Clone, Copy, Debug, PartialEq, Eq, Structural)]
pub enum Flow {
    /// Wait for the next event.
    Continue,
    /// Leave the loop; the process ends.
    Exit,
    /// Leave the loop and start the configurator in the tracker's place.
    Reconfigure,
}

/// The result of one transition.
pub struct Step {
    pub sealing: Sealing,
    pub flow: Flow,
}

/// A step as plain values.
pub struct StepView {
    pub sealing: SealingView,
    pub flow: Flow,
}

impl View for Step {
    type V = StepView;

    open spec fn view(&self) -> StepView {
        StepView { sealing: self.sealing@, flow: self.flow }
    }
}

/// The sealing that closing the session of `app_name`, open since
/// `start_time`, at `end_time` yields: a delivery where the name is not
/// empty and the interval is long enough, a drop otherwise.
pub open spec fn close_session(
    app_name: Seq<char>,
    start_time: Timestamp,
    end_time: Timestamp,
    identity: DeviceIdentityView,
    mode: DeliveryMode,
) -> SealingView {
    if sealable(app_name, start_time, end_time) {
        SealingView::Deliver {
            session: SessionView::sealed(app_name, start_time, end_time, identity),
            mode,
        }
    } else {
        SealingView::Dropped { app_name, start_time, end_time }
    }
}

/// Closing whatever session is open at `now`.
pub open spec fn flush(
    state: TrackerStateView,
    now: Timestamp,
    identity: DeviceIdentityView,
    mode: DeliveryMode,
) -> SealingView {
    match state {
        TrackerStateView::Idle => SealingView::Nothing,
        TrackerStateView::Tracking { app_name, start_time } => close_session(
            app_name,
            start_time,
            now,
            identity,
            mode,
        ),
    }
}

/// Whether `state` tracks the application `app_name`.
pub open spec fn tracks(state: TrackerStateView, app_name: Seq<char>) -> bool {
    state matches TrackerStateView::Tracking { app_name: current, .. } && current == app_name
}

/// Whether a tracked session has a name. No session is open under an empty
/// one.
pub open spec fn named(state: TrackerStateView) -> bool {
    state matches TrackerStateView::Tracking { app_name, .. } ==> app_name.len() > 0
}

/// Whether a focus event for `app_name` changes nothing: the name is empty,
/// or it is the application already tracked.
pub open spec fn ignored(state: TrackerStateView, app_name: Seq<char>) -> bool {
    app_name.len() == 0 || tracks(state, app_name)
}

/// The state after a focus event for `app_name` at `now`.
pub open spec fn state_after_focus(
    state: TrackerStateView,
    app_name: Seq<char>,
    now: Timestamp,
) -> TrackerStateView {
    if ignored(state, app_name) {
        state
    } else {
        TrackerStateView::Tracking { app_name, start_time: now }
    }
}

/// The sealing that a focus event for `app_name` at `now` causes.
pub open spec fn sealing_on_focus(
    state: TrackerStateView,
    app_name: Seq<char>,
    now: Timestamp,
    identity: DeviceIdentityView,
) -> SealingView {
    if ignored(state, app_name) {
        SealingView::Nothing
    } else {
        flush(state, now, identity, DeliveryMode::FireAndForget)
    }
}

/// The state after `event` at `now`.
pub open spec fn next_state(state: TrackerStateView, event: EventView, now: Timestamp)
    -> TrackerStateView {
    match event {
        EventView::Focus(app_name) => state_after_focus(state, app_name, now),
        EventView::Control(ControlEvent::ReconfigureRequested) => state,
        EventView::Control(_) => TrackerStateView::Idle,
    }
}

/// The step that `event` at `now` causes.
pub open spec fn step_for(
    state: TrackerStateView,
    event: EventView,
    now: Timestamp,
    identity: DeviceIdentityView,
) -> StepView {
    match event {
        EventView::Focus(app_name) => StepView {
            sealing: sealing_on_focus(state, app_name, now, identity),
            flow: Flow::Continue,
        },
        EventView::Control(ControlEvent::ReconfigureRequested) => StepView {
            sealing: SealingView::Nothing,
            flow: Flow::Reconfigure,
        },
        EventView::Control(_) => StepView {
            sealing: flush(state, now, identity, DeliveryMode::Blocking),
            flow: Flow::Exit,
        },
    }
}

/// The tracker: the current state and the identity that every session it
/// seals carries.
pub struct SessionTracker {
    pub state: TrackerState,
    pub identity: DeviceIdentity,
}

/// A tracker as plain values.
pub struct SessionTrackerView {
    pub state: TrackerStateView,
    pub identity: DeviceIdentityView,
}

impl View for SessionTracker {
    type V = SessionTrackerView;

    open spec fn view(&self) -> SessionTrackerView {
        SessionTrackerView { state: self.state@, identity: self.identity@ }
    }
}

impl SessionTracker {
    /// A tracker with no open session.
    pub fn new(identity: DeviceIdentity) -> (tracker: SessionTracker)
        ensures
            tracker@.state == TrackerStateView::Idle,
            tracker@.identity == identity@,
    {
        SessionTracker { state: TrackerState::Idle, identity }
    }

    /// Whether a session is open.
    pub fn is_tracking(&self) -> (tracking: bool)
        ensures
            tracking == (self@.state is Tracking),
    {
        match &self.state {
            TrackerState::Idle => false,
            TrackerState::Tracking { .. } => true,
        }
    }

    /// Whether the open session is that of `app_name`.
    pub fn is_tracking_app(&self, app_name: &String) -> (tracking: bool)
        ensures
            tracking == tracks(self@.state, app_name@),
    {
        match &self.state {
            TrackerState::Idle => false,
            TrackerState::Tracking { app_name: current, .. } => *current == *app_name,
        }
    }

    /// Closes the open session, if there is one, at `now`, and leaves the
    /// tracker idle.
    pub fn flush_session(&mut self, now: Timestamp, mode: DeliveryMode) -> (sealing: Sealing)
        ensures
            final(self)@.state == TrackerStateView::Idle,
            final(self)@.identity == old(self)@.identity,
            sealing@ == flush(old(self)@.state, now, old(self)@.identity, mode),
    {
        let mut previous = TrackerState::Idle;
        std::mem::swap(&mut self.state, &mut previous);
        match previous {
            TrackerState::Idle => Sealing::Nothing,
            TrackerState::Tracking { app_name, start_time } => {
                let name = app_name.clone();
                match Session::seal(app_name, start_time, now, &self.identity) {
                    Some(session) => Sealing::Deliver { session, mode },
                    None => Sealing::Dropped { app_name: name, start_time, end_time: now },
                }
            },
        }
    }

    /// A focus event: `app_name` holds the foreground at `now`.
    ///
    /// An empty name changes nothing, and while the same application is
    /// tracked nothing changes. Otherwise the open session, if any, is closed
    /// at `now` for delivery without waiting, and a session for `app_name` is
    /// opened at `now`. No session is ever opened under an empty name.
    pub fn on_focus(&mut self, app_name: String, now: Timestamp) -> (sealing: Sealing)
        ensures
            final(self)@.identity == old(self)@.identity,
            final(self)@.state == state_after_focus(old(self)@.state, app_name@, now),
            sealing@ == sealing_on_focus(old(self)@.state, app_name@, now, old(self)@.identity),
            ignored(old(self)@.state, app_name@) ==> final(self)@ == old(self)@ && sealing@
                == SealingView::Nothing,
            named(old(self)@.state) ==> named(final(self)@.state),
    {
        let unchanged = app_name.as_str().is_empty() || self.is_tracking_app(&app_name);
        if unchanged {
            return Sealing::Nothing;
        }
        let sealing = self.flush_session(now, DeliveryMode::FireAndForget);
        self.state = TrackerState::Tracking { app_name, start_time: now };
        sealing
    }

    /// A shutdown or exit request at `now`: the open session, if any, is
    /// closed for a delivery that is waited for, and the tracker is idle. A
    /// session with a name that `now` lies after the start of is delivered.
    pub fn on_shutdown(&mut self, now: Timestamp) -> (sealing: Sealing)
        ensures
            final(self)@.state == TrackerStateView::Idle,
            final(self)@.identity == old(self)@.identity,
            sealing@ == flush(old(self)@.state, now, old(self)@.identity, DeliveryMode::Blocking),
            old(self)@.state is Idle ==> sealing@ == SealingView::Nothing,
            old(self)@.state matches TrackerStateView::Tracking { app_name, start_time } ==> (
            start_time.precedes(now) && app_name.len() > 0 ==> sealing@ == (SealingView::Deliver {
                session: SessionView::sealed(app_name, start_time, now, old(self)@.identity),
                mode: DeliveryMode::Blocking,
            })),
    {
        self.flush_session(now, DeliveryMode::Blocking)
    }

    /// One transition of the state machine.
    pub fn handle(&mut self, event: Event, now: Timestamp) -> (step: Step)
        ensures
            final(self)@.identity == old(self)@.identity,
            final(self)@.state == next_state(old(self)@.state, event@, now),
            step@ == step_for(old(self)@.state, event@, now, old(self)@.identity),
            named(old(self)@.state) ==> named(final(self)@.state),
    {
        match event {
            Event::Focus(focus) => {
                let sealing = self.on_focus(focus.app_name, now);
                Step { sealing, flow: Flow::Continue }
            },
            Event::Control(ControlEvent::ReconfigureRequested) => Step {
                sealing: Sealing::Nothing,
                flow: Flow::Reconfigure,
            },
            Event::Control(_) => {
                let sealing = self.on_shutdown(now);
                Step { sealing, flow: Flow::Exit }
            },
        }
    }
}

} // verus!
