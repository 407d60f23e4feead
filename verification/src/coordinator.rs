//! The lifecycle coordinator: one consumer that takes each message off the
//! event bus, drives the tracker with it and says how the loop goes on.

use vstd::prelude::*;
use crate::config::{Config, ConfigView};
use crate::delivery::{plan_delivery, request_of, DeliveryError, DeliveryRequest};
use crate::event::{opt_text, AppEvent, ControlEvent, EventView};
use crate::session::{DeviceIdentity, DeviceIdentityView, Session};
use crate::time::Timestamp;
use crate::tracker::{ignored, next_state, step_for, Flow, Sealing, SealingView, SessionTracker,
    SessionTrackerView, Step, StepView, TrackerStateView};

verus! {

/// The state after the bus message `event`, handled at `now` with `focused`
/// as the application in front. A message that means no event changes
/// nothing.
pub open spec fn state_after(
    state: TrackerStateView,
    event: AppEvent,
    focused: Option<Seq<char>>,
    now: Timestamp,
) -> TrackerStateView {
    match event.meaning(focused) {
        Some(meant) => next_state(state, meant, now),
        None => state,
    }
}

/// The step for the bus message `event`, handled at `now` with `focused` as
/// the application in front. A message that means no event closes nothing
/// and the loop goes on.
pub open spec fn step_after(
    state: TrackerStateView,
    event: AppEvent,
    focused: Option<Seq<char>>,
    now: Timestamp,
    identity: DeviceIdentityView,
) -> StepView {
    match event.meaning(focused) {
        Some(meant) => step_for(state, meant, now, identity),
        None => StepView { sealing: SealingView::Nothing, flow: Flow::Continue },
    }
}

/// Whether handling the bus message `event`, with `focused` as the
/// application in front, opens or closes a session, and so needs a clock
/// reading.
pub open spec fn reads_clock(
    state: TrackerStateView,
    event: AppEvent,
    focused: Option<Seq<char>>,
) -> bool {
    match event.meaning(focused) {
        None => false,
        Some(EventView::Focus(app_name)) => !ignored(state, app_name),
        Some(EventView::Control(ControlEvent::ReconfigureRequested)) => false,
        Some(EventView::Control(_)) => state is Tracking,
    }
}

/// How the loop goes on after a bus message that opens and closes nothing.
pub open spec fn flow_of(event: AppEvent) -> Flow {
    match event {
        AppEvent::FocusChange => Flow::Continue,
        AppEvent::Shutdown => Flow::Exit,
        AppEvent::TrayExit => Flow::Exit,
        AppEvent::TrayConfig => Flow::Reconfigure,
    }
}

/// A message that needs no clock reading leaves the state as it is and
/// closes nothing, at whatever reading it is applied.
pub proof fn lemma_quiet_message(
    state: TrackerStateView,
    event: AppEvent,
    focused: Option<Seq<char>>,
    now: Timestamp,
    identity: DeviceIdentityView,
)
    requires
        !reads_clock(state, event, focused),
    ensures
        state_after(state, event, focused, now) == state,
        step_after(state, event, focused, now, identity) == (StepView {
            sealing: SealingView::Nothing,
            flow: flow_of(event),
        }),
{
}

/// The tracker application: the configuration it was started with and the
/// session tracker it drives.
pub struct TrackerApp {
    pub config: Config,
    pub tracker: SessionTracker,
}

/// A tracker application as plain values.
pub struct TrackerAppView {
    pub config: ConfigView,
    pub tracker: SessionTrackerView,
}

impl View for TrackerApp {
    type V = TrackerAppView;

    open spec fn view(&self) -> TrackerAppView {
        TrackerAppView { config: self.config@, tracker: self.tracker@ }
    }
}

impl TrackerApp {
    /// An application that tracks nothing yet.
    pub fn new(config: Config, identity: DeviceIdentity) -> (app: TrackerApp)
        ensures
            app@.config == config@,
            app@.tracker.identity == identity@,
            app@.tracker.state == TrackerStateView::Idle,
    {
        TrackerApp { config, tracker: SessionTracker::new(identity) }
    }

    /// Handles one bus message at the clock reading `now`. `focused` is the
    /// application that the platform names as the one in front; it is read
    /// for a focus change only, and without it a focus change is ignored.
    pub fn apply(
        &mut self,
        event: AppEvent,
        focused: Option<String>,
        now: Timestamp,
    ) -> (step: Step)
        ensures
            final(self)@.config == old(self)@.config,
            final(self)@.tracker.identity == old(self)@.tracker.identity,
            final(self)@.tracker.state == state_after(
                old(self)@.tracker.state,
                event,
                opt_text(focused),
                now,
            ),
            step@ == step_after(
                old(self)@.tracker.state,
                event,
                opt_text(focused),
                now,
                old(self)@.tracker.identity,
            ),
    {
        match event.into_event(focused) {
            Some(meant) => self.tracker.handle(meant, now),
            None => Step { sealing: Sealing::Nothing, flow: Flow::Continue },
        }
    }

    /// Whether handling `event` with `focused` in front needs a clock
    /// reading.
    pub fn needs_clock(&self, event: AppEvent, focused: &Option<String>) -> (needed: bool)
        ensures
            needed == reads_clock(self@.tracker.state, event, opt_text(*focused)),
    {
        match event {
            AppEvent::FocusChange => match focused {
                None => false,
                Some(name) => !name.as_str().is_empty() && !self.tracker.is_tracking_app(name),
            },
            AppEvent::TrayConfig => false,
            AppEvent::Shutdown => self.tracker.is_tracking(),
            AppEvent::TrayExit => self.tracker.is_tracking(),
        }
    }

    /// Handles one bus message now. For a focus change the platform is asked
    /// which application is in front. The clock is read only where a session
    /// is opened or closed, and the message is applied at that reading; a
    /// message that opens and closes nothing leaves the state as it is and
    /// only says how the loop goes on. Whatever the platform and the clock
    /// answer, the step is one that `apply` takes for some answer, and a
    /// reading that was used is one that the calendar can hold, so that a
    /// session that starts or ends at it can be written.
    pub fn handle_event(&mut self, event: AppEvent) -> (step: Step)
        ensures
            final(self)@.config == old(self)@.config,
            final(self)@.tracker.identity == old(self)@.tracker.identity,
            exists|focused: Option<Seq<char>>, now: Timestamp|
                {
                    &&& reads_clock(old(self)@.tracker.state, event, focused) ==> now.text()
                        is Some
                    &&& final(self)@.tracker.state == #[trigger] state_after(
                        old(self)@.tracker.state,
                        event,
                        focused,
                        now,
                    )
                    &&& step@ == step_after(
                        old(self)@.tracker.state,
                        event,
                        focused,
                        now,
                        old(self)@.tracker.identity,
                    )
                },
    {
        let focused = if event.needs_focus_lookup() {
            focused_app_name()
        } else {
            None
        };
        let ghost seen = opt_text(focused);
        if self.needs_clock(event, &focused) {
            let now = Timestamp::now();
            let step = self.apply(event, focused, now);
            proof {
                assert(self@.tracker.state == state_after(
                    old(self)@.tracker.state,
                    event,
                    seen,
                    now,
                ));
            }
            step
        } else {
            let step = quiet_step(event);
            proof {
                let any = Timestamp { secs: 0, nanos: 0 };
                lemma_quiet_message(
                    old(self)@.tracker.state,
                    event,
                    seen,
                    any,
                    old(self)@.tracker.identity,
                );
                assert(self@.tracker.state == state_after(
                    old(self)@.tracker.state,
                    event,
                    seen,
                    any,
                ));
            }
            step
        }
    }

    /// The request that delivers `session` to the configured collector.
    pub fn delivery_for(
        &self,
        session: &Session,
    ) -> (request: Result<DeliveryRequest, DeliveryError>)
        ensures
            request is Ok <==> session@.start_time.text() is Some && session@.end_time.text()
                is Some,
            request matches Ok(r) ==> r@ == request_of(
                self@.config,
                session@,
                session@.start_time.text()->Some_0,
                session@.end_time.text()->Some_0,
            ),
            request matches Err(e) ==> e == DeliveryError::TimeOutOfRange,
    {
        plan_delivery(&self.config, session)
    }
}

/// `active_win_pos_rs::get_active_window`, of whose answer the application
/// name is handed on: `None` where the platform names no active window.
/// Nothing is claimed of the name; it may be empty.
#[verifier::external_body]
fn focused_app_name() -> (name: Option<String>) {
    match active_win_pos_rs::get_active_window() {
        Ok(window) => Some(window.app_name),
        Err(_) => None,
    }
}

/// The step of a bus message that opens and closes nothing.
fn quiet_step(event: AppEvent) -> (step: Step)
    ensures
        step@ == (StepView { sealing: SealingView::Nothing, flow: flow_of(event) }),
{
    let flow = match event {
        AppEvent::FocusChange => Flow::Continue,
        AppEvent::Shutdown => Flow::Exit,
        AppEvent::TrayExit => Flow::Exit,
        AppEvent::TrayConfig => Flow::Reconfigure,
    };
    Step { sealing: Sealing::Nothing, flow }
}

/// Whether the consumer loop ends after a step.
pub fn ends_loop(flow: Flow) -> (ends: bool)
    ensures
        ends == (flow != Flow::Continue),
{
    match flow {
        Flow::Continue => false,
        _ => true,
    }
}

} // verus!
