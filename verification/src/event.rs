//! The events that reach the tracker, and the raw messages they come from.

use vstd::prelude::*;

verus! {

/// A command to the tracker, whatever its origin: an interrupt signal and a
/// click on the tray's exit entry both end the process.
#[derive(Clone, Copy, Debug, PartialEq, Eq, Structural)]
pub enum ControlEvent {
    ShutdownRequested,
    ExitRequested,
    ReconfigureRequested,
}

/// Notice that an application holds the foreground. The same name may come
/// several times in a row. An empty name names no application: the tracker
/// ignores an event that carries one.
#[derive(Clone, Debug)]
pub struct FocusEvent {
    pub app_name: String,
}

/// What the tracker consumes.
#[derive(Clone, Debug)]
pub enum Event {
    Focus(FocusEvent),
    Control(ControlEvent),
}

/// An event as plain values.
pub enum EventView {
    Focus(Seq<char>),
    Control(ControlEvent),
}

impl View for Event {
    type V = EventView;

    open spec fn view(&self) -> EventView {
        match self {
            Event::Focus(focus) => EventView::Focus(focus.app_name@),
            Event::Control(control) => EventView::Control(*control),
        }
    }
}

/// A message on the event bus, as its producers publish it.
#[derive(Clone, Copy, Debug, PartialEq, Eq, Structural)]
pub enum AppEvent {
    /// The platform reported a change of the foreground window.
    FocusChange,
    /// The process received an interrupt.
    Shutdown,
    /// The tray's exit entry was chosen.
    TrayExit,
    /// The tray's configure entry was chosen.
    TrayConfig,
}

impl AppEvent {
    /// The event a bus message stands for. A focus change counts only
    /// together with the name of the application now in front: without a
    /// name, or with an empty one, there is no event.
    pub open spec fn meaning(self, focused: Option<Seq<char>>) -> Option<EventView> {
        match self {
            AppEvent::FocusChange => match focused {
                Some(name) => if name.len() > 0 {
                    Some(EventView::Focus(name))
                } else {
                    None
                },
                None => None,
            },
            AppEvent::Shutdown => Some(EventView::Control(ControlEvent::ShutdownRequested)),
            AppEvent::TrayExit => Some(EventView::Control(ControlEvent::ExitRequested)),
            AppEvent::TrayConfig => Some(EventView::Control(ControlEvent::ReconfigureRequested)),
        }
    }

    /// Whether handling this message needs the name of the focused
    /// application.
    pub fn needs_focus_lookup(&self) -> (needed: bool)
        ensures
            needed == (*self == AppEvent::FocusChange),
    {
        match self {
            AppEvent::FocusChange => true,
            _ => false,
        }
    }

    /// Turns a bus message into the tracker's event. `focused` is what the
    /// platform named as the application in front, if it named one.
    pub fn into_event(self, focused: Option<String>) -> (event: Option<Event>)
        ensures
            event is Some <==> self.meaning(opt_text(focused)) is Some,
            event matches Some(e) ==> self.meaning(opt_text(focused)) == Some(e@),
    {
        match self {
            AppEvent::FocusChange => match focused {
                Some(app_name) => if app_name.as_str().is_empty() {
                    None
                } else {
                    Some(Event::Focus(FocusEvent { app_name }))
                },
                None => None,
            },
            AppEvent::Shutdown => Some(Event::Control(ControlEvent::ShutdownRequested)),
            AppEvent::TrayExit => Some(Event::Control(ControlEvent::ExitRequested)),
            AppEvent::TrayConfig => Some(Event::Control(ControlEvent::ReconfigureRequested)),
        }
    }

    /// The message with which the consumer loop starts, so that the
    /// application already in front is captured before any change is
    /// reported.
    pub fn initial() -> (event: AppEvent)
        ensures
            event == AppEvent::FocusChange,
    {
        AppEvent::FocusChange
    }
}

/// The text of an optional string.
pub open spec fn opt_text(s: Option<String>) -> Option<Seq<char>> {
    match s {
        Some(text) => Some(text@),
        None => None,
    }
}

/// What the tray listener does with one menu click.
#[derive(Clone, Copy, Debug, PartialEq, Eq, Structural)]
pub struct MenuDecision {
    /// The message to publish, if the click means one.
    pub publish: Option<AppEvent>,
    /// Whether the listener goes on waiting for clicks.
    pub keep_listening: bool,
}

/// The decision for a click on the entry `clicked`, given the identifiers of
/// the configure and exit entries. The exit entry is tested first.
pub open spec fn menu_decision(
    clicked: Seq<char>,
    config_id: Seq<char>,
    exit_id: Seq<char>,
) -> MenuDecision {
    if clicked == exit_id {
        MenuDecision { publish: Some(AppEvent::TrayExit), keep_listening: false }
    } else if clicked == config_id {
        MenuDecision { publish: Some(AppEvent::TrayConfig), keep_listening: true }
    } else {
        MenuDecision { publish: None, keep_listening: true }
    }
}

/// Decides what a click on a tray menu entry means.
pub fn on_menu_click(
    clicked: &String,
    config_id: &String,
    exit_id: &String,
) -> (decision: MenuDecision)
    ensures
        decision == menu_decision(clicked@, config_id@, exit_id@),
{
    if *clicked == *exit_id {
        MenuDecision { publish: Some(AppEvent::TrayExit), keep_listening: false }
    } else if *clicked == *config_id {
        MenuDecision { publish: Some(AppEvent::TrayConfig), keep_listening: true }
    } else {
        MenuDecision { publish: None, keep_listening: true }
    }
}

} // verus!
