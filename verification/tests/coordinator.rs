use tick_tracker::config::{exit_code, startup, Config, ConfigSource, ExitReason, Startup};
use tick_tracker::coordinator::{ends_loop, TrackerApp};
use tick_tracker::event::{
    on_menu_click, AppEvent, ControlEvent, Event, MenuDecision,
};
use tick_tracker::identity::{device_id, time_zone_or_fallback, IdentityError};
use tick_tracker::session::{DeliveryMode, DeviceIdentity};
use tick_tracker::time::Timestamp;
use tick_tracker::tracker::{Flow, Sealing, TrackerState};

fn identity() -> DeviceIdentity {
    DeviceIdentity {
        device_id: "desk-ada".to_string(),
        platform: "windows".to_string(),
        time_zone: "UTC".to_string(),
    }
}

fn app() -> TrackerApp {
    TrackerApp::new(Config::default(), identity())
}

fn at(secs: i64) -> Timestamp {
    Timestamp::new(1_704_067_200 + secs, 0)
}

#[test]
fn default_config_points_to_the_local_collector() {
    let config = Config::default();
    assert_eq!(config.server_url, "http://localhost:3000/api/log-session");
    assert_eq!(config.api_key, None);
}

#[test]
fn missing_config_hands_off_without_tracking() {
    assert!(matches!(startup(ConfigSource::Missing), Startup::HandOff));
    assert_eq!(exit_code(ExitReason::HandedOff), 0);
}

#[test]
fn unparseable_config_hands_off_too() {
    assert!(matches!(startup(ConfigSource::Unparseable), Startup::HandOff));
}

#[test]
fn loaded_config_is_run_with() {
    let config = Config { server_url: "http://c/x".to_string(), api_key: Some("k".to_string()) };
    match startup(ConfigSource::Loaded(config)) {
        Startup::Run(found) => {
            assert_eq!(found.server_url, "http://c/x");
            assert_eq!(found.api_key, Some("k".to_string()));
        }
        Startup::HandOff => panic!("handed off"),
    }
}

#[test]
fn exit_codes() {
    assert_eq!(exit_code(ExitReason::Finished), 0);
    assert_eq!(exit_code(ExitReason::HandedOff), 0);
    assert_eq!(exit_code(ExitReason::AlreadyRunning), 1);
}

#[test]
fn only_continue_keeps_the_loop() {
    assert!(!ends_loop(Flow::Continue));
    assert!(ends_loop(Flow::Exit));
    assert!(ends_loop(Flow::Reconfigure));
}

#[test]
fn bus_messages_become_events() {
    assert!(AppEvent::FocusChange.needs_focus_lookup());
    assert!(!AppEvent::Shutdown.needs_focus_lookup());
    assert!(!AppEvent::TrayExit.needs_focus_lookup());
    assert!(!AppEvent::TrayConfig.needs_focus_lookup());
    assert_eq!(AppEvent::initial(), AppEvent::FocusChange);
    match AppEvent::FocusChange.into_event(Some("Chrome".to_string())) {
        Some(Event::Focus(focus)) => assert_eq!(focus.app_name, "Chrome"),
        _ => panic!("no focus event"),
    }
    assert!(AppEvent::FocusChange.into_event(None).is_none());
    assert!(matches!(
        AppEvent::Shutdown.into_event(None),
        Some(Event::Control(ControlEvent::ShutdownRequested))
    ));
    assert!(matches!(
        AppEvent::TrayExit.into_event(Some("ignored".to_string())),
        Some(Event::Control(ControlEvent::ExitRequested))
    ));
    assert!(matches!(
        AppEvent::TrayConfig.into_event(None),
        Some(Event::Control(ControlEvent::ReconfigureRequested))
    ));
}

#[test]
fn menu_clicks_become_bus_messages() {
    let config_id = "7".to_string();
    let exit_id = "8".to_string();
    assert_eq!(
        on_menu_click(&"8".to_string(), &config_id, &exit_id),
        MenuDecision { publish: Some(AppEvent::TrayExit), keep_listening: false }
    );
    assert_eq!(
        on_menu_click(&"7".to_string(), &config_id, &exit_id),
        MenuDecision { publish: Some(AppEvent::TrayConfig), keep_listening: true }
    );
    assert_eq!(
        on_menu_click(&"1".to_string(), &config_id, &exit_id),
        MenuDecision { publish: None, keep_listening: true }
    );
    assert_eq!(
        on_menu_click(&"5".to_string(), &"5".to_string(), &"5".to_string()),
        MenuDecision { publish: Some(AppEvent::TrayExit), keep_listening: false }
    );
}

#[test]
fn focus_change_without_a_window_is_ignored() {
    let mut app = app();
    app.apply(AppEvent::FocusChange, Some("A".to_string()), at(0));
    let step = app.apply(AppEvent::FocusChange, None, at(5));
    assert_eq!(step.flow, Flow::Continue);
    assert!(matches!(step.sealing, Sealing::Nothing));
    match &app.tracker.state {
        TrackerState::Tracking { app_name, start_time } => {
            assert_eq!(app_name, "A");
            assert_eq!(*start_time, at(0));
        }
        TrackerState::Idle => panic!("tracker is idle"),
    }
}

#[test]
fn focus_change_with_an_empty_name_is_ignored() {
    let mut app = app();
    let idle = app.apply(AppEvent::FocusChange, Some(String::new()), at(0));
    assert_eq!(idle.flow, Flow::Continue);
    assert!(matches!(idle.sealing, Sealing::Nothing));
    assert!(matches!(app.tracker.state, TrackerState::Idle));
    assert!(AppEvent::FocusChange.into_event(Some(String::new())).is_none());
    app.apply(AppEvent::FocusChange, Some("A".to_string()), at(1));
    let step = app.apply(AppEvent::FocusChange, Some(String::new()), at(4));
    assert!(matches!(step.sealing, Sealing::Nothing));
    match &app.tracker.state {
        TrackerState::Tracking { app_name, start_time } => {
            assert_eq!(app_name, "A");
            assert_eq!(*start_time, at(1));
        }
        TrackerState::Idle => panic!("tracker is idle"),
    }
}

#[test]
fn clock_is_needed_only_to_open_or_close_a_session() {
    let mut app = app();
    let a = Some("A".to_string());
    assert!(app.needs_clock(AppEvent::FocusChange, &a));
    assert!(!app.needs_clock(AppEvent::FocusChange, &None));
    assert!(!app.needs_clock(AppEvent::FocusChange, &Some(String::new())));
    assert!(!app.needs_clock(AppEvent::Shutdown, &None));
    assert!(!app.needs_clock(AppEvent::TrayExit, &None));
    assert!(!app.needs_clock(AppEvent::TrayConfig, &None));
    app.apply(AppEvent::FocusChange, Some("A".to_string()), at(0));
    assert!(!app.needs_clock(AppEvent::FocusChange, &a));
    assert!(app.needs_clock(AppEvent::FocusChange, &Some("B".to_string())));
    assert!(app.needs_clock(AppEvent::Shutdown, &None));
    assert!(app.needs_clock(AppEvent::TrayExit, &None));
    assert!(!app.needs_clock(AppEvent::TrayConfig, &None));
}

#[test]
fn handling_a_shutdown_while_idle_now_only_ends_the_loop() {
    let mut app = app();
    let step = app.handle_event(AppEvent::Shutdown);
    assert_eq!(step.flow, Flow::Exit);
    assert!(matches!(step.sealing, Sealing::Nothing));
    assert!(!app.tracker.is_tracking());
}

#[test]
fn focus_then_switch_through_the_application() {
    let mut app = app();
    let first = app.apply(AppEvent::FocusChange, Some("Chrome".to_string()), at(0));
    assert!(matches!(first.sealing, Sealing::Nothing));
    let second = app.apply(AppEvent::FocusChange, Some("Editor".to_string()), at(5));
    assert_eq!(second.flow, Flow::Continue);
    match second.sealing {
        Sealing::Deliver { session, mode } => {
            assert_eq!(mode, DeliveryMode::FireAndForget);
            assert_eq!(session.app_name(), "Chrome");
            assert_eq!(session.duration_secs(), 5);
        }
        _ => panic!("nothing delivered"),
    }
}

#[test]
fn tray_exit_flushes_blocking_and_ends_the_loop() {
    let mut app = app();
    app.apply(AppEvent::FocusChange, Some("Notes".to_string()), at(0));
    let step = app.apply(AppEvent::TrayExit, None, at(2));
    assert_eq!(step.flow, Flow::Exit);
    assert!(ends_loop(step.flow));
    match step.sealing {
        Sealing::Deliver { session, mode } => {
            assert_eq!(mode, DeliveryMode::Blocking);
            assert_eq!(session.app_name(), "Notes");
            assert_eq!(session.duration_secs(), 2);
        }
        _ => panic!("nothing delivered"),
    }
    assert_eq!(exit_code(ExitReason::Finished), 0);
}

#[test]
fn tray_config_hands_off_without_flushing() {
    let mut app = app();
    app.apply(AppEvent::FocusChange, Some("A".to_string()), at(0));
    let step = app.apply(AppEvent::TrayConfig, None, at(9));
    assert_eq!(step.flow, Flow::Reconfigure);
    assert!(matches!(step.sealing, Sealing::Nothing));
    assert!(app.tracker.is_tracking());
}

#[test]
fn handling_now_ends_an_open_session_at_the_present() {
    let mut app = app();
    app.apply(AppEvent::FocusChange, Some("Notes".to_string()), at(0));
    let step = app.handle_event(AppEvent::Shutdown);
    assert_eq!(step.flow, Flow::Exit);
    match step.sealing {
        Sealing::Deliver { session, mode } => {
            assert_eq!(mode, DeliveryMode::Blocking);
            assert_eq!(session.start_time(), at(0));
            assert!(at(0).is_before(&session.end_time()));
        }
        _ => panic!("nothing delivered"),
    }
    assert!(!app.tracker.is_tracking());
}

#[test]
fn handling_a_reconfigure_request_now_changes_nothing() {
    let mut app = app();
    let step = app.handle_event(AppEvent::TrayConfig);
    assert_eq!(step.flow, Flow::Reconfigure);
    assert!(matches!(step.sealing, Sealing::Nothing));
    assert!(!app.tracker.is_tracking());
    assert_eq!(app.config.server_url, "http://localhost:3000/api/log-session");
}

#[test]
fn device_id_joins_host_and_user() {
    assert_eq!(device_id("desk", "ada"), "desk-ada");
    assert_eq!(device_id("", ""), "-");
    assert_eq!(device_id("a-b", "c"), "a-b-c");
}

#[test]
fn time_zone_falls_back_to_utc() {
    assert_eq!(time_zone_or_fallback(Some("Asia/Tokyo".to_string())), "Asia/Tokyo");
    assert_eq!(time_zone_or_fallback(None), "UTC");
}

#[test]
fn identity_needs_host_and_user() {
    let host = || Some("desk".to_string());
    let user = || Some("ada".to_string());
    assert_eq!(DeviceIdentity::compose(None, user(), None).err(), Some(IdentityError::Hostname));
    assert_eq!(DeviceIdentity::compose(None, None, None).err(), Some(IdentityError::Hostname));
    assert_eq!(DeviceIdentity::compose(host(), None, None).err(), Some(IdentityError::Username));
    let found = DeviceIdentity::compose(host(), user(), None).expect("no identity");
    assert_eq!(found.device_id, "desk-ada");
    assert_eq!(found.platform, "windows");
    assert_eq!(found.time_zone, "UTC");
    let zoned = DeviceIdentity::compose(host(), user(), Some("Europe/Vienna".to_string()))
        .expect("no identity");
    assert_eq!(zoned.time_zone, "Europe/Vienna");
    assert_eq!(zoned.device_id, "desk-ada");
}

#[test]
fn detected_identity_is_well_formed() {
    if let Ok(found) = DeviceIdentity::detect() {
        assert_eq!(found.platform, "windows");
        assert!(found.device_id.contains('-'));
    }
}
