use tick_tracker::setup::{FrameAction, SetupApp, SetupConfig, SetupSource};
use tick_tracker::style::{AppStyle, Backdrop, Rgba, StatusType};
use tick_tracker::theme::Theme;

fn loaded(url: &str, theme: &str) -> SetupApp {
    SetupApp::new(SetupSource::Loaded(SetupConfig {
        server_url: url.to_string(),
        api_key: Some("k".to_string()),
        theme: theme.to_string(),
    }))
}

#[test]
fn theme_names() {
    assert_eq!(Theme::from_str("light"), Theme::Light);
    assert_eq!(Theme::from_str("dark"), Theme::Dark);
    assert_eq!(Theme::from_str(""), Theme::Dark);
    assert_eq!(Theme::from_str("Light"), Theme::Dark);
    assert_eq!(Theme::from_str("light "), Theme::Dark);
    assert_eq!(Theme::Light.to_str(), "light");
    assert_eq!(Theme::Dark.to_str(), "dark");
    assert_eq!(Theme::default(), Theme::Dark);
}

#[test]
fn theme_round_trip_and_toggle() {
    for theme in [Theme::Light, Theme::Dark] {
        assert_eq!(Theme::from_str(theme.to_str()), theme);
        assert_ne!(theme.toggled(), theme);
        assert_eq!(theme.toggled().toggled(), theme);
    }
    assert_eq!(Theme::Light.toggled(), Theme::Dark);
}

#[test]
fn window_without_a_file_starts_with_the_local_collector() {
    let app = SetupApp::new(SetupSource::Missing);
    assert_eq!(app.config.server_url, "http://localhost:3000/api/log-session");
    assert_eq!(app.config.api_key, None);
    assert_eq!(app.config.theme, "dark");
    assert_eq!(app.current_theme, Theme::Dark);
    assert_eq!(app.status_message, None);
    assert_eq!(app.status_type, StatusType::Info);
    assert_eq!(app.successfully_saved_at, None);
    assert!(!app.tracker_launched);
}

#[test]
fn window_with_a_broken_file_starts_empty() {
    let app = SetupApp::new(SetupSource::Unparseable);
    assert_eq!(app.config.server_url, "");
    assert_eq!(app.config.api_key, None);
    assert_eq!(app.config.theme, "");
    assert_eq!(app.current_theme, Theme::Dark);
}

#[test]
fn window_takes_the_stored_theme() {
    let app = loaded("http://c/x", "light");
    assert_eq!(app.current_theme, Theme::Light);
    assert_eq!(app.config.server_url, "http://c/x");
    assert_eq!(app.access_token(), "k");
}

#[test]
fn toggling_notes_the_theme_in_the_configuration() {
    let mut app = loaded("http://c/x", "light");
    app.toggle_theme();
    assert_eq!(app.current_theme, Theme::Dark);
    assert_eq!(app.config.theme, "dark");
    app.toggle_theme();
    assert_eq!(app.current_theme, Theme::Light);
    assert_eq!(app.config.theme, "light");
    assert_eq!(app.config.server_url, "http://c/x");
}

#[test]
fn blank_endpoint_is_refused() {
    for blank in ["", " ", "\t \n", "\u{a0}\u{2003}"] {
        let mut app = loaded(blank, "dark");
        assert!(!app.begin_save());
        assert_eq!(app.status_message.as_deref(), Some("Endpoint cannot be empty"));
        assert_eq!(app.status_type, StatusType::Error);
        assert_eq!(app.successfully_saved_at, None);
        assert_eq!(app.config.server_url, blank);
    }
}

#[test]
fn filled_endpoint_is_written_with_the_theme() {
    let mut app = loaded("  http://c/x ", "nonsense");
    assert!(app.begin_save());
    assert_eq!(app.config.theme, "dark");
    assert_eq!(app.config.server_url, "  http://c/x ");
    assert_eq!(app.status_message, None);
    assert_eq!(app.status_type, StatusType::Info);
}

#[test]
fn save_decision_follows_the_blank_test() {
    let mut app = loaded("http://c/x", "light");
    assert!(!app.decide_save(true));
    assert_eq!(app.status_message.as_deref(), Some("Endpoint cannot be empty"));
    assert!(app.decide_save(false));
    assert_eq!(app.config.theme, "light");
}

#[test]
fn failed_write_is_shown_as_an_error() {
    let mut app = loaded("http://c/x", "dark");
    assert!(app.begin_save());
    app.finish_save(Err("disk full".to_string()), 10);
    assert_eq!(app.status_message.as_deref(), Some("Error: disk full"));
    assert_eq!(app.status_type, StatusType::Error);
    assert_eq!(app.successfully_saved_at, None);
}

#[test]
fn successful_write_starts_the_delay() {
    let mut app = loaded("http://c/x", "dark");
    app.tracker_launched = true;
    app.finish_save(Ok(()), 1_000);
    assert_eq!(app.status_message.as_deref(), Some("Settings synced! Launching..."));
    assert_eq!(app.status_type, StatusType::Success);
    assert_eq!(app.successfully_saved_at, Some(1_000));
    assert!(!app.tracker_launched);
}

#[test]
fn editing_clears_the_status() {
    let mut app = loaded("", "dark");
    assert!(!app.begin_save());
    app.set_server_url("http://c/y".to_string());
    assert_eq!(app.status_message, None);
    assert_eq!(app.config.server_url, "http://c/y");
    app.finish_save(Err("x".to_string()), 0);
    app.set_access_token(String::new());
    assert_eq!(app.status_message, None);
    assert_eq!(app.config.api_key, None);
    assert_eq!(app.access_token(), "");
    app.set_access_token("t0ken".to_string());
    assert_eq!(app.config.api_key, Some("t0ken".to_string()));
}

#[test]
fn frames_before_a_save_do_nothing() {
    let mut app = loaded("http://c/x", "dark");
    let idle = FrameAction { launch_tracker: false, close: false, repaint: false };
    assert_eq!(app.on_frame(0), idle);
    assert_eq!(app.on_frame(u64::MAX), idle);
    assert!(!app.tracker_launched);
}

#[test]
fn window_closes_two_seconds_after_a_save() {
    let mut app = loaded("http://c/x", "dark");
    app.finish_save(Ok(()), 1_000);
    let waiting = FrameAction { launch_tracker: false, close: false, repaint: true };
    assert_eq!(app.on_frame(1_000), waiting);
    assert_eq!(app.on_frame(2_999), waiting);
    assert_eq!(app.on_frame(500), waiting);
    assert!(!app.tracker_launched);
    assert_eq!(
        app.on_frame(3_000),
        FrameAction { launch_tracker: true, close: true, repaint: false }
    );
    assert!(app.tracker_launched);
    assert_eq!(
        app.on_frame(3_016),
        FrameAction { launch_tracker: false, close: true, repaint: false }
    );
}

#[test]
fn dark_style() {
    let style = AppStyle::from_theme(Theme::Dark);
    assert_eq!(style.bg_fill, Rgba { r: 8, g: 8, b: 10, a: 255 });
    assert_eq!(style.card_bg, Rgba { r: 20, g: 20, b: 25, a: 200 });
    assert_eq!(style.card_stroke, Rgba { r: 255, g: 255, b: 255, a: 20 });
    assert_eq!(style.text_primary, Rgba { r: 255, g: 255, b: 255, a: 255 });
    assert_eq!(style.text_secondary, Rgba { r: 161, g: 161, b: 170, a: 255 });
    assert_eq!(style.accent_color, Rgba { r: 99, g: 102, b: 241, a: 255 });
    assert_eq!(style.accent_gradient_start, style.accent_color);
    assert_eq!(style.accent_gradient_end, Rgba { r: 168, g: 85, b: 247, a: 255 });
    assert_eq!(style.input_bg, Rgba { r: 30, g: 30, b: 35, a: 180 });
    assert_eq!(style.input_border, Rgba { r: 255, g: 255, b: 255, a: 15 });
    assert_eq!(style.input_text, Rgba { r: 228, g: 228, b: 231, a: 255 });
    assert_eq!(style.input_hint, Rgba { r: 82, g: 82, b: 91, a: 255 });
}

#[test]
fn light_style() {
    let style = AppStyle::from_theme(Theme::Light);
    assert_eq!(style.bg_fill, Rgba { r: 245, g: 245, b: 250, a: 255 });
    assert_eq!(style.card_bg, Rgba { r: 255, g: 255, b: 255, a: 220 });
    assert_eq!(style.card_stroke, Rgba { r: 0, g: 0, b: 0, a: 15 });
    assert_eq!(style.text_primary, Rgba { r: 15, g: 23, b: 42, a: 255 });
    assert_eq!(style.text_secondary, Rgba { r: 71, g: 85, b: 105, a: 255 });
    assert_eq!(style.accent_color, Rgba { r: 79, g: 70, b: 229, a: 255 });
    assert_eq!(style.accent_gradient_start, style.accent_color);
    assert_eq!(style.accent_gradient_end, Rgba { r: 147, g: 51, b: 234, a: 255 });
    assert_eq!(style.input_bg, Rgba { r: 240, g: 240, b: 245, a: 200 });
    assert_eq!(style.input_border, Rgba { r: 0, g: 0, b: 0, a: 10 });
    assert_eq!(style.input_text, style.text_primary);
    assert_eq!(style.input_hint, Rgba { r: 148, g: 163, b: 184, a: 255 });
}

#[test]
fn status_and_button_colours() {
    let style = AppStyle::from_theme(Theme::Dark);
    assert_eq!(style.status_colour(StatusType::Success), Rgba::opaque(52, 211, 153));
    assert_eq!(style.status_colour(StatusType::Error), Rgba::opaque(248, 113, 113));
    assert_eq!(style.status_colour(StatusType::Info), style.text_secondary);
    assert_eq!(style.button_fill(true), style.accent_gradient_end);
    assert_eq!(style.button_fill(false), style.accent_gradient_start);
    assert_eq!(Rgba::premultiplied(1, 2, 3, 4), Rgba { r: 1, g: 2, b: 3, a: 4 });
}

#[test]
fn backdrops() {
    let dark = Backdrop::from_theme(Theme::Dark);
    assert_eq!(dark.base, Rgba::opaque(10, 10, 15));
    assert_eq!(dark.first_blob, Rgba::premultiplied(67, 56, 202, 30));
    assert_eq!(dark.second_blob, Rgba::premultiplied(126, 34, 206, 25));
    assert_eq!(dark.third_blob, Rgba::premultiplied(29, 78, 216, 20));
    let light = Backdrop::from_theme(Theme::Light);
    assert_eq!(light.base, Rgba::opaque(240, 242, 248));
    assert_eq!(light.first_blob, Rgba::premultiplied(199, 210, 254, 80));
    assert_eq!(light.second_blob, Rgba::premultiplied(233, 213, 255, 70));
    assert_eq!(light.third_blob, Rgba::premultiplied(191, 219, 254, 60));
}

fn is_listed_white_space(c: char) -> bool {
    let code = c as u32;
    (0x0009..=0x000D).contains(&code)
        || code == 0x0020
        || code == 0x0085
        || code == 0x00A0
        || code == 0x1680
        || (0x2000..=0x200A).contains(&code)
        || code == 0x2028
        || code == 0x2029
        || code == 0x202F
        || code == 0x205F
        || code == 0x3000
}

#[test]
fn an_endpoint_of_one_character_is_blank_exactly_for_white_space() {
    let mut app = loaded("", "dark");
    let mut blank = 0;
    for code in 0..=0x10FFFFu32 {
        if let Some(c) = char::from_u32(code) {
            app.set_server_url(c.to_string());
            let write = app.begin_save();
            assert_eq!(write, !is_listed_white_space(c), "U+{:04X}", code);
            if !write {
                blank += 1;
            }
        }
    }
    assert_eq!(blank, 25);
}

#[test]
fn characters_that_only_look_like_space_fill_an_endpoint() {
    for filled in ["\u{180e}", "\u{200b}", "\u{feff}", " \u{200b} ", "\u{3000}x\u{2028}"] {
        let mut app = loaded(filled, "dark");
        assert!(app.begin_save());
    }
    for blank in ["\u{3000}\u{2028}", "\u{85}\u{1680}\u{205f}", "\r\n\u{b}\u{c}"] {
        let mut app = loaded(blank, "dark");
        assert!(!app.begin_save());
    }
}
