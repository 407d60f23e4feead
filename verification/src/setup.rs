//! The decisions of the setup window: what a save does, what the status
//! line says, and when the window closes in favour of the tracker.

use vstd::prelude::*;
use vstd::string::StringExecFns;
use crate::event::opt_text;
use crate::style::StatusType;
use crate::theme::Theme;

verus! {

/// Milliseconds the window stays open after a successful save.
pub const CLOSE_DELAY_MILLIS: u64 = 2000;

/// The configuration as the setup window edits and stores it.
#[derive(Clone, Debug)]
pub struct SetupConfig {
    pub server_url: String,
    pub api_key: Option<String>,
    /// Stored name of the window's theme.
    pub theme: String,
}

/// A setup configuration as plain text.
pub struct SetupConfigView {
    pub server_url: Seq<char>,
    pub api_key: Option<Seq<char>>,
    pub theme: Seq<char>,
}

impl View for SetupConfig {
    type V = SetupConfigView;

    open spec fn view(&self) -> SetupConfigView {
        SetupConfigView {
            server_url: self.server_url@,
            api_key: opt_text(self.api_key),
            theme: self.theme@,
        }
    }
}

/// What reading the configuration file gave the setup window.
pub enum SetupSource {
    /// There is no file.
    Missing,
    /// There is a file, but it does not hold a configuration.
    Unparseable,
    /// The file held this configuration.
    Loaded(SetupConfig),
}

/// Whether a character is white space as Unicode defines it: the 25
/// characters with the property `White_Space`.
pub open spec fn is_white_space(c: char) -> bool {
    let code = c as u32;
    ||| 0x0009 <= code <= 0x000D
    ||| code == 0x0020
    ||| code == 0x0085
    ||| code == 0x00A0
    ||| code == 0x1680
    ||| 0x2000 <= code <= 0x200A
    ||| code == 0x2028
    ||| code == 0x2029
    ||| code == 0x202F
    ||| code == 0x205F
    ||| code == 0x3000
}

/// Number of white-space characters with which `text` begins.
pub open spec fn leading_white_space(text: Seq<char>) -> nat
    decreases text.len(),
{
    if text.len() > 0 && is_white_space(text[0]) {
        1 + leading_white_space(text.drop_first())
    } else {
        0
    }
}

/// Number of white-space characters with which `text` ends.
pub open spec fn trailing_white_space(text: Seq<char>) -> nat
    decreases text.len(),
{
    if text.len() > 0 && is_white_space(text.last()) {
        1 + trailing_white_space(text.drop_last())
    } else {
        0
    }
}

/// `text` without its leading and trailing white space.
pub open spec fn trimmed(text: Seq<char>) -> Seq<char> {
    let rest = text.skip(leading_white_space(text) as int);
    rest.take(rest.len() - trailing_white_space(rest))
}

/// Whether an endpoint is nothing but white space.
pub open spec fn is_blank(text: Seq<char>) -> bool {
    forall|i: int| 0 <= i < text.len() ==> is_white_space(#[trigger] text[i])
}

/// The leading white space of a text is white space, and what follows it is
/// not.
pub proof fn lemma_leading_white_space(text: Seq<char>)
    ensures
        leading_white_space(text) <= text.len(),
        forall|i: int| 0 <= i < leading_white_space(text) ==> is_white_space(#[trigger] text[i]),
        leading_white_space(text) < text.len() ==> !is_white_space(
            text[leading_white_space(text) as int],
        ),
    decreases text.len(),
{
    if text.len() > 0 && is_white_space(text[0]) {
        let rest = text.drop_first();
        lemma_leading_white_space(rest);
        assert forall|i: int| 0 <= i < leading_white_space(text) implies is_white_space(
            #[trigger] text[i],
        ) by {
            if i > 0 {
                assert(text[i] == rest[i - 1]);
            }
        }
        if leading_white_space(text) < text.len() {
            assert(text[leading_white_space(text) as int] == rest[leading_white_space(
                rest,
            ) as int]);
        }
    }
}

/// A text that ends in as many white-space characters as it has characters
/// is nothing but white space.
pub proof fn lemma_trailing_white_space(text: Seq<char>)
    ensures
        trailing_white_space(text) <= text.len(),
        trailing_white_space(text) == text.len() ==> is_blank(text),
    decreases text.len(),
{
    if text.len() > 0 && is_white_space(text.last()) {
        let rest = text.drop_last();
        lemma_trailing_white_space(rest);
        if trailing_white_space(text) == text.len() {
            assert forall|i: int| 0 <= i < text.len() implies is_white_space(
                #[trigger] text[i],
            ) by {
                if i < text.len() - 1 {
                    assert(text[i] == rest[i]);
                }
            }
        }
    }
}

/// Nothing is left of a text after trimming exactly where the text is
/// nothing but white space.
pub proof fn lemma_blank_is_trimmed_away(text: Seq<char>)
    ensures
        trimmed(text).len() == 0 <==> is_blank(text),
{
    lemma_leading_white_space(text);
    let lead = leading_white_space(text);
    let rest = text.skip(lead as int);
    lemma_trailing_white_space(rest);
    if is_blank(text) {
        if lead < text.len() {
            assert(is_white_space(text[lead as int]));
        }
    }
    if trimmed(text).len() == 0 {
        if rest.len() > 0 {
            assert(rest[0] == text[lead as int]);
            assert(is_white_space(rest[0]));
        }
    }
}

/// The configuration the window starts with.
pub open spec fn initial_config(source: SetupSource) -> SetupConfigView {
    match source {
        SetupSource::Missing => SetupConfigView {
            server_url: "http://localhost:3000/api/log-session"@,
            api_key: None,
            theme: "dark"@,
        },
        SetupSource::Unparseable => SetupConfigView {
            server_url: Seq::empty(),
            api_key: None,
            theme: Seq::empty(),
        },
        SetupSource::Loaded(config) => config@,
    }
}

/// The key that a typed access token stands for: none for an empty field.
pub open spec fn key_of_token(token: Seq<char>) -> Option<Seq<char>> {
    if token.len() == 0 {
        None
    } else {
        Some(token)
    }
}

/// What the window does in one frame.
#[derive(Clone, Copy, Debug, PartialEq, Eq, Structural)]
pub struct FrameAction {
    /// Start the tracker.
    pub launch_tracker: bool,
    /// Close the window; nothing is drawn in this frame.
    pub close: bool,
    /// Ask for another frame, so that the delay is noticed when it is over.
    pub repaint: bool,
}

/// Milliseconds from the reading `earlier` to the reading `now`; none where
/// `now` is the earlier one.
pub open spec fn millis_since(earlier: u64, now: u64) -> int {
    if now >= earlier {
        now - earlier
    } else {
        0
    }
}

/// The action of a frame at `now_millis`, for a window saved at `saved_at`
/// that has or has not started the tracker yet.
pub open spec fn frame_action(saved_at: Option<u64>, tracker_launched: bool, now_millis: u64)
    -> FrameAction {
    match saved_at {
        None => FrameAction { launch_tracker: false, close: false, repaint: false },
        Some(at) => if millis_since(at, now_millis) >= CLOSE_DELAY_MILLIS {
            FrameAction { launch_tracker: !tracker_launched, close: true, repaint: false }
        } else {
            FrameAction { launch_tracker: false, close: false, repaint: true }
        },
    }
}

/// The state of the setup window.
pub struct SetupApp {
    pub config: SetupConfig,
    pub status_message: Option<String>,
    pub status_type: StatusType,
    /// Clock reading, in milliseconds, of the last successful save.
    pub successfully_saved_at: Option<u64>,
    pub tracker_launched: bool,
    pub current_theme: Theme,
}

/// A setup window as plain values.
pub struct SetupAppView {
    pub config: SetupConfigView,
    pub status_message: Option<Seq<char>>,
    pub status_type: StatusType,
    pub successfully_saved_at: Option<u64>,
    pub tracker_launched: bool,
    pub current_theme: Theme,
}

impl View for SetupApp {
    type V = SetupAppView;

    open spec fn view(&self) -> SetupAppView {
        SetupAppView {
            config: self.config@,
            status_message: opt_text(self.status_message),
            status_type: self.status_type,
            successfully_saved_at: self.successfully_saved_at,
            tracker_launched: self.tracker_launched,
            current_theme: self.current_theme,
        }
    }
}

impl SetupConfig {
    /// The configuration the window starts with: the stored one; without a
    /// file the local collector in the dark theme; an empty one for a file
    /// that holds none.
    pub fn initial(source: SetupSource) -> (config: SetupConfig)
        ensures
            config@ == initial_config(source),
    {
        match source {
            SetupSource::Missing => SetupConfig {
                server_url: "http://localhost:3000/api/log-session".to_owned(),
                api_key: None,
                theme: "dark".to_owned(),
            },
            SetupSource::Unparseable => SetupConfig {
                server_url: String::new(),
                api_key: None,
                theme: String::new(),
            },
            SetupSource::Loaded(config) => config,
        }
    }
}

impl SetupApp {
    /// The window as it opens: no status, nothing saved, the theme that the
    /// configuration names.
    pub fn new(source: SetupSource) -> (app: SetupApp)
        ensures
            app@ == (SetupAppView {
                config: initial_config(source),
                status_message: None,
                status_type: StatusType::Info,
                successfully_saved_at: None,
                tracker_launched: false,
                current_theme: Theme::of_name(initial_config(source).theme),
            }),
    {
        let config = SetupConfig::initial(source);
        let current_theme = Theme::from_str(config.theme.as_str());
        SetupApp {
            config,
            status_message: None,
            status_type: StatusType::Info,
            successfully_saved_at: None,
            tracker_launched: false,
            current_theme,
        }
    }

    /// Switches the theme and notes its name in the configuration.
    pub fn toggle_theme(&mut self)
        ensures
            final(self)@ == (SetupAppView {
                current_theme: old(self)@.current_theme.flipped(),
                config: SetupConfigView {
                    theme: old(self)@.current_theme.flipped().name(),
                    ..old(self)@.config
                },
                ..old(self)@
            }),
    {
        self.current_theme = self.current_theme.toggled();
        self.config.theme = self.current_theme.to_str().to_owned();
    }

    /// The endpoint field was edited: the status line is cleared.
    pub fn set_server_url(&mut self, server_url: String)
        ensures
            final(self)@ == (SetupAppView {
                status_message: None,
                config: SetupConfigView { server_url: server_url@, ..old(self)@.config },
                ..old(self)@
            }),
    {
        self.config.server_url = server_url;
        self.status_message = None;
    }

    /// The access token field was edited: an empty field means no key, and
    /// the status line is cleared.
    pub fn set_access_token(&mut self, token: String)
        ensures
            final(self)@ == (SetupAppView {
                status_message: None,
                config: SetupConfigView { api_key: key_of_token(token@), ..old(self)@.config },
                ..old(self)@
            }),
    {
        self.config.api_key = if token.as_str().is_empty() {
            None
        } else {
            Some(token)
        };
        self.status_message = None;
    }

    /// The text shown in the access token field.
    pub fn access_token(&self) -> (token: String)
        ensures
            token@ == match self@.config.api_key {
                Some(key) => key,
                None => Seq::empty(),
            },
    {
        match &self.config.api_key {
            Some(key) => key.clone(),
            None => String::new(),
        }
    }

    /// First half of a save, given whether the endpoint is blank. A blank
    /// endpoint is refused with an error on the status line and nothing is
    /// to be written; otherwise the theme's name is noted in the
    /// configuration, which is then to be written.
    pub fn decide_save(&mut self, endpoint_blank: bool) -> (write: bool)
        ensures
            write == !endpoint_blank,
            !write ==> final(self)@ == (SetupAppView {
                status_message: Some("Endpoint cannot be empty"@),
                status_type: StatusType::Error,
                ..old(self)@
            }),
            write ==> final(self)@ == (SetupAppView {
                config: SetupConfigView {
                    theme: old(self)@.current_theme.name(),
                    ..old(self)@.config
                },
                ..old(self)@
            }),
    {
        if endpoint_blank {
            self.status_message = Some("Endpoint cannot be empty".to_owned());
            self.status_type = StatusType::Error;
            false
        } else {
            self.config.theme = self.current_theme.to_str().to_owned();
            true
        }
    }

    /// First half of a save: tests the endpoint and decides as `decide_save`
    /// does. The configuration is to be written exactly where the endpoint
    /// holds more than white space.
    pub fn begin_save(&mut self) -> (write: bool)
        ensures
            write == !is_blank(old(self)@.config.server_url),
            !write ==> final(self)@ == (SetupAppView {
                status_message: Some("Endpoint cannot be empty"@),
                status_type: StatusType::Error,
                ..old(self)@
            }),
            write ==> final(self)@ == (SetupAppView {
                config: SetupConfigView {
                    theme: old(self)@.current_theme.name(),
                    ..old(self)@.config
                },
                ..old(self)@
            }),
    {
        let endpoint_blank = trim(self.config.server_url.as_str()).is_empty();
        proof {
            lemma_blank_is_trimmed_away(self@.config.server_url);
        }
        self.decide_save(endpoint_blank)
    }

    /// Second half of a save, with the outcome of writing the file at the
    /// clock reading `now_millis`. A failure is shown as an error; a success
    /// starts the delay after which the window closes.
    pub fn finish_save(&mut self, written: Result<(), String>, now_millis: u64)
        ensures
            match written {
                Ok(_) => final(self)@ == (SetupAppView {
                    status_message: Some("Settings synced! Launching..."@),
                    status_type: StatusType::Success,
                    successfully_saved_at: Some(now_millis),
                    tracker_launched: false,
                    ..old(self)@
                }),
                Err(reason) => final(self)@ == (SetupAppView {
                    status_message: Some("Error: "@ + reason@),
                    status_type: StatusType::Error,
                    ..old(self)@
                }),
            },
    {
        match written {
            Ok(_) => {
                self.status_message = Some("Settings synced! Launching...".to_owned());
                self.status_type = StatusType::Success;
                self.successfully_saved_at = Some(now_millis);
                self.tracker_launched = false;
            },
            Err(reason) => {
                let mut message = "Error: ".to_owned();
                message.append(reason.as_str());
                self.status_message = Some(message);
                self.status_type = StatusType::Error;
            },
        }
    }

    /// One frame at the clock reading `now_millis`. Once the delay after a
    /// successful save is over the tracker is started, once, and the window
    /// closes.
    pub fn on_frame(&mut self, now_millis: u64) -> (action: FrameAction)
        ensures
            action == frame_action(
                old(self)@.successfully_saved_at,
                old(self)@.tracker_launched,
                now_millis,
            ),
            final(self)@ == (SetupAppView {
                tracker_launched: old(self)@.tracker_launched || action.close,
                ..old(self)@
            }),
    {
        match self.successfully_saved_at {
            None => FrameAction { launch_tracker: false, close: false, repaint: false },
            Some(at) => if now_millis >= at && now_millis - at >= CLOSE_DELAY_MILLIS {
                let launch_tracker = !self.tracker_launched;
                self.tracker_launched = true;
                FrameAction { launch_tracker, close: true, repaint: false }
            } else {
                FrameAction { launch_tracker: false, close: false, repaint: true }
            },
        }
    }
}

/// `str::trim` of the standard library: the slice without leading and
/// trailing white space, where white space is what Unicode gives the
/// property `White_Space`.
#[verifier::external_body]
fn trim(text: &str) -> (rest: &str)
    ensures
        rest@ == trimmed(text@),
{
    text.trim()
}

} // verus!
