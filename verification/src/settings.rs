//! The settings that outlast a run.
use vstd::prelude::*;

verus! {

/// Poll every minute. This and the intervals below are in milliseconds.
pub const POLL_1_MIN: u32 = 60_000;

/// Poll every five minutes.
pub const POLL_5_MIN: u32 = 300_000;

/// Poll every quarter of an hour.
pub const POLL_15_MIN: u32 = 900_000;

/// Poll every hour.
pub const POLL_1_HOUR: u32 = 3_600_000;

/// The directory, below that for application data, of the settings file.
pub const SETTINGS_DIR: &'static str = "AIUsageMonitor";

/// The name of the settings file.
pub const SETTINGS_FILE: &'static str = "settings.json";

/// The directory for application data where the environment names none.
pub const DEFAULT_APPDATA: &'static str = ".";

/// The settings as they are stored.
#[derive(Debug)]
pub struct SettingsFile {
    pub window_x: Option<i32>,
    pub window_y: Option<i32>,
    pub poll_interval_ms: u32,
    pub language: Option<String>,
    pub last_update_check_unix: Option<u64>,
    pub widget_visible: bool,
    pub show_claude_code: bool,
    pub show_codex: bool,
    pub layout_horizontal: bool,
    pub always_on_top: bool,
}

/// What a [`SettingsFile`] says.
pub struct SettingsView {
    pub window_x: Option<i32>,
    pub window_y: Option<i32>,
    pub poll_interval_ms: u32,
    pub language: Option<Seq<char>>,
    pub last_update_check_unix: Option<u64>,
    pub widget_visible: bool,
    pub show_claude_code: bool,
    pub show_codex: bool,
    pub layout_horizontal: bool,
    pub always_on_top: bool,
}

/// The view of a text that may be missing.
pub open spec fn optional_text(text: Option<String>) -> Option<Seq<char>> {
    match text {
        Some(s) => Some(s@),
        None => None,
    }
}

impl View for SettingsFile {
    type V = SettingsView;

    open spec fn view(&self) -> SettingsView {
        SettingsView {
            window_x: self.window_x,
            window_y: self.window_y,
            poll_interval_ms: self.poll_interval_ms,
            language: optional_text(self.language),
            last_update_check_unix: self.last_update_check_unix,
            widget_visible: self.widget_visible,
            show_claude_code: self.show_claude_code,
            show_codex: self.show_codex,
            layout_horizontal: self.layout_horizontal,
            always_on_top: self.always_on_top,
        }
    }
}

/// The settings of a first run.
pub open spec fn default_settings() -> SettingsView {
    SettingsView {
        window_x: None,
        window_y: None,
        poll_interval_ms: POLL_15_MIN,
        language: None,
        last_update_check_unix: None,
        widget_visible: true,
        show_claude_code: true,
        show_codex: false,
        layout_horizontal: true,
        always_on_top: false,
    }
}

impl Default for SettingsFile {
    fn default() -> (settings: Self)
        ensures
            settings@ == default_settings(),
    {
        SettingsFile {
            window_x: None,
            window_y: None,
            poll_interval_ms: default_poll_interval(),
            language: None,
            last_update_check_unix: None,
            widget_visible: true,
            show_claude_code: true,
            show_codex: false,
            layout_horizontal: true,
            always_on_top: false,
        }
    }
}

/// The poll interval where the file gives none.
pub fn default_poll_interval() -> (interval: u32)
    ensures
        interval == default_settings().poll_interval_ms,
{
    POLL_15_MIN
}

/// Whether the widget is shown where the file does not say.
pub fn default_widget_visible() -> (visible: bool)
    ensures
        visible == default_settings().widget_visible,
{
    true
}

/// Whether the first model is shown where the file does not say.
pub fn default_show_claude_code() -> (shown: bool)
    ensures
        shown == default_settings().show_claude_code,
{
    true
}

/// Whether the second model is shown where the file does not say.
pub fn default_show_codex() -> (shown: bool)
    ensures
        shown == default_settings().show_codex,
{
    false
}

/// Whether the cards stand side by side where the file does not say.
pub fn default_layout_horizontal() -> (horizontal: bool)
    ensures
        horizontal == default_settings().layout_horizontal,
{
    true
}

/// The settings that a run starts with, from those in the file, if there is a
/// file that can be read. Where the file shows no model, the first is shown.
pub open spec fn loaded(file: Option<SettingsView>) -> SettingsView {
    match file {
        Some(s) => if !s.show_claude_code && !s.show_codex {
            SettingsView { show_claude_code: true, ..s }
        } else {
            s
        },
        None => default_settings(),
    }
}

/// Makes the settings that a run starts with.
pub fn load_settings(file: Option<SettingsFile>) -> (settings: SettingsFile)
    ensures
        settings@ == loaded(
            match file {
                Some(s) => Some(s@),
                None => None,
            },
        ),
        settings@.show_claude_code || settings@.show_codex,
{
    match file {
        Some(mut settings) => {
            if !settings.show_claude_code && !settings.show_codex {
                settings.show_claude_code = true;
            }
            settings
        },
        None => SettingsFile::default(),
    }
}

/// The directories and the name of the settings file, from the outermost:
/// below the directory that the environment gives for application data, or the
/// current one.
pub fn settings_path(appdata: Option<String>) -> (path: Vec<String>)
    ensures
        path@.map_values(|s: String| s@) == seq![
            match appdata {
                Some(dir) => dir@,
                None => DEFAULT_APPDATA@,
            },
            SETTINGS_DIR@,
            SETTINGS_FILE@,
        ],
{
    let base: String = match appdata {
        Some(dir) => dir,
        None => DEFAULT_APPDATA.to_string(),
    };
    let path: Vec<String> = vec![base, SETTINGS_DIR.to_string(), SETTINGS_FILE.to_string()];
    assert(path@.map_values(|s: String| s@) =~= seq![base@, SETTINGS_DIR@, SETTINGS_FILE@]);
    path
}

/// Settings that show a model are loaded as they were saved, and what was
/// loaded once is loaded the same again.
pub proof fn loading_keeps_settings(s: SettingsView)
    ensures
        s.show_claude_code || s.show_codex ==> loaded(Some(s)) == s,
        loaded(Some(loaded(Some(s)))) == loaded(Some(s)),
{
}

/// The view of settings tells each of them by itself.
pub proof fn the_view_tells_the_settings(f: SettingsFile)
    ensures
        f@.window_x == f.window_x && f@.window_y == f.window_y,
        f@.poll_interval_ms == f.poll_interval_ms,
        f.language is None == (f@.language is None),
        f.language matches Some(code) ==> f@.language == Some(code@),
        f@.last_update_check_unix == f.last_update_check_unix,
        f@.widget_visible == f.widget_visible,
        f@.show_claude_code == f.show_claude_code && f@.show_codex == f.show_codex,
        f@.layout_horizontal == f.layout_horizontal,
        f@.always_on_top == f.always_on_top,
{
}

/// Loading changes no setting but whether the first model is shown, and that only
/// where no model would be.
pub proof fn loading_changes_the_models_alone(s: SettingsView)
    ensures
        ({
            let t = loaded(Some(s));
            &&& t.window_x == s.window_x && t.window_y == s.window_y
            &&& t.poll_interval_ms == s.poll_interval_ms && t.language == s.language
            &&& t.last_update_check_unix == s.last_update_check_unix
            &&& t.widget_visible == s.widget_visible && t.always_on_top == s.always_on_top
            &&& t.layout_horizontal == s.layout_horizontal && t.show_codex == s.show_codex
            &&& t.show_claude_code == (s.show_claude_code || !s.show_codex)
        }),
{
}

/// Without a file a run is a first run: no place, no language and no earlier look
/// for an update; a poll every fifteen minutes; the first model alone, to be seen,
/// among the other windows.
pub proof fn first_runs_begin_alike(s: SettingsView)
    requires
        s == loaded(None),
    ensures
        s.window_x is None && s.window_y is None && s.language is None,
        s.last_update_check_unix is None,
        s.poll_interval_ms == 15 * 60 * 1000,
        s.show_claude_code && !s.show_codex && s.layout_horizontal,
        s.widget_visible && !s.always_on_top,
{
}

} // verus!
