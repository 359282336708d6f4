//! The state of the program, and the small changes to it.
use vstd::prelude::*;

use crate::geometry::{
    active_model_count, design_height, design_width, lengths_grow_with_the_display, models_shown,
    scaled, total_widget_height_for, total_widget_width_for,
};
use crate::locale::{Catalog, LanguageId};
use crate::settings::{SettingsFile, SettingsView};
use crate::updater::{ReleaseDescriptor, ReleaseView};

verus! {

/// The text before anything is known.
pub const UNKNOWN_TEXT: &'static str = "--";

/// The text while an answer is awaited.
pub const WAITING_TEXT: &'static str = "...";

/// The text where there is no answer.
pub const FAILED_TEXT: &'static str = "!";

/// The usage of one window of time.
#[derive(Clone, Copy, PartialEq, Eq, Structural, Debug)]
pub struct UsageSection {
    /// The percentage, by the bits of the floating-point number that it is.
    pub percentage: u64,
    /// When the limit is reset, in seconds since the Unix epoch.
    pub resets_at: Option<u64>,
}

/// The usage of one model.
#[derive(Clone, Copy, PartialEq, Eq, Structural, Debug)]
pub struct ModelUsage {
    pub session: UsageSection,
    pub weekly: UsageSection,
}

/// The usage of the models, as far as it is known.
#[derive(Clone, Copy, PartialEq, Eq, Structural, Debug)]
pub struct AppUsageData {
    pub claude_code: Option<ModelUsage>,
    pub codex: Option<ModelUsage>,
}

/// The usage data in words, as it stands now and in the current language. The
/// lines of a model without data are not used.
pub struct UsageLines {
    pub session: String,
    pub weekly: String,
    pub codex_session: String,
    pub codex_weekly: String,
}

/// What [`UsageLines`] say.
pub struct LinesView {
    pub session: Seq<char>,
    pub weekly: Seq<char>,
    pub codex_session: Seq<char>,
    pub codex_weekly: Seq<char>,
}

impl View for UsageLines {
    type V = LinesView;

    open spec fn view(&self) -> LinesView {
        LinesView {
            session: self.session@,
            weekly: self.weekly@,
            codex_session: self.codex_session@,
            codex_weekly: self.codex_weekly@,
        }
    }
}

/// Which credentials are watched while polling is paused.
#[derive(Clone, Copy, PartialEq, Eq, Structural, Debug)]
pub enum CredentialWatchMode {
    /// Those in use.
    ActiveSource,
    /// All that there may be.
    AllSources,
}

/// What the watched credentials looked like, one line for each file.
pub type CredentialWatchSnapshot = Vec<String>;

/// The views of the lines of a snapshot.
pub open spec fn snapshot_view(snapshot: Seq<String>) -> Seq<Seq<char>> {
    snapshot.map_values(|line: String| line@)
}

/// How far looking for an update has come.
#[derive(Debug)]
pub enum UpdateStatus {
    Idle,
    Checking,
    Applying,
    UpToDate,
    Available(ReleaseDescriptor),
}

/// What an [`UpdateStatus`] says.
pub enum UpdateStatusView {
    Idle,
    Checking,
    Applying,
    UpToDate,
    Available(ReleaseView),
}

impl View for UpdateStatus {
    type V = UpdateStatusView;

    open spec fn view(&self) -> UpdateStatusView {
        match self {
            UpdateStatus::Idle => UpdateStatusView::Idle,
            UpdateStatus::Checking => UpdateStatusView::Checking,
            UpdateStatus::Applying => UpdateStatusView::Applying,
            UpdateStatus::UpToDate => UpdateStatusView::UpToDate,
            UpdateStatus::Available(release) => UpdateStatusView::Available(release@),
        }
    }
}

/// The state of the program once its window is there.
pub struct AppState {
    pub is_dark: bool,
    pub language_override: Option<LanguageId>,
    pub language: LanguageId,
    pub session_percent: u64,
    pub session_text: String,
    pub weekly_percent: u64,
    pub weekly_text: String,
    pub codex_session_percent: u64,
    pub codex_session_text: String,
    pub codex_weekly_percent: u64,
    pub codex_weekly_text: String,
    pub show_claude_code: bool,
    pub show_codex: bool,
    pub layout_horizontal: bool,
    pub data: Option<AppUsageData>,
    pub poll_interval_ms: u32,
    pub retry_count: u32,
    pub force_notify_auth_error: bool,
    pub auth_error_paused_polling: bool,
    pub auth_watch_mode: CredentialWatchMode,
    pub auth_watch_snapshot: CredentialWatchSnapshot,
    pub last_poll_ok: bool,
    pub update_status: UpdateStatus,
    pub last_update_check_unix: Option<u64>,
    pub window_x: i32,
    pub window_y: i32,
    pub dragging: bool,
    pub drag_start_mouse_x: i32,
    pub drag_start_mouse_y: i32,
    pub drag_start_window_x: i32,
    pub drag_start_window_y: i32,
    pub widget_visible: bool,
    pub always_on_top: bool,
}

/// What an [`AppState`] says.
pub struct AppStateView {
    pub is_dark: bool,
    pub language_override: Option<LanguageId>,
    pub language: LanguageId,
    pub session_percent: u64,
    pub session_text: Seq<char>,
    pub weekly_percent: u64,
    pub weekly_text: Seq<char>,
    pub codex_session_percent: u64,
    pub codex_session_text: Seq<char>,
    pub codex_weekly_percent: u64,
    pub codex_weekly_text: Seq<char>,
    pub show_claude_code: bool,
    pub show_codex: bool,
    pub layout_horizontal: bool,
    pub data: Option<AppUsageData>,
    pub poll_interval_ms: u32,
    pub retry_count: u32,
    pub force_notify_auth_error: bool,
    pub auth_error_paused_polling: bool,
    pub auth_watch_mode: CredentialWatchMode,
    pub auth_watch_snapshot: Seq<Seq<char>>,
    pub last_poll_ok: bool,
    pub update_status: UpdateStatusView,
    pub last_update_check_unix: Option<u64>,
    pub window_x: i32,
    pub window_y: i32,
    pub dragging: bool,
    pub drag_start_mouse_x: i32,
    pub drag_start_mouse_y: i32,
    pub drag_start_window_x: i32,
    pub drag_start_window_y: i32,
    pub widget_visible: bool,
    pub always_on_top: bool,
}

impl View for AppState {
    type V = AppStateView;

    open spec fn view(&self) -> AppStateView {
        AppStateView {
            is_dark: self.is_dark,
            language_override: self.language_override,
            language: self.language,
            session_percent: self.session_percent,
            session_text: self.session_text@,
            weekly_percent: self.weekly_percent,
            weekly_text: self.weekly_text@,
            codex_session_percent: self.codex_session_percent,
            codex_session_text: self.codex_session_text@,
            codex_weekly_percent: self.codex_weekly_percent,
            codex_weekly_text: self.codex_weekly_text@,
            show_claude_code: self.show_claude_code,
            show_codex: self.show_codex,
            layout_horizontal: self.layout_horizontal,
            data: self.data,
            poll_interval_ms: self.poll_interval_ms,
            retry_count: self.retry_count,
            force_notify_auth_error: self.force_notify_auth_error,
            auth_error_paused_polling: self.auth_error_paused_polling,
            auth_watch_mode: self.auth_watch_mode,
            auth_watch_snapshot: snapshot_view(self.auth_watch_snapshot@),
            last_poll_ok: self.last_poll_ok,
            update_status: self.update_status@,
            last_update_check_unix: self.last_update_check_unix,
            window_x: self.window_x,
            window_y: self.window_y,
            dragging: self.dragging,
            drag_start_mouse_x: self.drag_start_mouse_x,
            drag_start_mouse_y: self.drag_start_mouse_y,
            drag_start_window_x: self.drag_start_window_x,
            drag_start_window_y: self.drag_start_window_y,
            widget_visible: self.widget_visible,
            always_on_top: self.always_on_top,
        }
    }
}

/// The whole program: the DPI that it draws at, and its state once its window
/// is there.
pub struct App {
    pub dpi: u32,
    pub state: Option<AppState>,
}

/// What an [`App`] says.
pub struct AppView {
    pub dpi: u32,
    pub state: Option<AppStateView>,
}

impl View for App {
    type V = AppView;

    open spec fn view(&self) -> AppView {
        AppView {
            dpi: self.dpi,
            state: match self.state {
                Some(s) => Some(s@),
                None => None,
            },
        }
    }
}

/// The program with its state changed.
pub open spec fn with_state(a: AppView, s: AppStateView) -> AppView {
    AppView { state: Some(s), ..a }
}

/// The state with the same text for every limit.
pub open spec fn with_all_texts(s: AppStateView, text: Seq<char>) -> AppStateView {
    AppStateView {
        session_text: text,
        weekly_text: text,
        codex_session_text: text,
        codex_weekly_text: text,
        ..s
    }
}

/// The state with its usage texts written anew from the data of the last poll.
/// A poll that failed leaves its own texts alone; a model that is shown but has
/// no data gets the text for a missing answer.
pub open spec fn refreshed(s: AppStateView, lines: LinesView) -> AppStateView {
    match s.data {
        Some(data) if s.last_poll_ok => {
            let (session, weekly) = if data.claude_code is Some {
                (lines.session, lines.weekly)
            } else if s.show_claude_code {
                (FAILED_TEXT@, FAILED_TEXT@)
            } else {
                (s.session_text, s.weekly_text)
            };
            let (codex_session, codex_weekly) = if data.codex is Some {
                (lines.codex_session, lines.codex_weekly)
            } else if s.show_codex {
                (FAILED_TEXT@, FAILED_TEXT@)
            } else {
                (s.codex_session_text, s.codex_weekly_text)
            };
            AppStateView {
                session_text: session,
                weekly_text: weekly,
                codex_session_text: codex_session,
                codex_weekly_text: codex_weekly,
                ..s
            }
        },
        _ => s,
    }
}

/// The state in which a run begins.
pub open spec fn initial_state(
    settings: SettingsView,
    is_dark: bool,
    language_override: Option<LanguageId>,
    language: LanguageId,
    x: i32,
    y: i32,
) -> AppStateView {
    AppStateView {
        is_dark,
        language_override,
        language,
        session_percent: 0,
        session_text: UNKNOWN_TEXT@,
        weekly_percent: 0,
        weekly_text: UNKNOWN_TEXT@,
        codex_session_percent: 0,
        codex_session_text: UNKNOWN_TEXT@,
        codex_weekly_percent: 0,
        codex_weekly_text: UNKNOWN_TEXT@,
        show_claude_code: settings.show_claude_code,
        show_codex: settings.show_codex,
        layout_horizontal: settings.layout_horizontal,
        data: None,
        poll_interval_ms: settings.poll_interval_ms,
        retry_count: 0,
        force_notify_auth_error: false,
        auth_error_paused_polling: false,
        auth_watch_mode: CredentialWatchMode::ActiveSource,
        auth_watch_snapshot: seq![],
        last_poll_ok: false,
        update_status: UpdateStatusView::Idle,
        last_update_check_unix: settings.last_update_check_unix,
        window_x: x,
        window_y: y,
        dragging: false,
        drag_start_mouse_x: 0,
        drag_start_mouse_y: 0,
        drag_start_window_x: x,
        drag_start_window_y: y,
        widget_visible: settings.widget_visible,
        always_on_top: settings.always_on_top,
    }
}

/// The settings that a state amounts to. A language is stored by its code.
pub open spec fn settings_of(s: AppStateView, catalog: Catalog) -> SettingsView {
    SettingsView {
        window_x: Some(s.window_x),
        window_y: Some(s.window_y),
        poll_interval_ms: s.poll_interval_ms,
        language: match s.language_override {
            Some(id) => Some(catalog.entry(id).code@),
            None => None,
        },
        last_update_check_unix: s.last_update_check_unix,
        widget_visible: s.widget_visible,
        show_claude_code: s.show_claude_code,
        show_codex: s.show_codex,
        layout_horizontal: s.layout_horizontal,
        always_on_top: s.always_on_top,
    }
}

/// The width of the widget in a state.
pub open spec fn state_width(s: AppStateView, dpi: u32) -> int {
    scaled(
        design_width(models_shown(s.show_claude_code, s.show_codex), s.layout_horizontal),
        dpi as int,
    )
}

/// The height of the widget in a state.
pub open spec fn state_height(s: AppStateView, dpi: u32) -> int {
    scaled(
        design_height(models_shown(s.show_claude_code, s.show_codex), s.layout_horizontal),
        dpi as int,
    )
}

/// A line of usage, or the text for a missing answer.
fn line_or_failed(there: bool, line: String) -> (text: String)
    ensures
        text@ == if there {
            line@
        } else {
            FAILED_TEXT@
        },
{
    if there {
        line
    } else {
        FAILED_TEXT.to_string()
    }
}

impl AppState {
    /// The state in which a run begins, from the settings that were loaded.
    pub fn new(
        settings: &SettingsFile,
        is_dark: bool,
        language_override: Option<LanguageId>,
        language: LanguageId,
        x: i32,
        y: i32,
    ) -> (state: Self)
        ensures
            state@ == initial_state(settings@, is_dark, language_override, language, x, y),
    {
        let snapshot: Vec<String> = Vec::new();
        assert(snapshot_view(snapshot@) =~= Seq::<Seq<char>>::empty());
        AppState {
            is_dark,
            language_override,
            language,
            session_percent: 0,
            session_text: UNKNOWN_TEXT.to_string(),
            weekly_percent: 0,
            weekly_text: UNKNOWN_TEXT.to_string(),
            codex_session_percent: 0,
            codex_session_text: UNKNOWN_TEXT.to_string(),
            codex_weekly_percent: 0,
            codex_weekly_text: UNKNOWN_TEXT.to_string(),
            show_claude_code: settings.show_claude_code,
            show_codex: settings.show_codex,
            layout_horizontal: settings.layout_horizontal,
            data: None,
            poll_interval_ms: settings.poll_interval_ms,
            retry_count: 0,
            force_notify_auth_error: false,
            auth_error_paused_polling: false,
            auth_watch_mode: CredentialWatchMode::ActiveSource,
            auth_watch_snapshot: snapshot,
            last_poll_ok: false,
            update_status: UpdateStatus::Idle,
            last_update_check_unix: settings.last_update_check_unix,
            window_x: x,
            window_y: y,
            dragging: false,
            drag_start_mouse_x: 0,
            drag_start_mouse_y: 0,
            drag_start_window_x: x,
            drag_start_window_y: y,
            widget_visible: settings.widget_visible,
            always_on_top: settings.always_on_top,
        }
    }

    /// Sets the texts of all limits.
    pub fn set_all_texts(&mut self, text: &str)
        ensures
            final(self)@ == with_all_texts(old(self)@, text@),
    {
        self.session_text = text.to_string();
        self.weekly_text = text.to_string();
        self.codex_session_text = text.to_string();
        self.codex_weekly_text = text.to_string();
    }

    /// Writes the usage texts anew from the data of the last poll.
    pub fn refresh_usage_texts(&mut self, lines: UsageLines)
        ensures
            final(self)@ == refreshed(old(self)@, lines@),
    {
        if !self.last_poll_ok {
            return;
        }
        let data: AppUsageData = match self.data {
            Some(data) => data,
            None => return,
        };
        let claude_code: bool = data.claude_code.is_some();
        let codex: bool = data.codex.is_some();
        if claude_code || self.show_claude_code {
            self.session_text = line_or_failed(claude_code, lines.session);
            self.weekly_text = line_or_failed(claude_code, lines.weekly);
        }
        if codex || self.show_codex {
            self.codex_session_text = line_or_failed(codex, lines.codex_session);
            self.codex_weekly_text = line_or_failed(codex, lines.codex_weekly);
        }
    }

    /// The width of the widget in this state.
    pub fn total_widget_width(&self, dpi: u32) -> (width: i32)
        ensures
            width == state_width(self@, dpi),
    {
        total_widget_width_for(
            active_model_count(self.show_claude_code, self.show_codex),
            self.layout_horizontal,
            dpi,
        )
    }

    /// The height of the widget in this state.
    pub fn total_widget_height(&self, dpi: u32) -> (height: i32)
        ensures
            height == state_height(self@, dpi),
    {
        total_widget_height_for(
            active_model_count(self.show_claude_code, self.show_codex),
            self.layout_horizontal,
            dpi,
        )
    }

    /// The settings to store.
    pub fn settings(&self, catalog: &Catalog) -> (settings: SettingsFile)
        ensures
            settings@ == settings_of(self@, *catalog),
    {
        SettingsFile {
            window_x: Some(self.window_x),
            window_y: Some(self.window_y),
            poll_interval_ms: self.poll_interval_ms,
            language: match self.language_override {
                Some(id) => Some(catalog.language(id).code.to_string()),
                None => None,
            },
            last_update_check_unix: self.last_update_check_unix,
            widget_visible: self.widget_visible,
            show_claude_code: self.show_claude_code,
            show_codex: self.show_codex,
            layout_horizontal: self.layout_horizontal,
            always_on_top: self.always_on_top,
        }
    }
}

// What stays as it is, by group of fields.

/// What the user has chosen and what the system has: the same in both states.
pub open spec fn same_choices(s: AppStateView, t: AppStateView) -> bool {
    &&& t.is_dark == s.is_dark
    &&& t.language_override == s.language_override
    &&& t.language == s.language
    &&& t.show_claude_code == s.show_claude_code
    &&& t.show_codex == s.show_codex
    &&& t.layout_horizontal == s.layout_horizontal
    &&& t.poll_interval_ms == s.poll_interval_ms
    &&& t.widget_visible == s.widget_visible
    &&& t.always_on_top == s.always_on_top
}

/// The percentages and the data of the last answer are the same in both states.
pub open spec fn same_percentages(s: AppStateView, t: AppStateView) -> bool {
    &&& t.session_percent == s.session_percent
    &&& t.weekly_percent == s.weekly_percent
    &&& t.codex_session_percent == s.codex_session_percent
    &&& t.codex_weekly_percent == s.codex_weekly_percent
    &&& t.data == s.data
}

/// The four usage texts are the same in both states.
pub open spec fn same_texts(s: AppStateView, t: AppStateView) -> bool {
    &&& t.session_text == s.session_text
    &&& t.weekly_text == s.weekly_text
    &&& t.codex_session_text == s.codex_session_text
    &&& t.codex_weekly_text == s.codex_weekly_text
}

/// What is known of polling is the same in both states.
pub open spec fn same_polling(s: AppStateView, t: AppStateView) -> bool {
    &&& t.retry_count == s.retry_count
    &&& t.force_notify_auth_error == s.force_notify_auth_error
    &&& t.auth_error_paused_polling == s.auth_error_paused_polling
    &&& t.auth_watch_mode == s.auth_watch_mode
    &&& t.auth_watch_snapshot == s.auth_watch_snapshot
    &&& t.last_poll_ok == s.last_poll_ok
}

/// What is known of updates is the same in both states.
pub open spec fn same_updates(s: AppStateView, t: AppStateView) -> bool {
    &&& t.update_status == s.update_status
    &&& t.last_update_check_unix == s.last_update_check_unix
}

/// The window is at the same place in both states.
pub open spec fn same_place(s: AppStateView, t: AppStateView) -> bool {
    t.window_x == s.window_x && t.window_y == s.window_y
}

/// The drag that is going on, if any, is the same in both states.
pub open spec fn same_drag(s: AppStateView, t: AppStateView) -> bool {
    &&& t.dragging == s.dragging
    &&& t.drag_start_mouse_x == s.drag_start_mouse_x
    &&& t.drag_start_mouse_y == s.drag_start_mouse_y
    &&& t.drag_start_window_x == s.drag_start_window_x
    &&& t.drag_start_window_y == s.drag_start_window_y
}

// Laws.

/// Two states that agree in every group of fields are the same: the groups leave
/// nothing out.
pub proof fn groups_make_up_the_state(s: AppStateView, t: AppStateView)
    requires
        same_choices(s, t),
        same_percentages(s, t),
        same_texts(s, t),
        same_polling(s, t),
        same_updates(s, t),
        same_place(s, t),
        same_drag(s, t),
    ensures
        s == t,
{
}

/// The view of a state tells each of its fields by that field.
pub proof fn the_view_tells_the_state(s: AppState)
    ensures
        s@.is_dark == s.is_dark && s@.language_override == s.language_override && s@.language
            == s.language,
        s@.session_percent == s.session_percent && s@.session_text == s.session_text@,
        s@.weekly_percent == s.weekly_percent && s@.weekly_text == s.weekly_text@,
        s@.codex_session_percent == s.codex_session_percent && s@.codex_session_text
            == s.codex_session_text@,
        s@.codex_weekly_percent == s.codex_weekly_percent && s@.codex_weekly_text
            == s.codex_weekly_text@,
        s@.show_claude_code == s.show_claude_code && s@.show_codex == s.show_codex,
        s@.layout_horizontal == s.layout_horizontal && s@.data == s.data,
        s@.poll_interval_ms == s.poll_interval_ms && s@.retry_count == s.retry_count,
        s@.force_notify_auth_error == s.force_notify_auth_error,
        s@.auth_error_paused_polling == s.auth_error_paused_polling,
        s@.auth_watch_mode == s.auth_watch_mode && s@.last_poll_ok == s.last_poll_ok,
        s@.auth_watch_snapshot.len() == s.auth_watch_snapshot@.len(),
        forall|i: int|
            0 <= i < s.auth_watch_snapshot@.len() ==> #[trigger] s@.auth_watch_snapshot[i]
                == s.auth_watch_snapshot@[i]@,
        s@.update_status == s.update_status@ && s@.last_update_check_unix
            == s.last_update_check_unix,
        s@.window_x == s.window_x && s@.window_y == s.window_y && s@.dragging == s.dragging,
        s@.drag_start_mouse_x == s.drag_start_mouse_x && s@.drag_start_mouse_y
            == s.drag_start_mouse_y,
        s@.drag_start_window_x == s.drag_start_window_x && s@.drag_start_window_y
            == s.drag_start_window_y,
        s@.widget_visible == s.widget_visible && s@.always_on_top == s.always_on_top,
{
}

/// What is stored is what the state holds, each setting by itself; of the
/// language, the code of the one that the user has set.
pub proof fn what_is_stored_is_what_is_set(s: AppStateView, catalog: Catalog)
    ensures
        settings_of(s, catalog).window_x == Some(s.window_x),
        settings_of(s, catalog).window_y == Some(s.window_y),
        settings_of(s, catalog).poll_interval_ms == s.poll_interval_ms,
        settings_of(s, catalog).last_update_check_unix == s.last_update_check_unix,
        settings_of(s, catalog).widget_visible == s.widget_visible,
        settings_of(s, catalog).show_claude_code == s.show_claude_code,
        settings_of(s, catalog).show_codex == s.show_codex,
        settings_of(s, catalog).layout_horizontal == s.layout_horizontal,
        settings_of(s, catalog).always_on_top == s.always_on_top,
        s.language_override is None ==> settings_of(s, catalog).language is None,
        s.language_override matches Some(id) ==> settings_of(s, catalog).language == Some(
            catalog.entry(id).code@,
        ),
{
}

/// A run begins with what the settings say, at the place that it is given, with
/// nothing known of usage, failures or updates.
pub proof fn runs_begin_as_their_settings_say(
    settings: SettingsView,
    is_dark: bool,
    language_override: Option<LanguageId>,
    language: LanguageId,
    x: i32,
    y: i32,
)
    ensures
        ({
            let s = initial_state(settings, is_dark, language_override, language, x, y);
            &&& s.is_dark == is_dark && s.language_override == language_override && s.language
                == language
            &&& s.show_claude_code == settings.show_claude_code && s.show_codex
                == settings.show_codex
            &&& s.layout_horizontal == settings.layout_horizontal
            &&& s.poll_interval_ms == settings.poll_interval_ms
            &&& s.widget_visible == settings.widget_visible
            &&& s.always_on_top == settings.always_on_top
            &&& s.last_update_check_unix == settings.last_update_check_unix
            &&& s.update_status == UpdateStatusView::Idle
            &&& s.window_x == x && s.window_y == y && !s.dragging
            &&& s.drag_start_window_x == x && s.drag_start_window_y == y
            &&& s.drag_start_mouse_x == 0 && s.drag_start_mouse_y == 0
            &&& s.session_percent == 0 && s.weekly_percent == 0
            &&& s.codex_session_percent == 0 && s.codex_weekly_percent == 0
            &&& s.session_text == UNKNOWN_TEXT@ && s.weekly_text == UNKNOWN_TEXT@
            &&& s.codex_session_text == UNKNOWN_TEXT@ && s.codex_weekly_text == UNKNOWN_TEXT@
            &&& s.data is None && !s.last_poll_ok && s.retry_count == 0
            &&& !s.force_notify_auth_error && !s.auth_error_paused_polling
            &&& s.auth_watch_mode == CredentialWatchMode::ActiveSource
                && s.auth_watch_snapshot.len() == 0
        }),
{
}

/// After an answer, writing the texts anew gives each limit its own line: the
/// lines of a model with data, the text for a missing answer where a model is
/// shown without data, and nothing new otherwise.
pub proof fn each_limit_has_its_own_line(s: AppStateView, data: AppUsageData, lines: LinesView)
    requires
        s.last_poll_ok,
        s.data == Some(data),
    ensures
        ({
            let t = refreshed(s, lines);
            &&& data.claude_code is Some ==> t.session_text == lines.session && t.weekly_text
                == lines.weekly
            &&& data.claude_code is None && s.show_claude_code ==> t.session_text == "!"@
                && t.weekly_text == "!"@
            &&& data.claude_code is None && !s.show_claude_code ==> t.session_text
                == s.session_text && t.weekly_text == s.weekly_text
            &&& data.codex is Some ==> t.codex_session_text == lines.codex_session
                && t.codex_weekly_text == lines.codex_weekly
            &&& data.codex is None && s.show_codex ==> t.codex_session_text == "!"@
                && t.codex_weekly_text == "!"@
            &&& data.codex is None && !s.show_codex ==> t.codex_session_text
                == s.codex_session_text && t.codex_weekly_text == s.codex_weekly_text
        }),
{
}

/// Writing the texts anew touches the texts alone, and not even them without an
/// answer to write from.
pub proof fn writing_texts_changes_texts_alone(s: AppStateView, lines: LinesView)
    ensures
        same_choices(s, refreshed(s, lines)),
        same_percentages(s, refreshed(s, lines)),
        same_polling(s, refreshed(s, lines)),
        same_updates(s, refreshed(s, lines)),
        same_place(s, refreshed(s, lines)),
        same_drag(s, refreshed(s, lines)),
        !s.last_poll_ok || s.data is None ==> refreshed(s, lines) == s,
{
}

/// The view of usage lines tells each line by itself.
pub proof fn the_view_tells_the_lines(lines: UsageLines)
    ensures
        lines@.session == lines.session@,
        lines@.weekly == lines.weekly@,
        lines@.codex_session == lines.codex_session@,
        lines@.codex_weekly == lines.codex_weekly@,
{
}

/// The view of an update status tells how far it has come.
pub proof fn the_view_tells_the_update_status(status: UpdateStatus)
    ensures
        status is Idle == (status@ is Idle),
        status is Checking == (status@ is Checking),
        status is Applying == (status@ is Applying),
        status is UpToDate == (status@ is UpToDate),
        status matches UpdateStatus::Available(release) ==> status@ == UpdateStatusView::Available(
            release@,
        ),
{
}

/// The view of the program tells its DPI and its state.
pub proof fn the_view_tells_the_program(a: App)
    ensures
        a@.dpi == a.dpi,
        a.state is None == (a@.state is None),
        a.state matches Some(s) ==> a@.state == Some(s@),
{
}

/// Changing the state leaves the DPI as it is.
pub proof fn the_state_is_apart_from_the_display(a: AppView, s: AppStateView)
    ensures
        with_state(a, s).dpi == a.dpi,
        with_state(a, s).state == Some(s),
{
}

/// On a display of a multiple of the design density the widget is as wide as its
/// cards and the space round them: with two cards side by side both and a gap,
/// otherwise one; and as high as its title bar and the cards that stand one below
/// the other.
pub proof fn the_widget_is_as_large_as_its_cards(s: AppStateView, k: int)
    requires
        1 <= k <= 1_000_000,
    ensures
        ({
            let dpi = (96 * k) as u32;
            let both = s.show_claude_code && s.show_codex;
            &&& both && s.layout_horizontal ==> state_width(s, dpi) == (14 + 214 + 12 + 214 + 14)
                * k
            &&& !(both && s.layout_horizontal) ==> state_width(s, dpi) == (14 + 274 + 14) * k
            &&& both && !s.layout_horizontal ==> state_height(s, dpi) == (34 + 14 + 126 + 12 + 126
                + 14) * k
            &&& !(both && !s.layout_horizontal) ==> state_height(s, dpi) == (34 + 14 + 126 + 14)
                * k
        }),
{
    lengths_grow_with_the_display(468, k);
    lengths_grow_with_the_display(302, k);
    lengths_grow_with_the_display(326, k);
    lengths_grow_with_the_display(188, k);
}

} // verus!
