//! The beginning of a run: where the window first stands, the first state and
//! what is done before the first message comes.
use vstd::prelude::*;

use crate::action::{Action, TimerId};
use crate::geometry::{
    active_model_count, clamp_fits, clamp_floating_position, default_floating_position,
    default_place_fits, default_x, default_y, design_height, design_width, held, last_x, last_y,
    models_shown, scaled, scaling_grows_with_dpi, total_widget_height_for, total_widget_width_for,
    Screen,
};
use crate::locale::{Catalog, LanguageId};
use crate::settings::{loaded, SettingsFile, SettingsView};
use crate::state::{
    initial_state, settings_of, state_height, state_width, App, AppState, AppStateView, AppView,
};
use crate::update::is_due;

verus! {

/// The name of the lock that only one running program holds.
pub const INSTANCE_NAME: &'static str = "Global\\AIUsageMonitor";

/// The name of the window's class.
pub const CLASS_NAME: &'static str = "AIUsageMonitor";

/// Where a window stands and how large it is.
#[derive(Clone, Copy, PartialEq, Eq, Structural, Debug)]
pub struct WindowPlace {
    pub x: i32,
    pub y: i32,
    pub width: i32,
    pub height: i32,
}

/// The width of the widget that settings ask for.
pub open spec fn settings_width(settings: SettingsView, dpi: u32) -> int {
    scaled(
        design_width(
            models_shown(settings.show_claude_code, settings.show_codex),
            settings.layout_horizontal,
        ),
        dpi as int,
    )
}

/// The height of the widget that settings ask for.
pub open spec fn settings_height(settings: SettingsView, dpi: u32) -> int {
    scaled(
        design_height(
            models_shown(settings.show_claude_code, settings.show_codex),
            settings.layout_horizontal,
        ),
        dpi as int,
    )
}

/// The first place of a window: that of the settings, or else the default one,
/// held to the screen.
pub open spec fn first_place(settings: SettingsView, dpi: u32, screen: Screen) -> (int, int) {
    let width = settings_width(settings, dpi);
    let height = settings_height(settings, dpi);
    let x = match settings.window_x {
        Some(x) => x as int,
        None => default_x(width, screen, dpi as int),
    };
    let y = match settings.window_y {
        Some(y) => y as int,
        None => default_y(height, screen, dpi as int),
    };
    (
        held(x, screen.x as int, last_x(width, screen)),
        held(y, screen.y as int, last_y(height, screen)),
    )
}

/// The arithmetic of the first place stays within an `i32`.
pub open spec fn first_place_fits(settings: SettingsView, dpi: u32, screen: Screen) -> bool {
    let width = settings_width(settings, dpi);
    let height = settings_height(settings, dpi);
    default_place_fits(width, height, screen, dpi as int) && clamp_fits(width, height, screen)
}

/// What is done once the first state is there.
pub open spec fn start_actions(settings: SettingsView) -> Seq<Action> {
    seq![
        Action::SetTopmost(settings.always_on_top),
        Action::SyncTrayIcons,
        Action::Position,
    ] + (if settings.widget_visible {
        seq![Action::ShowWindow]
    } else {
        seq![]
    }) + seq![
        Action::Render,
        Action::SetTimer { timer: TimerId::Poll, ms: settings.poll_interval_ms },
        Action::StartPoll,
        Action::ScheduleUpdateCheck,
        Action::AutoUpdateCheck,
        Action::CheckTheme,
    ]
}

/// Tells whether this program may run: the lock could be had, and nobody held
/// it before.
pub fn may_run(lock_created: bool, already_exists: bool) -> (yes: bool)
    ensures
        yes == (lock_created && !already_exists),
{
    lock_created && !already_exists
}

/// Where the window first stands and how large it is.
pub fn initial_window(settings: &SettingsFile, dpi: u32, screen: Screen) -> (place: WindowPlace)
    requires
        first_place_fits(settings@, dpi, screen),
    ensures
        place.x == first_place(settings@, dpi, screen).0,
        place.y == first_place(settings@, dpi, screen).1,
        place.width == settings_width(settings@, dpi),
        place.height == settings_height(settings@, dpi),
{
    let models: i32 = active_model_count(settings.show_claude_code, settings.show_codex);
    let width: i32 = total_widget_width_for(models, settings.layout_horizontal, dpi);
    let height: i32 = total_widget_height_for(models, settings.layout_horizontal, dpi);
    let (default_x, default_y): (i32, i32) = default_floating_position(width, height, screen, dpi);
    let wanted_x: i32 = match settings.window_x {
        Some(x) => x,
        None => default_x,
    };
    let wanted_y: i32 = match settings.window_y {
        Some(y) => y,
        None => default_y,
    };
    let (x, y): (i32, i32) = clamp_floating_position(wanted_x, wanted_y, width, height, screen);
    WindowPlace { x, y, width, height }
}

impl App {
    /// Takes up the system's DPI, before there is a window.
    pub fn set_system_dpi(&mut self, system_dpi: u32)
        ensures
            final(self)@ == (AppView { dpi: system_dpi, ..old(self)@ }),
    {
        self.dpi = system_dpi;
    }

    /// Begins with the window at its first place, and says what is to be done
    /// before the first message comes.
    pub fn start(
        &mut self,
        settings: &SettingsFile,
        is_dark: bool,
        language_override: Option<LanguageId>,
        language: LanguageId,
        place: WindowPlace,
    ) -> (actions: Vec<Action>)
        ensures
            final(self)@ == (AppView {
                state: Some(
                    initial_state(
                        settings@,
                        is_dark,
                        language_override,
                        language,
                        place.x,
                        place.y,
                    ),
                ),
                ..old(self)@
            }),
            actions@ == start_actions(settings@),
    {
        self.state = Some(
            AppState::new(settings, is_dark, language_override, language, place.x, place.y),
        );
        let mut actions: Vec<Action> = vec![
            Action::SetTopmost(settings.always_on_top),
            Action::SyncTrayIcons,
            Action::Position,
        ];
        if settings.widget_visible {
            actions.push(Action::ShowWindow);
        }
        actions.push(Action::Render);
        actions.push(Action::SetTimer { timer: TimerId::Poll, ms: settings.poll_interval_ms });
        actions.push(Action::StartPoll);
        actions.push(Action::ScheduleUpdateCheck);
        actions.push(Action::AutoUpdateCheck);
        actions.push(Action::CheckTheme);
        actions
    }
}

/// The state that the next run begins with, once this one has stored its
/// settings. Of the language that the user has set only its code is stored;
/// `language_override` is what that code is read as, and `language` what it
/// comes to.
pub open spec fn next_run(
    s: AppStateView,
    catalog: Catalog,
    is_dark: bool,
    language_override: Option<LanguageId>,
    language: LanguageId,
    dpi: u32,
    screen: Screen,
) -> AppStateView {
    let settings = loaded(Some(settings_of(s, catalog)));
    let (x, y) = first_place(settings, dpi, screen);
    initial_state(settings, is_dark, language_override, language, x as i32, y as i32)
}

/// What the user has set comes back in the next run, wherever a model is shown;
/// so does the window's place, if the window is on the screen there. That the
/// code of a language is read as that language again is taken for granted: the
/// codes are read outside this library.
pub proof fn settings_come_back(
    s: AppStateView,
    catalog: Catalog,
    is_dark: bool,
    language_override: Option<LanguageId>,
    language: LanguageId,
    dpi: u32,
    screen: Screen,
)
    requires
        s.show_claude_code || s.show_codex,
        language_override == s.language_override,
    ensures
        ({
            let t = next_run(s, catalog, is_dark, language_override, language, dpi, screen);
            &&& settings_of(t, catalog) == (SettingsView {
                window_x: Some(t.window_x),
                window_y: Some(t.window_y),
                ..settings_of(s, catalog)
            })
            &&& screen.x <= s.window_x <= last_x(state_width(s, dpi), screen) ==> t.window_x
                == s.window_x
            &&& screen.y <= s.window_y <= last_y(state_height(s, dpi), screen) ==> t.window_y
                == s.window_y
        }),
{
}

/// The first place of a window that the screen has room for is on the screen.
pub proof fn first_window_is_on_screen(settings: SettingsView, dpi: u32, screen: Screen)
    requires
        settings_width(settings, dpi) <= screen.width,
        settings_height(settings, dpi) <= screen.height,
    ensures
        ({
            let (x, y) = first_place(settings, dpi, screen);
            &&& screen.x <= x
            &&& x + settings_width(settings, dpi) <= screen.x + screen.width
            &&& screen.y <= y
            &&& y + settings_height(settings, dpi) <= screen.y + screen.height
        }),
{
}

/// The next run has each setting that this one had, by itself, and a look for an
/// update is due in it at a time just where it was due in this one.
pub proof fn the_next_run_goes_on(
    s: AppStateView,
    catalog: Catalog,
    is_dark: bool,
    language_override: Option<LanguageId>,
    language: LanguageId,
    dpi: u32,
    screen: Screen,
    now: u64,
)
    ensures
        ({
            let t = next_run(s, catalog, is_dark, language_override, language, dpi, screen);
            &&& t.last_update_check_unix == s.last_update_check_unix
            &&& is_due(t.last_update_check_unix, now) == is_due(s.last_update_check_unix, now)
            &&& t.poll_interval_ms == s.poll_interval_ms
            &&& t.widget_visible == s.widget_visible
            &&& t.layout_horizontal == s.layout_horizontal
            &&& t.always_on_top == s.always_on_top
            &&& s.show_claude_code || s.show_codex ==> t.show_claude_code == s.show_claude_code
                && t.show_codex == s.show_codex
            &&& t.is_dark == is_dark && t.language_override == language_override && t.language
                == language
        }),
{
}

/// A run begins by putting the window above all others or not, as is set, shows
/// it where it is to be seen, starts the poll timer at the interval that is set
/// and no other timer, polls, and looks after updates.
pub proof fn runs_begin_as_they_are_set(settings: SettingsView, timer: TimerId, ms: u32)
    ensures
        ({
            let actions = start_actions(settings);
            &&& actions.contains(Action::SetTopmost(settings.always_on_top))
            &&& !actions.contains(Action::SetTopmost(!settings.always_on_top))
            &&& actions.contains(Action::ShowWindow) == settings.widget_visible
            &&& actions.contains(Action::SetTimer { timer, ms }) == (timer == TimerId::Poll && ms
                == settings.poll_interval_ms)
            &&& actions.contains(Action::StartPoll)
            &&& actions.contains(Action::ScheduleUpdateCheck)
            &&& actions.contains(Action::AutoUpdateCheck)
            &&& actions.contains(Action::CheckTheme)
            &&& actions.contains(Action::SyncTrayIcons)
            &&& actions.contains(Action::Position)
            &&& actions.contains(Action::Render)
            &&& !actions.contains(Action::HideWindow)
            &&& !actions.contains(Action::SaveSettings)
        }),
{
    let actions = start_actions(settings);
    let n: int = if settings.widget_visible {
        1
    } else {
        0
    };
    assert(actions[0] == Action::SetTopmost(settings.always_on_top));
    assert(actions[1] == Action::SyncTrayIcons);
    assert(actions[2] == Action::Position);
    if settings.widget_visible {
        assert(actions[3] == Action::ShowWindow);
    }
    assert(actions[3 + n] == Action::Render);
    assert(actions[4 + n] == (Action::SetTimer {
        timer: TimerId::Poll,
        ms: settings.poll_interval_ms,
    }));
    assert(actions[5 + n] == Action::StartPoll);
    assert(actions[6 + n] == Action::ScheduleUpdateCheck);
    assert(actions[7 + n] == Action::AutoUpdateCheck);
    assert(actions[8 + n] == Action::CheckTheme);
}

/// The window first stands where it was left, if it is on the screen there, in
/// each direction by itself; with no place stored, at the default place, if the
/// screen has room for it and its margins.
pub proof fn windows_begin_where_they_were_left(settings: SettingsView, dpi: u32, screen: Screen)
    ensures
        ({
            let d = dpi as int;
            let (x, y) = first_place(settings, dpi, screen);
            let width = settings_width(settings, dpi);
            let height = settings_height(settings, dpi);
            &&& settings.window_x matches Some(left) ==> (screen.x <= left && left + width
                <= screen.x + screen.width ==> x == left)
            &&& settings.window_y matches Some(top) ==> (screen.y <= top && top + height
                <= screen.y + screen.height ==> y == top)
            &&& settings.window_x is None && 0 <= width && width + scaled(16, d) <= screen.width
                ==> x + width + scaled(16, d) == screen.x + screen.width
            &&& settings.window_y is None && 0 <= height && height + scaled(64, d) + scaled(16, d)
                <= screen.height ==> y + height + scaled(64, d) == screen.y + screen.height
        }),
{
    scaling_grows_with_dpi(16, 0, dpi);
    scaling_grows_with_dpi(64, 0, dpi);
}

} // verus!
