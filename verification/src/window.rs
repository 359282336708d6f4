//! The window: where it stands, how it is dragged, shown and put away.
use vstd::prelude::*;

use crate::action::Action;
use crate::geometry::{
    clamp_fits, clamp_floating_position, clamp_is_safe, close_button, close_button_rect, contains,
    default_floating_position, default_place_fits, default_place_is_safe, default_x, default_y,
    fits, held, last_x, last_y, Point, Rect, Screen, DESIGN_DPI,
};
use crate::locale::{Catalog, LanguageId};
use crate::settings::{optional_text, SettingsFile};
use crate::state::{
    refreshed, same_choices, same_drag, same_percentages, same_place, same_polling, same_texts,
    same_updates, settings_of, state_height, state_width, with_state, App, AppStateView, AppView,
    LinesView, UsageLines,
};
use crate::version::{display_version, shown_version};

verus! {

/// The program before its window is there.
pub open spec fn app_start() -> AppView {
    AppView { dpi: DESIGN_DPI, state: None }
}

/// The program once the window's DPI has been asked for. Zero is no answer.
pub open spec fn dpi_refreshed(a: AppView, window_dpi: u32) -> AppView {
    if a.state is Some && window_dpi > 0 {
        AppView { dpi: window_dpi, ..a }
    } else {
        a
    }
}

/// The state with its window at a place.
pub open spec fn placed(s: AppStateView, x: int, y: int) -> AppStateView {
    AppStateView { window_x: x as i32, window_y: y as i32, ..s }
}

/// The state with its window held to the screen.
pub open spec fn held_to_screen(s: AppStateView, x: int, y: int, dpi: u32, screen: Screen) -> AppStateView {
    placed(
        s,
        held(x, screen.x as int, last_x(state_width(s, dpi), screen)),
        held(y, screen.y as int, last_y(state_height(s, dpi), screen)),
    )
}

/// Moving the window to where its state says that it is.
pub open spec fn move_to_state(s: AppStateView, dpi: u32) -> Action {
    Action::MoveWindow {
        x: s.window_x,
        y: s.window_y,
        width: state_width(s, dpi) as i32,
        height: state_height(s, dpi) as i32,
    }
}

/// Placing the window: what it does to the program and what is to be done.
pub open spec fn positioned(a: AppView, window_dpi: u32, screen: Screen) -> (AppView, Seq<Action>) {
    let b = dpi_refreshed(a, window_dpi);
    match b.state {
        Some(s) if !s.dragging => {
            let t = held_to_screen(s, s.window_x as int, s.window_y as int, b.dpi, screen);
            (with_state(b, t), seq![move_to_state(t, b.dpi), Action::SetTopmost(t.always_on_top)])
        },
        _ => (b, seq![]),
    }
}

/// Showing or putting away the widget.
pub open spec fn visibility_toggled(a: AppView) -> (AppView, Seq<Action>) {
    match a.state {
        Some(s) => (
            with_state(a, AppStateView { widget_visible: !s.widget_visible, ..s }),
            if s.widget_visible {
                seq![Action::SaveSettings, Action::HideWindow]
            } else {
                seq![Action::SaveSettings, Action::Position, Action::ShowWindow, Action::Render]
            },
        ),
        None => (a, seq![]),
    }
}

/// Putting the widget above all other windows, or no longer.
pub open spec fn topmost_toggled(a: AppView) -> (AppView, Seq<Action>) {
    match a.state {
        Some(s) => (
            with_state(a, AppStateView { always_on_top: !s.always_on_top, ..s }),
            seq![Action::SetTopmost(!s.always_on_top), Action::SaveSettings],
        ),
        None => (a, seq![]),
    }
}

/// Pressing the mouse button at a point of the window: on the close button it
/// puts the widget away, elsewhere it begins a drag.
pub open spec fn pressed(a: AppView, x: int, y: int, client_width: int) -> (AppView, Seq<Action>) {
    let (left, top, right, bottom) = close_button(client_width, a.dpi as int);
    if left <= x < right && top <= y < bottom {
        match a.state {
            Some(s) => (
                with_state(a, AppStateView { widget_visible: false, ..s }),
                seq![Action::SaveSettings, Action::HideWindow],
            ),
            None => (a, seq![]),
        }
    } else {
        (a, seq![Action::BeginDrag, Action::CaptureMouse])
    }
}

/// The state at the beginning of a drag.
pub open spec fn drag_begun(s: AppStateView, cursor: Point) -> AppStateView {
    AppStateView {
        dragging: true,
        drag_start_mouse_x: cursor.x,
        drag_start_mouse_y: cursor.y,
        drag_start_window_x: s.window_x,
        drag_start_window_y: s.window_y,
        ..s
    }
}

/// Where a drag takes the left edge of the window, before it is held to the
/// screen.
pub open spec fn drag_x(s: AppStateView, cursor: Point) -> int {
    s.drag_start_window_x + cursor.x - s.drag_start_mouse_x
}

/// Where a drag takes the top edge of the window, before it is held to the
/// screen.
pub open spec fn drag_y(s: AppStateView, cursor: Point) -> int {
    s.drag_start_window_y + cursor.y - s.drag_start_mouse_y
}

/// The arithmetic of a drag stays within an `i32`.
pub open spec fn drag_fits(s: AppStateView, cursor: Point) -> bool {
    &&& fits(s.drag_start_window_x + cursor.x)
    &&& fits(s.drag_start_window_y + cursor.y)
    &&& fits(drag_x(s, cursor))
    &&& fits(drag_y(s, cursor))
}

/// Dragging the window to where the cursor is.
pub open spec fn dragged(a: AppView, cursor: Point, screen: Screen) -> (AppView, Seq<Action>) {
    match a.state {
        Some(s) => {
            let t = held_to_screen(s, drag_x(s, cursor), drag_y(s, cursor), a.dpi, screen);
            (with_state(a, t), seq![move_to_state(t, a.dpi)])
        },
        None => (a, seq![]),
    }
}

/// Letting go of the mouse button.
pub open spec fn released(a: AppView) -> (AppView, Seq<Action>) {
    match a.state {
        Some(s) if s.dragging => (
            with_state(a, AppStateView { dragging: false, ..s }),
            seq![Action::ReleaseMouse, Action::SaveSettings],
        ),
        _ => (a, seq![]),
    }
}

/// The title of the window.
pub open spec fn title_text(window_title: Seq<char>, version: Seq<char>) -> Seq<char> {
    window_title + " "@ + shown_version(version)
}

/// The state in another language.
pub open spec fn in_language(
    s: AppStateView,
    language_override: Option<LanguageId>,
    language: LanguageId,
    lines: LinesView,
) -> AppStateView {
    refreshed(AppStateView { language_override, language, ..s }, lines)
}

/// Makes the title of the window.
pub fn app_title(window_title: &str, version: &str) -> (title: String)
    ensures
        title@ == title_text(window_title@, version@),
{
    window_title.to_string().concat(" ").concat(display_version(version).as_str())
}

impl App {
    /// The program before its window is there.
    pub fn new() -> (app: Self)
        ensures
            app@ == app_start(),
    {
        App { dpi: DESIGN_DPI, state: None }
    }

    /// Takes up the DPI that the window reports. Zero is no answer.
    pub fn refresh_dpi(&mut self, window_dpi: u32)
        ensures
            final(self)@ == dpi_refreshed(old(self)@, window_dpi),
    {
        if self.state.is_some() && window_dpi > 0 {
            self.dpi = window_dpi;
        }
    }

    /// Takes up the DPI that the window reports, and tells whether there is a
    /// window to be painted again.
    pub fn render_layered(&mut self, window_dpi: u32) -> (repaint: bool)
        ensures
            final(self)@ == dpi_refreshed(old(self)@, window_dpi),
            repaint == (old(self)@.state is Some),
    {
        self.refresh_dpi(window_dpi);
        self.state.is_some()
    }

    /// The settings to store, if there are any yet.
    pub fn save_state_settings(&self, catalog: &Catalog) -> (settings: Option<SettingsFile>)
        ensures
            match self@.state {
                Some(s) => settings matches Some(f) && f@ == settings_of(s, *catalog),
                None => settings is None,
            },
            (self.state matches Some(s) && settings matches Some(f)) ==> {
                let (s, f) = (self.state->0, settings->0);
                &&& f.window_x == Some(s.window_x) && f.window_y == Some(s.window_y)
                &&& f.poll_interval_ms == s.poll_interval_ms
                &&& f.last_update_check_unix == s.last_update_check_unix
                &&& f.widget_visible == s.widget_visible && f.always_on_top == s.always_on_top
                &&& f.show_claude_code == s.show_claude_code && f.show_codex == s.show_codex
                &&& f.layout_horizontal == s.layout_horizontal
            },
    {
        match &self.state {
            Some(s) => Some(s.settings(catalog)),
            None => None,
        }
    }

    /// The text of the tray icon, if there is to be one yet.
    pub fn tray_icon_data(&self, catalog: &Catalog) -> (tooltip: Option<&'static str>)
        ensures
            tooltip == match self@.state {
                Some(s) => Some(catalog.entry(s.language).strings.window_title),
                None => None,
            },
    {
        match &self.state {
            Some(s) => Some(catalog.strings(s.language).window_title),
            None => None,
        }
    }

    /// Shows the widget, or puts it away.
    pub fn toggle_widget_visibility(&mut self) -> (actions: Vec<Action>)
        ensures
            (final(self)@, actions@) == visibility_toggled(old(self)@),
    {
        match &mut self.state {
            Some(s) => {
                s.widget_visible = !s.widget_visible;
                if s.widget_visible {
                    vec![Action::SaveSettings, Action::Position, Action::ShowWindow, Action::Render]
                } else {
                    vec![Action::SaveSettings, Action::HideWindow]
                }
            },
            None => vec![],
        }
    }

    /// Puts the widget above all other windows, or no longer.
    pub fn toggle_always_on_top(&mut self) -> (actions: Vec<Action>)
        ensures
            (final(self)@, actions@) == topmost_toggled(old(self)@),
    {
        match &mut self.state {
            Some(s) => {
                s.always_on_top = !s.always_on_top;
                vec![Action::SetTopmost(s.always_on_top), Action::SaveSettings]
            },
            None => vec![],
        }
    }

    /// Takes up the system's theme, and tells whether it is another one.
    pub fn check_theme_change(&mut self, new_dark: bool) -> (changed: bool)
        ensures
            match old(self)@.state {
                Some(s) => {
                    &&& changed == (s.is_dark != new_dark)
                    &&& final(self)@ == with_state(
                        old(self)@,
                        AppStateView { is_dark: new_dark, ..s },
                    )
                },
                None => !changed && final(self)@ == old(self)@,
            },
    {
        match &mut self.state {
            Some(s) => {
                let changed: bool = s.is_dark != new_dark;
                s.is_dark = new_dark;
                changed
            },
            None => false,
        }
    }

    /// Takes up a language: the one that the user set, if any, and the one that
    /// this comes to, with the usage data in its words. Returns the new title of
    /// the window.
    pub fn apply_language(
        &mut self,
        language_override: Option<LanguageId>,
        language: LanguageId,
        lines: UsageLines,
        catalog: &Catalog,
        version: &str,
    ) -> (title: Option<String>)
        ensures
            match old(self)@.state {
                Some(s) => {
                    &&& final(self)@ == with_state(
                        old(self)@,
                        in_language(s, language_override, language, lines@),
                    )
                    &&& optional_text(title) == Some(
                        title_text(catalog.entry(language).strings.window_title@, version@),
                    )
                },
                None => title is None && final(self)@ == old(self)@,
            },
    {
        match &mut self.state {
            Some(s) => {
                s.language_override = language_override;
                s.language = language;
                s.refresh_usage_texts(lines);
                Some(app_title(catalog.strings(language).window_title, version))
            },
            None => None,
        }
    }

    /// Tells whether the system's language, as it is found now, is news: it is
    /// unless the user has set a language or it is the current one.
    pub fn system_language_is_news(&self, system: LanguageId) -> (news: bool)
        ensures
            news == match self@.state {
                Some(s) => s.language_override is None && system != s.language,
                None => false,
            },
    {
        match &self.state {
            Some(s) => match s.language_override {
                Some(_) => false,
                None => system != s.language,
            },
            None => false,
        }
    }

    /// Takes up the system's language where that is news, and then returns the
    /// new title of the window. `resolved` is what no set language comes to.
    pub fn update_language_change(
        &mut self,
        system: LanguageId,
        resolved: LanguageId,
        lines: UsageLines,
        catalog: &Catalog,
        version: &str,
    ) -> (title: Option<String>)
        ensures
            match old(self)@.state {
                Some(s) if s.language_override is None && system != s.language => {
                    &&& final(self)@ == with_state(
                        old(self)@,
                        in_language(s, None, resolved, lines@),
                    )
                    &&& optional_text(title) == Some(
                        title_text(catalog.entry(resolved).strings.window_title@, version@),
                    )
                },
                _ => title is None && final(self)@ == old(self)@,
            },
    {
        if !self.system_language_is_news(system) {
            return None;
        }
        self.apply_language(None, resolved, lines, catalog, version)
    }

    /// Writes the usage texts anew, as time has passed. The texts of a failed
    /// poll stay.
    pub fn update_display(&mut self, lines: UsageLines)
        ensures
            match old(self)@.state {
                Some(s) => final(self)@ == with_state(old(self)@, refreshed(s, lines@)),
                None => final(self)@ == old(self)@,
            },
    {
        match &mut self.state {
            Some(s) => {
                s.refresh_usage_texts(lines);
            },
            None => {},
        }
    }

    /// Places the window, unless it is being dragged: at the DPI that it
    /// reports, held to the screen.
    pub fn position_floating_window(&mut self, window_dpi: u32, screen: Screen) -> (actions: Vec<
        Action,
    >)
        requires
            match dpi_refreshed(old(self)@, window_dpi) {
                AppView { dpi, state: Some(s) } => s.dragging || clamp_fits(
                    state_width(s, dpi),
                    state_height(s, dpi),
                    screen,
                ),
                _ => true,
            },
        ensures
            (final(self)@, actions@) == positioned(old(self)@, window_dpi, screen),
    {
        self.refresh_dpi(window_dpi);
        let dpi: u32 = self.dpi;
        match &mut self.state {
            Some(s) => {
                if s.dragging {
                    return vec![];
                }
                let width: i32 = s.total_widget_width(dpi);
                let height: i32 = s.total_widget_height(dpi);
                let (x, y): (i32, i32) = clamp_floating_position(
                    s.window_x,
                    s.window_y,
                    width,
                    height,
                    screen,
                );
                s.window_x = x;
                s.window_y = y;
                vec![
                    Action::MoveWindow { x, y, width, height },
                    Action::SetTopmost(s.always_on_top),
                ]
            },
            None => vec![],
        }
    }

    /// Moves the window's place to the default one.
    pub fn reset_position(&mut self, screen: Screen)
        requires
            match old(self)@.state {
                Some(s) => default_place_fits(
                    state_width(s, old(self)@.dpi),
                    state_height(s, old(self)@.dpi),
                    screen,
                    old(self)@.dpi as int,
                ),
                None => true,
            },
        ensures
            match old(self)@.state {
                Some(s) => final(self)@ == with_state(
                    old(self)@,
                    placed(
                        s,
                        default_x(
                            state_width(s, old(self)@.dpi),
                            screen,
                            old(self)@.dpi as int,
                        ),
                        default_y(
                            state_height(s, old(self)@.dpi),
                            screen,
                            old(self)@.dpi as int,
                        ),
                    ),
                ),
                None => final(self)@ == old(self)@,
            },
    {
        let dpi: u32 = self.dpi;
        match &mut self.state {
            Some(s) => {
                let width: i32 = s.total_widget_width(dpi);
                let height: i32 = s.total_widget_height(dpi);
                let (x, y): (i32, i32) = default_floating_position(width, height, screen, dpi);
                s.window_x = x;
                s.window_y = y;
            },
            None => {},
        }
    }

    /// Takes the mouse button going down at a point of a window of this width.
    pub fn press_at(&mut self, x: i32, y: i32, client_width: i32) -> (actions: Vec<Action>)
        requires
            fits(close_button(client_width as int, old(self)@.dpi as int).0),
        ensures
            (final(self)@, actions@) == pressed(
                old(self)@,
                x as int,
                y as int,
                client_width as int,
            ),
    {
        let close: Rect = close_button_rect(client_width, self.dpi);
        if contains(close, x, y) {
            match &mut self.state {
                Some(s) => {
                    s.widget_visible = false;
                    vec![Action::SaveSettings, Action::HideWindow]
                },
                None => vec![],
            }
        } else {
            vec![Action::BeginDrag, Action::CaptureMouse]
        }
    }

    /// Begins to drag the window.
    pub fn begin_drag(&mut self, cursor: Point)
        ensures
            match old(self)@.state {
                Some(s) => final(self)@ == with_state(old(self)@, drag_begun(s, cursor)),
                None => final(self)@ == old(self)@,
            },
    {
        match &mut self.state {
            Some(s) => {
                s.dragging = true;
                s.drag_start_mouse_x = cursor.x;
                s.drag_start_mouse_y = cursor.y;
                s.drag_start_window_x = s.window_x;
                s.drag_start_window_y = s.window_y;
            },
            None => {},
        }
    }

    /// Drags the window to where the cursor is, held to the screen.
    pub fn drag_to(&mut self, cursor: Point, screen: Screen) -> (actions: Vec<Action>)
        requires
            match old(self)@.state {
                Some(s) => drag_fits(s, cursor) && clamp_fits(
                    state_width(s, old(self)@.dpi),
                    state_height(s, old(self)@.dpi),
                    screen,
                ),
                None => true,
            },
        ensures
            (final(self)@, actions@) == dragged(old(self)@, cursor, screen),
    {
        let dpi: u32 = self.dpi;
        match &mut self.state {
            Some(s) => {
                let width: i32 = s.total_widget_width(dpi);
                let height: i32 = s.total_widget_height(dpi);
                let (x, y): (i32, i32) = clamp_floating_position(
                    s.drag_start_window_x + cursor.x - s.drag_start_mouse_x,
                    s.drag_start_window_y + cursor.y - s.drag_start_mouse_y,
                    width,
                    height,
                    screen,
                );
                s.window_x = x;
                s.window_y = y;
                vec![Action::MoveWindow { x, y, width, height }]
            },
            None => vec![],
        }
    }

    /// Takes the mouse button going up: the end of a drag, if there was one.
    pub fn release(&mut self) -> (actions: Vec<Action>)
        ensures
            (final(self)@, actions@) == released(old(self)@),
    {
        match &mut self.state {
            Some(s) => {
                if s.dragging {
                    s.dragging = false;
                    vec![Action::ReleaseMouse, Action::SaveSettings]
                } else {
                    vec![]
                }
            },
            None => vec![],
        }
    }

    /// Tells whether the window can be placed on this screen.
    pub fn position_is_safe(&self, window_dpi: u32, screen: Screen) -> (safe: bool)
        ensures
            safe == match dpi_refreshed(self@, window_dpi) {
                AppView { dpi, state: Some(s) } => s.dragging || clamp_fits(
                    state_width(s, dpi),
                    state_height(s, dpi),
                    screen,
                ),
                _ => true,
            },
    {
        let dpi: u32 = if window_dpi > 0 {
            window_dpi
        } else {
            self.dpi
        };
        match &self.state {
            Some(s) => s.dragging || clamp_is_safe(
                s.total_widget_width(dpi),
                s.total_widget_height(dpi),
                screen,
            ),
            None => true,
        }
    }

    /// Tells whether the window has a default place on this screen.
    pub fn reset_is_safe(&self, screen: Screen) -> (safe: bool)
        ensures
            safe == match self@.state {
                Some(s) => default_place_fits(
                    state_width(s, self@.dpi),
                    state_height(s, self@.dpi),
                    screen,
                    self@.dpi as int,
                ),
                None => true,
            },
    {
        match &self.state {
            Some(s) => default_place_is_safe(
                s.total_widget_width(self.dpi),
                s.total_widget_height(self.dpi),
                screen,
                self.dpi,
            ),
            None => true,
        }
    }

    /// Tells whether the window can be dragged to the cursor on this screen.
    pub fn drag_is_safe(&self, cursor: Point, screen: Screen) -> (safe: bool)
        ensures
            safe == match self@.state {
                Some(s) => drag_fits(s, cursor) && clamp_fits(
                    state_width(s, self@.dpi),
                    state_height(s, self@.dpi),
                    screen,
                ),
                None => true,
            },
    {
        match &self.state {
            Some(s) => {
                let x: Option<i32> = s.drag_start_window_x.checked_add(cursor.x);
                let y: Option<i32> = s.drag_start_window_y.checked_add(cursor.y);
                let reachable: bool = match (x, y) {
                    (Some(x), Some(y)) => x.checked_sub(s.drag_start_mouse_x).is_some()
                        && y.checked_sub(s.drag_start_mouse_y).is_some(),
                    _ => false,
                };
                reachable && clamp_is_safe(
                    s.total_widget_width(self.dpi),
                    s.total_widget_height(self.dpi),
                    screen,
                )
            },
            None => true,
        }
    }
}

// Laws.

/// The window of a state lies wholly on the screen.
pub open spec fn is_on_screen(s: AppStateView, dpi: u32, screen: Screen) -> bool {
    &&& screen.x <= s.window_x
    &&& s.window_x + state_width(s, dpi) <= screen.x + screen.width
    &&& screen.y <= s.window_y
    &&& s.window_y + state_height(s, dpi) <= screen.y + screen.height
}

/// The screen has room for the widget, and its far edges are within an `i32`.
pub open spec fn has_room(s: AppStateView, dpi: u32, screen: Screen) -> bool {
    &&& state_width(s, dpi) <= screen.width
    &&& state_height(s, dpi) <= screen.height
    &&& clamp_fits(state_width(s, dpi), state_height(s, dpi), screen)
}

/// Once the window has been placed, it lies on the screen, and it is moved to
/// just where the state says that it is.
pub proof fn placed_window_is_on_screen(a: AppView, window_dpi: u32, screen: Screen)
    requires
        dpi_refreshed(a, window_dpi) matches AppView { dpi, state: Some(s) } && !s.dragging
            && has_room(s, dpi, screen),
    ensures
        positioned(a, window_dpi, screen).0 matches AppView { dpi, state: Some(s) } && is_on_screen(
            s,
            dpi,
            screen,
        ) && positioned(a, window_dpi, screen).1[0] == move_to_state(s, dpi),
{
}

/// However far the cursor goes, the window that it drags stays on the screen.
pub proof fn dragged_window_stays_on_screen(a: AppView, cursor: Point, screen: Screen)
    requires
        a.state matches Some(s) && has_room(s, a.dpi, screen),
    ensures
        dragged(a, cursor, screen).0.state matches Some(s) && is_on_screen(s, a.dpi, screen),
{
}

/// A window that is dragged moves as far as the cursor does, as long as that
/// leaves it on the screen.
pub proof fn drag_follows_the_cursor(s: AppStateView, dpi: u32, from: Point, to: Point, screen: Screen)
    requires
        screen.x <= s.window_x + (to.x - from.x) <= last_x(state_width(s, dpi), screen),
        screen.y <= s.window_y + (to.y - from.y) <= last_y(state_height(s, dpi), screen),
        clamp_fits(state_width(s, dpi), state_height(s, dpi), screen),
    ensures
        dragged((AppView { dpi, state: Some(drag_begun(s, from)) }), to, screen).0.state matches Some(t)
            && t.window_x == s.window_x + (to.x - from.x) && t.window_y == s.window_y + (to.y
            - from.y),
{
}

/// While the window is dragged, nothing else places it.
pub proof fn dragging_is_not_disturbed(a: AppView, window_dpi: u32, screen: Screen)
    requires
        a.state matches Some(s) && s.dragging,
    ensures
        positioned(a, window_dpi, screen).0.state == a.state,
        positioned(a, window_dpi, screen).1.len() == 0,
{
}

/// Showing the widget or putting it away changes nothing else of the state. It is
/// taken off the screen just where it was to be seen, and shown, at its place and
/// painted, just where it was not; either way the choice is stored.
pub proof fn toggling_the_widget_changes_what_is_seen(a: AppView, s: AppStateView)
    requires
        a.state == Some(s),
    ensures
        ({
            let (b, actions) = visibility_toggled(a);
            &&& b.dpi == a.dpi
            &&& b.state matches Some(t) && t.widget_visible == !s.widget_visible && s == (
            AppStateView { widget_visible: s.widget_visible, ..t })
            &&& actions.contains(Action::HideWindow) == s.widget_visible
            &&& actions.contains(Action::ShowWindow) == !s.widget_visible
            &&& actions.contains(Action::Position) == !s.widget_visible
            &&& actions.contains(Action::Render) == !s.widget_visible
            &&& actions.contains(Action::SaveSettings)
        }),
{
    let actions = visibility_toggled(a).1;
    assert(actions[0] == Action::SaveSettings);
    if s.widget_visible {
        assert(actions[1] == Action::HideWindow);
    } else {
        assert(actions[1] == Action::Position);
        assert(actions[2] == Action::ShowWindow);
        assert(actions[3] == Action::Render);
    }
}

/// Putting the widget above all others, or no longer, changes nothing else of the
/// state; the window is put where the state now says, and the choice is stored.
pub proof fn toggling_topmost_tells_the_window(a: AppView, s: AppStateView, above: bool)
    requires
        a.state == Some(s),
    ensures
        ({
            let (b, actions) = topmost_toggled(a);
            &&& b.dpi == a.dpi
            &&& b.state matches Some(t) && t.always_on_top == !s.always_on_top && s == (
            AppStateView { always_on_top: s.always_on_top, ..t })
            &&& actions.contains(Action::SetTopmost(above)) == (above != s.always_on_top)
            &&& actions.contains(Action::SaveSettings)
        }),
{
    let actions = topmost_toggled(a).1;
    assert(actions[0] == Action::SetTopmost(!s.always_on_top));
    assert(actions[1] == Action::SaveSettings);
}

/// Without a state neither does anything.
pub proof fn nothing_is_toggled_before_the_state(dpi: u32)
    ensures
        ({
            let a = AppView { dpi, state: None };
            &&& visibility_toggled(a).0 == a && visibility_toggled(a).1.len() == 0
            &&& topmost_toggled(a).0 == a && topmost_toggled(a).1.len() == 0
        }),
{
}

/// The button on the close button puts the widget away and does nothing else;
/// anywhere else it begins a drag and changes nothing yet.
pub proof fn only_the_close_button_closes(
    a: AppView,
    s: AppStateView,
    x: int,
    y: int,
    client_width: int,
)
    requires
        a.state == Some(s),
    ensures
        ({
            let (b, actions) = pressed(a, x, y, client_width);
            let (left, top, right, bottom) = close_button(client_width, a.dpi as int);
            let closes = left <= x && x < right && top <= y && y < bottom;
            &&& b.dpi == a.dpi
            &&& closes ==> (b.state matches Some(t) && !t.widget_visible && s == (AppStateView {
                widget_visible: s.widget_visible,
                ..t
            }))
            &&& !closes ==> b == a
            &&& actions.contains(Action::HideWindow) == closes
            &&& actions.contains(Action::SaveSettings) == closes
            &&& actions.contains(Action::BeginDrag) == !closes
            &&& actions.contains(Action::CaptureMouse) == !closes
        }),
{
    let (left, top, right, bottom) = close_button(client_width, a.dpi as int);
    let actions = pressed(a, x, y, client_width).1;
    if left <= x && x < right && top <= y && y < bottom {
        assert(actions[0] == Action::SaveSettings);
        assert(actions[1] == Action::HideWindow);
    } else {
        assert(actions[0] == Action::BeginDrag);
        assert(actions[1] == Action::CaptureMouse);
    }
}

/// A drag begins from where the cursor and the window are, and changes nothing
/// else.
pub proof fn drags_begin_where_things_are(s: AppStateView, cursor: Point)
    ensures
        ({
            let t = drag_begun(s, cursor);
            &&& t.dragging
            &&& t.drag_start_mouse_x == cursor.x && t.drag_start_mouse_y == cursor.y
            &&& t.drag_start_window_x == s.window_x && t.drag_start_window_y == s.window_y
            &&& same_choices(s, t) && same_percentages(s, t) && same_texts(s, t)
            &&& same_polling(s, t) && same_updates(s, t) && same_place(s, t)
        }),
{
}

/// A drag moves the window, to where the state then says that it is, and changes
/// nothing else.
pub proof fn dragging_moves_the_window_alone(
    a: AppView,
    s: AppStateView,
    cursor: Point,
    screen: Screen,
)
    requires
        a.state == Some(s),
    ensures
        ({
            let (b, actions) = dragged(a, cursor, screen);
            &&& b.dpi == a.dpi
            &&& b.state matches Some(t) && s == (AppStateView {
                window_x: s.window_x,
                window_y: s.window_y,
                ..t
            }) && actions == seq![
                Action::MoveWindow {
                    x: t.window_x,
                    y: t.window_y,
                    width: state_width(s, a.dpi) as i32,
                    height: state_height(s, a.dpi) as i32,
                },
            ]
        }),
{
}

/// Placing the window moves it, to where the state then says that it is, puts it
/// above all others or not, as is set, and changes nothing else but the DPI,
/// which is the one that the window reports, if it reports one.
pub proof fn placing_moves_the_window_alone(
    a: AppView,
    s: AppStateView,
    window_dpi: u32,
    screen: Screen,
)
    requires
        a.state == Some(s),
        !s.dragging,
    ensures
        ({
            let (b, actions) = positioned(a, window_dpi, screen);
            &&& b.dpi == (if window_dpi > 0 {
                window_dpi
            } else {
                a.dpi
            })
            &&& b.state matches Some(t) && s == (AppStateView {
                window_x: s.window_x,
                window_y: s.window_y,
                ..t
            }) && actions == seq![
                Action::MoveWindow {
                    x: t.window_x,
                    y: t.window_y,
                    width: state_width(s, b.dpi) as i32,
                    height: state_height(s, b.dpi) as i32,
                },
                Action::SetTopmost(s.always_on_top),
            ]
        }),
{
}

/// A window that is on the screen stays where it is when it is placed.
pub proof fn placing_leaves_what_is_on_screen(
    a: AppView,
    s: AppStateView,
    window_dpi: u32,
    screen: Screen,
)
    requires
        a.state == Some(s),
        is_on_screen(s, dpi_refreshed(a, window_dpi).dpi, screen),
    ensures
        positioned(a, window_dpi, screen).0.state == Some(s),
{
}

/// Letting go ends a drag that is going on: the mouse is let go, the new place is
/// stored, and nothing else changes. Without a drag nothing happens.
pub proof fn letting_go_ends_the_drag(a: AppView, s: AppStateView)
    requires
        a.state == Some(s),
    ensures
        ({
            let (b, actions) = released(a);
            &&& b.dpi == a.dpi
            &&& b.state matches Some(t) && !t.dragging && s == (AppStateView {
                dragging: s.dragging,
                ..t
            })
            &&& actions.contains(Action::ReleaseMouse) == s.dragging
            &&& actions.contains(Action::SaveSettings) == s.dragging
            &&& !s.dragging ==> actions.len() == 0
        }),
{
    let actions = released(a).1;
    if s.dragging {
        assert(actions[0] == Action::ReleaseMouse);
        assert(actions[1] == Action::SaveSettings);
    }
}

/// The title is the one of the language, a space and the version as it is shown.
pub proof fn titles_tell_the_version(window_title: Seq<char>, version: Seq<char>)
    ensures
        ({
            let title = title_text(window_title, version);
            let n = window_title.len() as int;
            &&& title.len() == n + 1 + shown_version(version).len()
            &&& title.take(n) == window_title
            &&& title[n] == ' '
            &&& title.skip(n + 1) == shown_version(version)
        }),
{
    reveal_strlit(" ");
}

/// Taking up a language changes the language and the words that the usage is told
/// in, and nothing else: where nothing is known of usage, not even those.
pub proof fn languages_change_words_alone(
    s: AppStateView,
    language_override: Option<LanguageId>,
    language: LanguageId,
    lines: LinesView,
)
    ensures
        ({
            let t = in_language(s, language_override, language, lines);
            &&& t.language == language && t.language_override == language_override
            &&& t.is_dark == s.is_dark && t.show_claude_code == s.show_claude_code
            &&& t.show_codex == s.show_codex && t.layout_horizontal == s.layout_horizontal
            &&& t.poll_interval_ms == s.poll_interval_ms
            &&& t.widget_visible == s.widget_visible && t.always_on_top == s.always_on_top
            &&& same_percentages(s, t) && same_polling(s, t) && same_updates(s, t)
            &&& same_place(s, t) && same_drag(s, t)
            &&& !s.last_poll_ok || s.data is None ==> same_texts(s, t)
            &&& s.data matches Some(data) ==> (s.last_poll_ok ==> {
                &&& data.claude_code is Some ==> t.session_text == lines.session && t.weekly_text
                    == lines.weekly
                &&& data.codex is Some ==> t.codex_session_text == lines.codex_session
                    && t.codex_weekly_text == lines.codex_weekly
            })
        }),
{
}

/// The DPI that the window reports is taken up once there is a state, unless it
/// is none; nothing else changes.
pub proof fn reported_dpi_is_taken_up(a: AppView, window_dpi: u32)
    ensures
        dpi_refreshed(a, window_dpi).state == a.state,
        a.state is Some && window_dpi > 0 ==> dpi_refreshed(a, window_dpi).dpi == window_dpi,
        a.state is None || window_dpi == 0 ==> dpi_refreshed(a, window_dpi).dpi == a.dpi,
{
}

} // verus!
