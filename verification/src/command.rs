//! The commands of the menu: their numbers and what they do.
use vstd::prelude::*;

use crate::action::{Action, TimerId};
use crate::locale::LanguageId;
use crate::settings::{POLL_15_MIN, POLL_1_HOUR, POLL_1_MIN, POLL_5_MIN};
use crate::state::{
    same_choices, same_drag, same_percentages, same_place, same_polling, same_updates,
    with_all_texts, with_state, App, AppStateView, AppView,
    WAITING_TEXT,
};
use crate::window::{topmost_toggled, visibility_toggled};

verus! {

/// The numbers of the menu's items.
pub const IDM_REFRESH: u16 = 1;

pub const IDM_EXIT: u16 = 2;

pub const IDM_FREQ_1MIN: u16 = 10;

pub const IDM_FREQ_5MIN: u16 = 11;

pub const IDM_FREQ_15MIN: u16 = 12;

pub const IDM_FREQ_1HOUR: u16 = 13;

pub const IDM_START_WITH_WINDOWS: u16 = 20;

pub const IDM_RESET_POSITION: u16 = 30;

pub const IDM_VERSION_ACTION: u16 = 31;

pub const IDM_ALWAYS_ON_TOP: u16 = 32;

pub const IDM_LAYOUT_HORIZONTAL: u16 = 33;

pub const IDM_LAYOUT_VERTICAL: u16 = 34;

pub const IDM_LANG_SYSTEM: u16 = 40;

pub const IDM_LANG_ENGLISH: u16 = 41;

pub const IDM_LANG_CZECH: u16 = 42;

pub const IDM_LANG_DUTCH: u16 = 43;

pub const IDM_LANG_SPANISH: u16 = 44;

pub const IDM_LANG_FRENCH: u16 = 45;

pub const IDM_LANG_GERMAN: u16 = 46;

pub const IDM_LANG_JAPANESE: u16 = 47;

pub const IDM_LANG_KOREAN: u16 = 48;

pub const IDM_LANG_TRADITIONAL_CHINESE: u16 = 49;

pub const IDM_MODEL_CLAUDE_CODE: u16 = 60;

pub const IDM_MODEL_CODEX: u16 = 61;

/// A model whose usage can be shown.
#[derive(Clone, Copy, PartialEq, Eq, Structural, Debug)]
pub enum Model {
    ClaudeCode,
    Codex,
}

/// A command of the menu.
#[derive(Clone, Copy, PartialEq, Eq, Structural, Debug)]
pub enum Command {
    /// Poll now.
    Refresh,
    /// Look for an update, or install the one that was found.
    VersionAction,
    /// End the program.
    Exit,
    /// Move the widget to its default place.
    ResetPosition,
    /// Put the widget above all other windows, or no longer.
    AlwaysOnTop,
    /// Put the cards side by side, or one below the other.
    Layout { horizontal: bool },
    /// Start with the system, or no longer.
    StartWithWindows,
    /// Poll at this interval, in milliseconds.
    Frequency { ms: u32 },
    /// Show a model, or no longer.
    ShowModel(Model),
    /// Use a language, or that of the system.
    SetLanguage(Option<LanguageId>),
    /// Show the widget, or put it away.
    ToggleWidget,
    /// No command of this program.
    Unknown,
}

/// The command with a number. The item that shows the widget and puts it away
/// has its number from elsewhere: `toggle_widget`.
pub open spec fn command_of(id: u16, toggle_widget: u16) -> Command {
    if id == IDM_REFRESH {
        Command::Refresh
    } else if id == IDM_VERSION_ACTION {
        Command::VersionAction
    } else if id == IDM_EXIT {
        Command::Exit
    } else if id == IDM_RESET_POSITION {
        Command::ResetPosition
    } else if id == IDM_ALWAYS_ON_TOP {
        Command::AlwaysOnTop
    } else if id == IDM_LAYOUT_HORIZONTAL {
        Command::Layout { horizontal: true }
    } else if id == IDM_LAYOUT_VERTICAL {
        Command::Layout { horizontal: false }
    } else if id == IDM_START_WITH_WINDOWS {
        Command::StartWithWindows
    } else if id == IDM_FREQ_1MIN {
        Command::Frequency { ms: POLL_1_MIN }
    } else if id == IDM_FREQ_5MIN {
        Command::Frequency { ms: POLL_5_MIN }
    } else if id == IDM_FREQ_15MIN {
        Command::Frequency { ms: POLL_15_MIN }
    } else if id == IDM_FREQ_1HOUR {
        Command::Frequency { ms: POLL_1_HOUR }
    } else if id == IDM_MODEL_CLAUDE_CODE {
        Command::ShowModel(Model::ClaudeCode)
    } else if id == IDM_MODEL_CODEX {
        Command::ShowModel(Model::Codex)
    } else if id == IDM_LANG_SYSTEM {
        Command::SetLanguage(None)
    } else if id == IDM_LANG_ENGLISH {
        Command::SetLanguage(Some(LanguageId::English))
    } else if id == IDM_LANG_CZECH {
        Command::SetLanguage(Some(LanguageId::Czech))
    } else if id == IDM_LANG_DUTCH {
        Command::SetLanguage(Some(LanguageId::Dutch))
    } else if id == IDM_LANG_SPANISH {
        Command::SetLanguage(Some(LanguageId::Spanish))
    } else if id == IDM_LANG_FRENCH {
        Command::SetLanguage(Some(LanguageId::French))
    } else if id == IDM_LANG_GERMAN {
        Command::SetLanguage(Some(LanguageId::German))
    } else if id == IDM_LANG_JAPANESE {
        Command::SetLanguage(Some(LanguageId::Japanese))
    } else if id == IDM_LANG_KOREAN {
        Command::SetLanguage(Some(LanguageId::Korean))
    } else if id == IDM_LANG_TRADITIONAL_CHINESE {
        Command::SetLanguage(Some(LanguageId::TraditionalChinese))
    } else if id == toggle_widget {
        Command::ToggleWidget
    } else {
        Command::Unknown
    }
}

/// Reads the number of a command.
pub fn decode_command(id: u16, toggle_widget: u16) -> (command: Command)
    ensures
        command == command_of(id, toggle_widget),
{
    match id {
        IDM_REFRESH => Command::Refresh,
        IDM_VERSION_ACTION => Command::VersionAction,
        IDM_EXIT => Command::Exit,
        IDM_RESET_POSITION => Command::ResetPosition,
        IDM_ALWAYS_ON_TOP => Command::AlwaysOnTop,
        IDM_LAYOUT_HORIZONTAL => Command::Layout { horizontal: true },
        IDM_LAYOUT_VERTICAL => Command::Layout { horizontal: false },
        IDM_START_WITH_WINDOWS => Command::StartWithWindows,
        IDM_FREQ_1MIN => Command::Frequency { ms: POLL_1_MIN },
        IDM_FREQ_5MIN => Command::Frequency { ms: POLL_5_MIN },
        IDM_FREQ_15MIN => Command::Frequency { ms: POLL_15_MIN },
        IDM_FREQ_1HOUR => Command::Frequency { ms: POLL_1_HOUR },
        IDM_MODEL_CLAUDE_CODE => Command::ShowModel(Model::ClaudeCode),
        IDM_MODEL_CODEX => Command::ShowModel(Model::Codex),
        IDM_LANG_SYSTEM => Command::SetLanguage(None),
        IDM_LANG_ENGLISH => Command::SetLanguage(Some(LanguageId::English)),
        IDM_LANG_CZECH => Command::SetLanguage(Some(LanguageId::Czech)),
        IDM_LANG_DUTCH => Command::SetLanguage(Some(LanguageId::Dutch)),
        IDM_LANG_SPANISH => Command::SetLanguage(Some(LanguageId::Spanish)),
        IDM_LANG_FRENCH => Command::SetLanguage(Some(LanguageId::French)),
        IDM_LANG_GERMAN => Command::SetLanguage(Some(LanguageId::German)),
        IDM_LANG_JAPANESE => Command::SetLanguage(Some(LanguageId::Japanese)),
        IDM_LANG_KOREAN => Command::SetLanguage(Some(LanguageId::Korean)),
        IDM_LANG_TRADITIONAL_CHINESE => Command::SetLanguage(Some(LanguageId::TraditionalChinese)),
        _ => if id == toggle_widget {
            Command::ToggleWidget
        } else {
            Command::Unknown
        },
    }
}

/// The menu's number for a language.
pub open spec fn language_number(language: LanguageId) -> u16 {
    match language {
        LanguageId::English => IDM_LANG_ENGLISH,
        LanguageId::Czech => IDM_LANG_CZECH,
        LanguageId::Dutch => IDM_LANG_DUTCH,
        LanguageId::Spanish => IDM_LANG_SPANISH,
        LanguageId::French => IDM_LANG_FRENCH,
        LanguageId::German => IDM_LANG_GERMAN,
        LanguageId::Japanese => IDM_LANG_JAPANESE,
        LanguageId::Korean => IDM_LANG_KOREAN,
        LanguageId::TraditionalChinese => IDM_LANG_TRADITIONAL_CHINESE,
    }
}

/// The menu's number for a language.
pub fn language_menu_id(language: LanguageId) -> (id: u16)
    ensures
        id == language_number(language),
{
    match language {
        LanguageId::English => IDM_LANG_ENGLISH,
        LanguageId::Czech => IDM_LANG_CZECH,
        LanguageId::Dutch => IDM_LANG_DUTCH,
        LanguageId::Spanish => IDM_LANG_SPANISH,
        LanguageId::French => IDM_LANG_FRENCH,
        LanguageId::German => IDM_LANG_GERMAN,
        LanguageId::Japanese => IDM_LANG_JAPANESE,
        LanguageId::Korean => IDM_LANG_KOREAN,
        LanguageId::TraditionalChinese => IDM_LANG_TRADITIONAL_CHINESE,
    }
}

/// The models shown once one of them is switched. The last one cannot be
/// switched off.
pub open spec fn models_switched(show_claude_code: bool, show_codex: bool, model: Model) -> (
    bool,
    bool,
) {
    match model {
        Model::ClaudeCode => if show_codex || !show_claude_code {
            (!show_claude_code, show_codex)
        } else {
            (show_claude_code, show_codex)
        },
        Model::Codex => if show_claude_code || !show_codex {
            (show_claude_code, !show_codex)
        } else {
            (show_claude_code, show_codex)
        },
    }
}

/// What a command does to the state.
pub open spec fn state_commanded(s: AppStateView, command: Command) -> AppStateView {
    match command {
        Command::Refresh => AppStateView {
            force_notify_auth_error: true,
            ..with_all_texts(s, WAITING_TEXT@)
        },
        Command::AlwaysOnTop => AppStateView { always_on_top: !s.always_on_top, ..s },
        Command::Layout { horizontal } => AppStateView { layout_horizontal: horizontal, ..s },
        Command::Frequency { ms } => AppStateView { poll_interval_ms: ms, ..s },
        Command::ShowModel(model) => {
            let (claude_code, codex) = models_switched(s.show_claude_code, s.show_codex, model);
            AppStateView {
                show_claude_code: claude_code,
                show_codex: codex,
                ..with_all_texts(s, WAITING_TEXT@)
            }
        },
        Command::ToggleWidget => AppStateView { widget_visible: !s.widget_visible, ..s },
        _ => s,
    }
}

/// What is to be done for a command.
pub open spec fn command_actions(a: AppView, command: Command) -> Seq<Action> {
    match command {
        Command::Refresh => seq![Action::Render, Action::StartPoll],
        Command::VersionAction => seq![Action::VersionAction],
        Command::Exit => seq![Action::Quit],
        Command::ResetPosition => seq![
            Action::ResetPosition,
            Action::SaveSettings,
            Action::Position,
        ],
        Command::AlwaysOnTop => topmost_toggled(a).1,
        Command::Layout { .. } => seq![Action::SaveSettings, Action::Position, Action::Render],
        Command::StartWithWindows => seq![Action::ToggleStartup],
        Command::Frequency { ms } => seq![
            Action::SaveSettings,
            Action::SetTimer { timer: TimerId::Poll, ms },
        ],
        Command::ShowModel(_) => seq![
            Action::SaveSettings,
            Action::Position,
            Action::Render,
            Action::SyncTrayIcons,
            Action::StartPoll,
        ],
        Command::SetLanguage(language) => seq![
            Action::SetLanguage(language),
            Action::SaveSettings,
            Action::Render,
        ],
        Command::ToggleWidget => visibility_toggled(a).1,
        Command::Unknown => seq![],
    }
}

/// What a command does to the program, and what is to be done for it.
pub open spec fn commanded(a: AppView, command: Command) -> (AppView, Seq<Action>) {
    (
        match a.state {
            Some(s) => with_state(a, state_commanded(s, command)),
            None => a,
        },
        command_actions(a, command),
    )
}

impl App {
    /// Shows that new data is awaited, and has the next failure to sign in
    /// reported.
    fn await_refresh(&mut self)
        ensures
            final(self)@ == commanded(old(self)@, Command::Refresh).0,
    {
        match &mut self.state {
            Some(s) => {
                s.set_all_texts(WAITING_TEXT);
                s.force_notify_auth_error = true;
            },
            None => {},
        }
    }

    /// Puts the cards side by side, or one below the other.
    fn set_layout(&mut self, horizontal: bool)
        ensures
            final(self)@ == commanded(old(self)@, Command::Layout { horizontal }).0,
    {
        match &mut self.state {
            Some(s) => {
                s.layout_horizontal = horizontal;
            },
            None => {},
        }
    }

    /// Sets the poll interval.
    fn set_poll_interval(&mut self, ms: u32)
        ensures
            final(self)@ == commanded(old(self)@, Command::Frequency { ms }).0,
    {
        match &mut self.state {
            Some(s) => {
                s.poll_interval_ms = ms;
            },
            None => {},
        }
    }

    /// Shows a model, or no longer, unless it is the last one.
    fn switch_model(&mut self, model: Model)
        ensures
            final(self)@ == commanded(old(self)@, Command::ShowModel(model)).0,
    {
        match &mut self.state {
            Some(s) => {
                s.set_all_texts(WAITING_TEXT);
                match model {
                    Model::ClaudeCode => {
                        if s.show_codex || !s.show_claude_code {
                            s.show_claude_code = !s.show_claude_code;
                        }
                    },
                    Model::Codex => {
                        if s.show_claude_code || !s.show_codex {
                            s.show_codex = !s.show_codex;
                        }
                    },
                }
            },
            None => {},
        }
    }

    /// Takes a command.
    pub fn handle_command(&mut self, command: Command) -> (actions: Vec<Action>)
        ensures
            (final(self)@, actions@) == commanded(old(self)@, command),
    {
        match command {
            Command::Refresh => {
                self.await_refresh();
                vec![Action::Render, Action::StartPoll]
            },
            Command::VersionAction => vec![Action::VersionAction],
            Command::Exit => vec![Action::Quit],
            Command::ResetPosition => vec![
                Action::ResetPosition,
                Action::SaveSettings,
                Action::Position,
            ],
            Command::AlwaysOnTop => self.toggle_always_on_top(),
            Command::Layout { horizontal } => {
                self.set_layout(horizontal);
                vec![Action::SaveSettings, Action::Position, Action::Render]
            },
            Command::StartWithWindows => vec![Action::ToggleStartup],
            Command::Frequency { ms } => {
                self.set_poll_interval(ms);
                vec![Action::SaveSettings, Action::SetTimer { timer: TimerId::Poll, ms }]
            },
            Command::ShowModel(model) => {
                self.switch_model(model);
                vec![
                    Action::SaveSettings,
                    Action::Position,
                    Action::Render,
                    Action::SyncTrayIcons,
                    Action::StartPoll,
                ]
            },
            Command::SetLanguage(language) => vec![
                Action::SetLanguage(language),
                Action::SaveSettings,
                Action::Render,
            ],
            Command::ToggleWidget => self.toggle_widget_visibility(),
            Command::Unknown => vec![],
        }
    }
}

/// Some model is shown.
pub open spec fn shows_a_model(s: AppStateView) -> bool {
    s.show_claude_code || s.show_codex
}

/// No command leaves the widget without a model to show.
pub proof fn commands_keep_a_model(s: AppStateView, command: Command)
    requires
        shows_a_model(s),
    ensures
        shows_a_model(state_commanded(s, command)),
{
}

/// A model can be shown alongside the other or by itself: switching it does so
/// wherever a model is still shown then, and changes nothing where none would
/// be.
pub proof fn switching_is_refused_only_for_the_last_model(
    show_claude_code: bool,
    show_codex: bool,
    model: Model,
)
    requires
        show_claude_code || show_codex,
    ensures
        ({
            let (claude_code, codex) = models_switched(show_claude_code, show_codex, model);
            let wanted = match model {
                Model::ClaudeCode => (!show_claude_code, show_codex),
                Model::Codex => (show_claude_code, !show_codex),
            };
            if wanted.0 || wanted.1 {
                (claude_code, codex) == wanted
            } else {
                (claude_code, codex) == (show_claude_code, show_codex)
            }
        }),
{
}

/// Showing the widget and putting it away again, or the other way round, leaves
/// the program as it was; so does putting it above all other windows and no
/// longer.
pub proof fn toggling_twice_changes_nothing(a: AppView)
    ensures
        visibility_toggled(visibility_toggled(a).0).0 == a,
        topmost_toggled(topmost_toggled(a).0).0 == a,
{
}

/// Choosing the item of a language is choosing that language, and no two
/// languages have the same item.
pub proof fn language_items_set_their_language(a: LanguageId, b: LanguageId, toggle_widget: u16)
    ensures
        command_of(language_number(a), toggle_widget) == Command::SetLanguage(Some(a)),
        language_number(a) == language_number(b) ==> a == b,
{
}

/// Every command changes what it is for and nothing else of the state; most
/// change nothing of it themselves.
pub proof fn commands_change_what_they_are_for(s: AppStateView, command: Command)
    ensures
        ({
            let t = state_commanded(s, command);
            match command {
                Command::Refresh => {
                    &&& t.force_notify_auth_error
                    &&& t.session_text == "..."@ && t.weekly_text == "..."@
                    &&& t.codex_session_text == "..."@ && t.codex_weekly_text == "..."@
                    &&& same_choices(s, t) && same_percentages(s, t) && same_updates(s, t)
                    &&& same_place(s, t) && same_drag(s, t)
                    &&& t.retry_count == s.retry_count && t.last_poll_ok == s.last_poll_ok
                    &&& t.auth_error_paused_polling == s.auth_error_paused_polling
                    &&& t.auth_watch_mode == s.auth_watch_mode
                    &&& t.auth_watch_snapshot == s.auth_watch_snapshot
                },
                Command::AlwaysOnTop => t.always_on_top == !s.always_on_top && s == (AppStateView {
                    always_on_top: s.always_on_top,
                    ..t
                }),
                Command::ToggleWidget => t.widget_visible == !s.widget_visible && s == (
                AppStateView { widget_visible: s.widget_visible, ..t }),
                Command::Layout { horizontal } => t.layout_horizontal == horizontal && s == (
                AppStateView { layout_horizontal: s.layout_horizontal, ..t }),
                Command::Frequency { ms } => t.poll_interval_ms == ms && s == (AppStateView {
                    poll_interval_ms: s.poll_interval_ms,
                    ..t
                }),
                Command::ShowModel(model) => {
                    &&& t.session_text == "..."@ && t.weekly_text == "..."@
                    &&& t.codex_session_text == "..."@ && t.codex_weekly_text == "..."@
                    &&& model == Model::ClaudeCode ==> t.show_codex == s.show_codex
                    &&& model == Model::Codex ==> t.show_claude_code == s.show_claude_code
                    &&& same_choices(s, (AppStateView {
                        show_claude_code: s.show_claude_code,
                        show_codex: s.show_codex,
                        ..t
                    }))
                    &&& same_percentages(s, t) && same_updates(s, t) && same_polling(s, t)
                    &&& same_place(s, t) && same_drag(s, t)
                },
                _ => t == s,
            }
        }),
{
}

/// The program ends on one command alone, and so each of the other things that
/// only one command is for is done for that one. What is polled anew, stored,
/// placed and painted is what a command has changed.
pub proof fn commands_lead_to_what_they_are_for(
    a: AppView,
    s: AppStateView,
    command: Command,
    language: Option<LanguageId>,
    timer: TimerId,
    ms: u32,
)
    requires
        a.state == Some(s),
    ensures
        ({
            let actions = commanded(a, command).1;
            let shows = command == Command::ToggleWidget && !s.widget_visible;
            let hides = command == Command::ToggleWidget && s.widget_visible;
            &&& actions.contains(Action::Quit) == (command == Command::Exit)
            &&& actions.contains(Action::VersionAction) == (command == Command::VersionAction)
            &&& actions.contains(Action::ResetPosition) == (command == Command::ResetPosition)
            &&& actions.contains(Action::ToggleStartup) == (command == Command::StartWithWindows)
            &&& actions.contains(Action::SetLanguage(language)) == (command
                == Command::SetLanguage(language))
            &&& actions.contains(Action::SetTimer { timer, ms }) == (timer == TimerId::Poll
                && command == Command::Frequency { ms })
            &&& actions.contains(Action::SetTopmost(!s.always_on_top)) == (command
                == Command::AlwaysOnTop)
            &&& actions.contains(Action::StartPoll) == (command == Command::Refresh
                || command is ShowModel)
            &&& actions.contains(Action::SyncTrayIcons) == (command is ShowModel)
            &&& actions.contains(Action::SaveSettings) == (command is AlwaysOnTop
                || command is ToggleWidget || command is Layout || command is Frequency
                || command is ShowModel || command is SetLanguage || command is ResetPosition)
            &&& actions.contains(Action::Position) == (command is ResetPosition
                || command is Layout || command is ShowModel || shows)
            &&& actions.contains(Action::Render) == (command is Refresh || command is Layout
                || command is ShowModel || command is SetLanguage || shows)
            &&& actions.contains(Action::ShowWindow) == shows
            &&& actions.contains(Action::HideWindow) == hides
        }),
{
    let actions = commanded(a, command).1;
    match command {
        Command::Refresh => {
            assert(actions[0] == Action::Render && actions[1] == Action::StartPoll);
        },
        Command::VersionAction => {
            assert(actions[0] == Action::VersionAction);
        },
        Command::Exit => {
            assert(actions[0] == Action::Quit);
        },
        Command::ResetPosition => {
            assert(actions[0] == Action::ResetPosition && actions[1] == Action::SaveSettings
                && actions[2] == Action::Position);
        },
        Command::AlwaysOnTop => {
            assert(actions[0] == Action::SetTopmost(!s.always_on_top) && actions[1]
                == Action::SaveSettings);
        },
        Command::Layout { .. } => {
            assert(actions[0] == Action::SaveSettings && actions[1] == Action::Position
                && actions[2] == Action::Render);
        },
        Command::StartWithWindows => {
            assert(actions[0] == Action::ToggleStartup);
        },
        Command::Frequency { ms: chosen } => {
            assert(actions[0] == Action::SaveSettings && actions[1] == (Action::SetTimer {
                timer: TimerId::Poll,
                ms: chosen,
            }));
        },
        Command::ShowModel(_) => {
            assert(actions[0] == Action::SaveSettings && actions[1] == Action::Position
                && actions[2] == Action::Render && actions[3] == Action::SyncTrayIcons && actions[4]
                == Action::StartPoll);
        },
        Command::SetLanguage(chosen) => {
            assert(actions[0] == Action::SetLanguage(chosen) && actions[1] == Action::SaveSettings
                && actions[2] == Action::Render);
        },
        Command::ToggleWidget => {
            assert(actions[0] == Action::SaveSettings);
            if s.widget_visible {
                assert(actions[1] == Action::HideWindow);
            } else {
                assert(actions[1] == Action::Position && actions[2] == Action::ShowWindow
                    && actions[3] == Action::Render);
            }
        },
        Command::Unknown => {},
    }
}

/// Each number stands for its command, the number from elsewhere for the one that
/// shows the widget unless it is taken, and no other number for any.
pub proof fn numbers_stand_for_their_commands(id: u16, toggle_widget: u16)
    ensures
        command_of(1, toggle_widget) == Command::Refresh,
        command_of(2, toggle_widget) == Command::Exit,
        command_of(10, toggle_widget) == (Command::Frequency { ms: 60_000 }),
        command_of(11, toggle_widget) == (Command::Frequency { ms: 300_000 }),
        command_of(12, toggle_widget) == (Command::Frequency { ms: 900_000 }),
        command_of(13, toggle_widget) == (Command::Frequency { ms: 3_600_000 }),
        command_of(20, toggle_widget) == Command::StartWithWindows,
        command_of(30, toggle_widget) == Command::ResetPosition,
        command_of(31, toggle_widget) == Command::VersionAction,
        command_of(32, toggle_widget) == Command::AlwaysOnTop,
        command_of(33, toggle_widget) == (Command::Layout { horizontal: true }),
        command_of(34, toggle_widget) == (Command::Layout { horizontal: false }),
        command_of(40, toggle_widget) == Command::SetLanguage(None),
        command_of(41, toggle_widget) == Command::SetLanguage(Some(LanguageId::English)),
        command_of(42, toggle_widget) == Command::SetLanguage(Some(LanguageId::Czech)),
        command_of(43, toggle_widget) == Command::SetLanguage(Some(LanguageId::Dutch)),
        command_of(44, toggle_widget) == Command::SetLanguage(Some(LanguageId::Spanish)),
        command_of(45, toggle_widget) == Command::SetLanguage(Some(LanguageId::French)),
        command_of(46, toggle_widget) == Command::SetLanguage(Some(LanguageId::German)),
        command_of(47, toggle_widget) == Command::SetLanguage(Some(LanguageId::Japanese)),
        command_of(48, toggle_widget) == Command::SetLanguage(Some(LanguageId::Korean)),
        command_of(49, toggle_widget) == Command::SetLanguage(
            Some(LanguageId::TraditionalChinese),
        ),
        command_of(60, toggle_widget) == Command::ShowModel(Model::ClaudeCode),
        command_of(61, toggle_widget) == Command::ShowModel(Model::Codex),
        ({
            let known = 1 <= id <= 2 || 10 <= id <= 13 || id == 20 || 30 <= id <= 34 || 40 <= id
                <= 49 || 60 <= id <= 61;
            &&& !known && id == toggle_widget ==> command_of(id, toggle_widget)
                == Command::ToggleWidget
            &&& !known && id != toggle_widget ==> command_of(id, toggle_widget) == Command::Unknown
        }),
{
}

} // verus!
