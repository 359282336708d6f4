//! What the shell around the library is asked to do.
use vstd::prelude::*;

use crate::locale::LanguageId;

verus! {

/// The timers of the main window.
#[derive(Clone, Copy, PartialEq, Eq, Structural, Debug)]
pub enum TimerId {
    /// Time to poll for usage.
    Poll,
    /// Time to show another countdown.
    Countdown,
    /// Time to poll again because a limit has been reset.
    ResetPoll,
    /// Time to look for an update.
    UpdateCheck,
}

/// One thing for the shell to do. Where it needs something from outside first,
/// the shell gets it and calls the operation that the variant names.
#[derive(Clone, Copy, PartialEq, Eq, Structural, Debug)]
pub enum Action {
    /// Paint the window.
    Paint,
    /// Have the window painted again: `App::render_layered`.
    Render,
    /// Place the window: `App::position_floating_window`.
    Position,
    /// Store the settings: `App::save_state_settings`.
    SaveSettings,
    /// Show the window.
    ShowWindow,
    /// Take the window off the screen.
    HideWindow,
    /// Put the window above all others, or among them.
    SetTopmost(bool),
    /// Move and size the window.
    MoveWindow { x: i32, y: i32, width: i32, height: i32 },
    /// Start a timer anew.
    SetTimer { timer: TimerId, ms: u32 },
    /// Stop a timer.
    KillTimer { timer: TimerId },
    /// Bring the tray icon up to date: `App::tray_icon_data`.
    SyncTrayIcons,
    /// Remove the tray icon.
    RemoveTrayIcons,
    /// Poll for usage on another thread: `App::poll_request`, then
    /// `App::poll_succeeded` or `App::poll_failed`.
    StartPoll,
    /// Look at the system's theme: `App::check_theme_change`.
    CheckTheme,
    /// Look at the system's language: `App::update_language_change`.
    CheckLanguage,
    /// Ask for the window's DPI: `App::refresh_dpi`.
    RefreshDpi,
    /// Write the usage texts anew: `App::update_display`.
    UpdateDisplay,
    /// Start the countdown: `App::schedule_countdown_timer`.
    ScheduleCountdown,
    /// Set the time of the next look for an update:
    /// `App::schedule_auto_update_check`.
    ScheduleUpdateCheck,
    /// Look for an update if it is time: `App::update_check_is_due`.
    AutoUpdateCheck,
    /// Look for an update: `App::begin_update_check`.
    BeginUpdateCheck { interactive: bool },
    /// The user wants to look for an update or to install one:
    /// `App::version_action`.
    VersionAction,
    /// The poll timer has fired: `App::poll_timer`.
    PollTimer,
    /// The mouse button went down at a point of the window: `App::press_at`.
    PressAt { x: i32, y: i32 },
    /// Begin to drag the window from where the cursor is: `App::begin_drag`.
    BeginDrag,
    /// Drag the window to where the cursor is: `App::drag_to`.
    DragToCursor,
    /// Have the mouse report to the window alone.
    CaptureMouse,
    /// Let the mouse report to any window again.
    ReleaseMouse,
    /// Show the cursor for moving things.
    ShowMoveCursor,
    /// Show the menu: `App::context_menu`.
    ShowContextMenu,
    /// See what the tray icon reports: `App::tray_action`.
    HandleTray,
    /// Start with the system, or no longer: the `startup` module.
    ToggleStartup,
    /// Move the window to its default place: `App::reset_position`.
    ResetPosition,
    /// Take up a language: `App::apply_language`.
    SetLanguage(Option<LanguageId>),
    /// Show the balloon that comes with these actions.
    NotifyBalloon,
    /// Show the dialog that comes with these actions.
    ShowDialog,
    /// Tell the window that there is new usage data.
    PostUsageUpdated,
    /// Tell the window that an update check or an update is over.
    PostUpdateCheckComplete,
    /// Tell the window to close.
    PostClose,
    /// End the program.
    Quit,
}

} // verus!
