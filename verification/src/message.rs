//! The messages of the main window: how they are read and what follows.
use vstd::prelude::*;

use crate::action::{Action, TimerId};
use crate::command::{commanded, decode_command, command_of, Command};
use crate::state::{App, AppView};
use crate::window::{released, visibility_toggled};

verus! {

/// The numbers of the messages that the window answers, as Windows has them.
pub const WM_DESTROY: u32 = 0x0002;

pub const WM_PAINT: u32 = 0x000F;

pub const WM_ERASEBKGND: u32 = 0x0014;

pub const WM_SETTINGCHANGE: u32 = 0x001A;

pub const WM_SETCURSOR: u32 = 0x0020;

pub const WM_DISPLAYCHANGE: u32 = 0x007E;

pub const WM_COMMAND: u32 = 0x0111;

pub const WM_TIMER: u32 = 0x0113;

pub const WM_MOUSEMOVE: u32 = 0x0200;

pub const WM_LBUTTONDOWN: u32 = 0x0201;

pub const WM_LBUTTONUP: u32 = 0x0202;

pub const WM_RBUTTONUP: u32 = 0x0205;

pub const WM_DPICHANGED_MSG: u32 = 0x02E0;

/// The first number that a program may give to messages of its own.
pub const WM_APP: u32 = 0x8000;

/// An update check or an update is over.
pub const WM_APP_UPDATE_CHECK_COMPLETE: u32 = WM_APP + 2;

/// The numbers that the shell has chosen for messages, timers and a menu item.
#[derive(Clone, Copy)]
pub struct ShellIds {
    /// There is new usage data.
    pub usage_updated: u32,
    /// The tray icon reports.
    pub tray: u32,
    pub timer_poll: usize,
    pub timer_countdown: usize,
    pub timer_reset_poll: usize,
    pub timer_update_check: usize,
    /// The menu item that shows the widget and puts it away.
    pub toggle_widget: u16,
}

/// A message of the main window.
#[derive(Clone, Copy, PartialEq, Eq, Structural, Debug)]
pub enum Message {
    Paint,
    EraseBackground,
    DisplayChanged,
    /// The DPI of the window has changed to this.
    DpiChanged { dpi: u32 },
    SettingChanged,
    /// A timer has fired, one of ours if it has a name.
    Timer(Option<TimerId>),
    UsageUpdated,
    UpdateCheckComplete,
    SetCursor,
    /// The left button went down at a point of the window.
    LeftButtonDown { x: i32, y: i32 },
    MouseMoved,
    LeftButtonUp,
    RightButtonUp,
    Chosen(Command),
    Tray,
    Destroy,
    Other,
}

/// What the window answers to a message.
#[derive(Clone, Copy, PartialEq, Eq, Structural, Debug)]
pub enum Reply {
    Value(isize),
    /// What any window answers.
    Standard,
}

/// What is to be done for a message, and what the window answers.
pub struct Outcome {
    pub actions: Vec<Action>,
    pub reply: Reply,
}

/// The low word of a number, with its sign.
pub open spec fn signed_word(n: int) -> int {
    let word = n % 0x10000;
    if word >= 0x8000 {
        word - 0x10000
    } else {
        word
    }
}

/// The timer with a number.
pub open spec fn timer_of(id: usize, ids: ShellIds) -> Option<TimerId> {
    if id == ids.timer_poll {
        Some(TimerId::Poll)
    } else if id == ids.timer_countdown {
        Some(TimerId::Countdown)
    } else if id == ids.timer_reset_poll {
        Some(TimerId::ResetPoll)
    } else if id == ids.timer_update_check {
        Some(TimerId::UpdateCheck)
    } else {
        None
    }
}

/// The message that a number and its two parameters stand for.
pub open spec fn message_of(msg: u32, wparam: usize, lparam: isize, ids: ShellIds) -> Message {
    if msg == WM_PAINT {
        Message::Paint
    } else if msg == WM_ERASEBKGND {
        Message::EraseBackground
    } else if msg == WM_DISPLAYCHANGE {
        Message::DisplayChanged
    } else if msg == WM_DPICHANGED_MSG {
        Message::DpiChanged { dpi: (wparam % 0x10000) as u32 }
    } else if msg == WM_SETTINGCHANGE {
        Message::SettingChanged
    } else if msg == WM_TIMER {
        Message::Timer(timer_of(wparam, ids))
    } else if msg == ids.usage_updated {
        Message::UsageUpdated
    } else if msg == WM_APP_UPDATE_CHECK_COMPLETE {
        Message::UpdateCheckComplete
    } else if msg == WM_SETCURSOR {
        Message::SetCursor
    } else if msg == WM_LBUTTONDOWN {
        Message::LeftButtonDown {
            x: signed_word(lparam as int) as i32,
            y: signed_word(lparam as int / 0x10000) as i32,
        }
    } else if msg == WM_MOUSEMOVE {
        Message::MouseMoved
    } else if msg == WM_LBUTTONUP {
        Message::LeftButtonUp
    } else if msg == WM_RBUTTONUP {
        Message::RightButtonUp
    } else if msg == WM_COMMAND {
        Message::Chosen(command_of((wparam % 0x10000) as u16, ids.toggle_widget))
    } else if msg == ids.tray {
        Message::Tray
    } else if msg == WM_DESTROY {
        Message::Destroy
    } else {
        Message::Other
    }
}

/// The low word of a number, without its sign.
fn word(n: i128) -> (w: i128)
    requires
        isize::MIN <= n <= isize::MAX,
    ensures
        w == n as int % 0x10000,
{
    if n >= 0 {
        n % 0x10000
    } else {
        let below: i128 = (-n) % 0x10000;
        if below == 0 {
            0
        } else {
            0x10000 - below
        }
    }
}

/// Gives a word its sign.
fn with_sign(w: i128) -> (n: i32)
    requires
        0 <= w < 0x10000,
    ensures
        n == signed_word(w as int),
{
    if w >= 0x8000 {
        (w - 0x10000) as i32
    } else {
        w as i32
    }
}

/// The coordinates in the parameter of a mouse message.
fn mouse_point(lparam: isize) -> (point: (i32, i32))
    ensures
        point.0 == signed_word(lparam as int),
        point.1 == signed_word(lparam as int / 0x10000),
{
    let n: i128 = lparam as i128;
    let low: i128 = word(n);
    let high: i128 = if n >= 0 {
        n / 0x10000
    } else {
        -((-n + 0xFFFF) / 0x10000)
    };
    assert(high == n as int / 0x10000);
    (with_sign(low), with_sign(word(high)))
}

/// Reads the number of a timer.
fn decode_timer(id: usize, ids: &ShellIds) -> (timer: Option<TimerId>)
    ensures
        timer == timer_of(id, *ids),
{
    if id == ids.timer_poll {
        Some(TimerId::Poll)
    } else if id == ids.timer_countdown {
        Some(TimerId::Countdown)
    } else if id == ids.timer_reset_poll {
        Some(TimerId::ResetPoll)
    } else if id == ids.timer_update_check {
        Some(TimerId::UpdateCheck)
    } else {
        None
    }
}

/// Reads a message.
pub fn decode_message(msg: u32, wparam: usize, lparam: isize, ids: &ShellIds) -> (message: Message)
    ensures
        message == message_of(msg, wparam, lparam, *ids),
{
    if msg == WM_PAINT {
        Message::Paint
    } else if msg == WM_ERASEBKGND {
        Message::EraseBackground
    } else if msg == WM_DISPLAYCHANGE {
        Message::DisplayChanged
    } else if msg == WM_DPICHANGED_MSG {
        Message::DpiChanged { dpi: (wparam % 0x10000) as u32 }
    } else if msg == WM_SETTINGCHANGE {
        Message::SettingChanged
    } else if msg == WM_TIMER {
        Message::Timer(decode_timer(wparam, ids))
    } else if msg == ids.usage_updated {
        Message::UsageUpdated
    } else if msg == WM_APP_UPDATE_CHECK_COMPLETE {
        Message::UpdateCheckComplete
    } else if msg == WM_SETCURSOR {
        Message::SetCursor
    } else if msg == WM_LBUTTONDOWN {
        let (x, y): (i32, i32) = mouse_point(lparam);
        Message::LeftButtonDown { x, y }
    } else if msg == WM_MOUSEMOVE {
        Message::MouseMoved
    } else if msg == WM_LBUTTONUP {
        Message::LeftButtonUp
    } else if msg == WM_RBUTTONUP {
        Message::RightButtonUp
    } else if msg == WM_COMMAND {
        Message::Chosen(decode_command((wparam % 0x10000) as u16, ids.toggle_widget))
    } else if msg == ids.tray {
        Message::Tray
    } else if msg == WM_DESTROY {
        Message::Destroy
    } else {
        Message::Other
    }
}

/// The widget is being dragged.
pub open spec fn is_dragging(a: AppView) -> bool {
    a.state matches Some(s) && s.dragging
}

/// What a message does to the program, what is to be done for it, and what the
/// window answers.
pub open spec fn answered(a: AppView, message: Message) -> (AppView, Seq<Action>, Reply) {
    match message {
        Message::Paint => (a, seq![Action::Paint], Reply::Value(0)),
        Message::EraseBackground => (a, seq![], Reply::Value(1)),
        Message::DisplayChanged => (
            a,
            seq![Action::RefreshDpi, Action::Position, Action::Render],
            Reply::Value(0),
        ),
        Message::DpiChanged { dpi } => (
            AppView { dpi, ..a },
            seq![Action::RefreshDpi, Action::Position, Action::Render],
            Reply::Value(0),
        ),
        Message::SettingChanged => (
            a,
            seq![
                Action::CheckTheme,
                Action::CheckLanguage,
                Action::RefreshDpi,
                Action::Position,
                Action::Render,
            ],
            Reply::Value(0),
        ),
        Message::Timer(Some(TimerId::Poll)) => (a, seq![Action::PollTimer], Reply::Value(0)),
        Message::Timer(Some(TimerId::Countdown)) => (
            a,
            seq![Action::UpdateDisplay, Action::Render, Action::ScheduleCountdown],
            Reply::Value(0),
        ),
        Message::Timer(Some(TimerId::ResetPoll)) => (
            a,
            if a.state matches Some(s) && !s.auth_error_paused_polling {
                seq![Action::StartPoll]
            } else {
                seq![]
            },
            Reply::Value(0),
        ),
        Message::Timer(Some(TimerId::UpdateCheck)) => (
            a,
            seq![Action::BeginUpdateCheck { interactive: false }],
            Reply::Value(0),
        ),
        Message::Timer(None) => (a, seq![], Reply::Value(0)),
        Message::UsageUpdated => (
            a,
            seq![
                Action::CheckTheme,
                Action::CheckLanguage,
                Action::Render,
                Action::ScheduleCountdown,
                Action::SyncTrayIcons,
            ],
            Reply::Value(0),
        ),
        Message::UpdateCheckComplete => (a, seq![Action::ScheduleUpdateCheck], Reply::Value(0)),
        Message::SetCursor => if is_dragging(a) {
            (a, seq![Action::ShowMoveCursor], Reply::Value(1))
        } else {
            (a, seq![], Reply::Standard)
        },
        Message::LeftButtonDown { x, y } => (a, seq![Action::PressAt { x, y }], Reply::Value(0)),
        Message::MouseMoved => (
            a,
            if is_dragging(a) {
                seq![Action::DragToCursor]
            } else {
                seq![]
            },
            Reply::Value(0),
        ),
        Message::LeftButtonUp => (released(a).0, released(a).1, Reply::Value(0)),
        Message::RightButtonUp => (a, seq![Action::ShowContextMenu], Reply::Value(0)),
        Message::Chosen(command) => (
            commanded(a, command).0,
            commanded(a, command).1,
            Reply::Value(0),
        ),
        Message::Tray => (a, seq![Action::HandleTray], Reply::Value(0)),
        Message::Destroy => (a, seq![Action::RemoveTrayIcons, Action::Quit], Reply::Value(0)),
        Message::Other => (a, seq![], Reply::Standard),
    }
}

/// What the tray icon reports.
#[derive(Clone, Copy, PartialEq, Eq, Structural, Debug)]
pub enum TrayAction {
    ToggleWidget,
    ShowContextMenu,
    Ignore,
}

/// What a report of the tray icon does to the program, and what is to be done.
pub open spec fn tray_answered(a: AppView, action: TrayAction) -> (AppView, Seq<Action>) {
    match action {
        TrayAction::ToggleWidget => visibility_toggled(a),
        TrayAction::ShowContextMenu => (a, seq![Action::ShowContextMenu]),
        TrayAction::Ignore => (a, seq![]),
    }
}

impl App {
    /// Whether the widget is being dragged.
    fn dragging(&self) -> (dragging: bool)
        ensures
            dragging == is_dragging(self@),
    {
        match &self.state {
            Some(s) => s.dragging,
            None => false,
        }
    }

    /// What is to be done where the timer for a reset has fired.
    fn reset_timer_actions(&self) -> (actions: Vec<Action>)
        ensures
            actions@ == answered(self@, Message::Timer(Some(TimerId::ResetPoll))).1,
    {
        match &self.state {
            Some(s) => if s.auth_error_paused_polling {
                vec![]
            } else {
                vec![Action::StartPoll]
            },
            None => vec![],
        }
    }

    /// Answers a message of the main window.
    pub fn wnd_proc(&mut self, message: Message) -> (outcome: Outcome)
        ensures
            (final(self)@, outcome.actions@, outcome.reply) == answered(old(self)@, message),
    {
        let done: Reply = Reply::Value(0);
        match message {
            Message::Paint => Outcome { actions: vec![Action::Paint], reply: done },
            Message::EraseBackground => Outcome { actions: vec![], reply: Reply::Value(1) },
            Message::DisplayChanged => Outcome {
                actions: vec![Action::RefreshDpi, Action::Position, Action::Render],
                reply: done,
            },
            Message::DpiChanged { dpi } => {
                self.dpi = dpi;
                Outcome {
                    actions: vec![Action::RefreshDpi, Action::Position, Action::Render],
                    reply: done,
                }
            },
            Message::SettingChanged => Outcome {
                actions: vec![
                    Action::CheckTheme,
                    Action::CheckLanguage,
                    Action::RefreshDpi,
                    Action::Position,
                    Action::Render,
                ],
                reply: done,
            },
            Message::Timer(Some(TimerId::Poll)) => Outcome {
                actions: vec![Action::PollTimer],
                reply: done,
            },
            Message::Timer(Some(TimerId::Countdown)) => Outcome {
                actions: vec![Action::UpdateDisplay, Action::Render, Action::ScheduleCountdown],
                reply: done,
            },
            Message::Timer(Some(TimerId::ResetPoll)) => Outcome {
                actions: self.reset_timer_actions(),
                reply: done,
            },
            Message::Timer(Some(TimerId::UpdateCheck)) => Outcome {
                actions: vec![Action::BeginUpdateCheck { interactive: false }],
                reply: done,
            },
            Message::Timer(None) => Outcome { actions: vec![], reply: done },
            Message::UsageUpdated => Outcome {
                actions: vec![
                    Action::CheckTheme,
                    Action::CheckLanguage,
                    Action::Render,
                    Action::ScheduleCountdown,
                    Action::SyncTrayIcons,
                ],
                reply: done,
            },
            Message::UpdateCheckComplete => Outcome {
                actions: vec![Action::ScheduleUpdateCheck],
                reply: done,
            },
            Message::SetCursor => if self.dragging() {
                Outcome { actions: vec![Action::ShowMoveCursor], reply: Reply::Value(1) }
            } else {
                Outcome { actions: vec![], reply: Reply::Standard }
            },
            Message::LeftButtonDown { x, y } => Outcome {
                actions: vec![Action::PressAt { x, y }],
                reply: done,
            },
            Message::MouseMoved => if self.dragging() {
                Outcome { actions: vec![Action::DragToCursor], reply: done }
            } else {
                Outcome { actions: vec![], reply: done }
            },
            Message::LeftButtonUp => Outcome { actions: self.release(), reply: done },
            Message::RightButtonUp => Outcome {
                actions: vec![Action::ShowContextMenu],
                reply: done,
            },
            Message::Chosen(command) => Outcome {
                actions: self.handle_command(command),
                reply: done,
            },
            Message::Tray => Outcome { actions: vec![Action::HandleTray], reply: done },
            Message::Destroy => Outcome {
                actions: vec![Action::RemoveTrayIcons, Action::Quit],
                reply: done,
            },
            Message::Other => Outcome { actions: vec![], reply: Reply::Standard },
        }
    }

    /// Answers a report of the tray icon.
    pub fn tray_action(&mut self, action: TrayAction) -> (actions: Vec<Action>)
        ensures
            (final(self)@, actions@) == tray_answered(old(self)@, action),
    {
        match action {
            TrayAction::ToggleWidget => self.toggle_widget_visibility(),
            TrayAction::ShowContextMenu => vec![Action::ShowContextMenu],
            TrayAction::Ignore => vec![],
        }
    }
}

proof fn lemma_two_words(n: int, low: int, high: int)
    requires
        0 <= low < 0x10000,
        0 <= high < 0x10000,
        n % 0x1_0000_0000 == high * 0x10000 + low,
    ensures
        signed_word(n) == signed_word(low),
        signed_word(n / 0x10000) == signed_word(high),
{
    let q = n / 0x1_0000_0000;
    assert(n == 0x10000 * (0x10000 * q + high) + low);
    assert(n / 0x10000 == 0x10000 * q + high);
    assert(n % 0x10000 == low);
    assert((0x10000 * q + high) % 0x10000 == high);
}

proof fn lemma_sign_comes_back(w: i16)
    ensures
        signed_word(w as int % 0x10000) == w,
{
}

/// A point that the window is told of in two words, the vertical one above the
/// horizontal one, is read as it was meant, whatever its signs.
pub proof fn mouse_points_read_back(x: i16, y: i16, lparam: isize, wparam: usize, ids: ShellIds)
    requires
        lparam as int % 0x1_0000_0000 == (y as int % 0x10000) * 0x10000 + x as int % 0x10000,
        ids.usage_updated != WM_LBUTTONDOWN,
    ensures
        message_of(WM_LBUTTONDOWN, wparam, lparam, ids) == (Message::LeftButtonDown {
            x: x as i32,
            y: y as i32,
        }),
{
    lemma_two_words(lparam as int, x as int % 0x10000, y as int % 0x10000);
    lemma_sign_comes_back(x);
    lemma_sign_comes_back(y);
}

/// Only a new DPI, the end of a drag and a command change the program; every
/// other message leaves it as it is.
pub proof fn most_messages_change_nothing(a: AppView, message: Message)
    ensures
        message matches Message::DpiChanged { dpi } ==> answered(a, message).0.dpi == dpi
            && answered(a, message).0.state == a.state,
        !(message is DpiChanged || message is LeftButtonUp || message is Chosen) ==> answered(
            a,
            message,
        ).0 == a,
        message is LeftButtonUp ==> answered(a, message).0 == released(a).0,
        message matches Message::Chosen(command) ==> answered(a, message).0 == commanded(
            a,
            command,
        ).0 && answered(a, message).1 == commanded(a, command).1,
{
}

/// The messages that are none of the widget's are left to what any window
/// answers, as is the cursor while nothing is dragged; the background counts as
/// erased, and so does the cursor count as shown during a drag; all else is
/// answered with zero.
pub proof fn replies_tell_what_was_done(a: AppView, message: Message)
    ensures
        ({
            let reply = answered(a, message).2;
            let dragging = a.state is Some && a.state->0.dragging;
            &&& (reply == Reply::Standard) == (message == Message::Other || (message
                == Message::SetCursor && !dragging))
            &&& (reply == Reply::Value(1)) == (message == Message::EraseBackground || (message
                == Message::SetCursor && dragging))
            &&& reply == Reply::Standard || reply == Reply::Value(1) || reply == Reply::Value(0)
        }),
{
}

/// What is done for a message is what it calls for: each kind of work for just
/// those messages that ask for it. Commands have their own.
pub proof fn messages_lead_to_what_they_call_for(a: AppView, message: Message, x: i32, y: i32)
    requires
        !(message is Chosen),
    ensures
        ({
            let actions = answered(a, message).1;
            let dragging = a.state is Some && a.state->0.dragging;
            let paused = a.state is Some && a.state->0.auth_error_paused_polling;
            let display = message is DisplayChanged || message is DpiChanged
                || message is SettingChanged;
            let countdown = message == Message::Timer(Some(TimerId::Countdown));
            &&& actions.contains(Action::Paint) == (message is Paint)
            &&& actions.contains(Action::RefreshDpi) == display
            &&& actions.contains(Action::Position) == display
            &&& actions.contains(Action::Render) == (display || countdown
                || message is UsageUpdated)
            &&& actions.contains(Action::CheckTheme) == (message is SettingChanged
                || message is UsageUpdated)
            &&& actions.contains(Action::CheckLanguage) == (message is SettingChanged
                || message is UsageUpdated)
            &&& actions.contains(Action::PollTimer) == (message == Message::Timer(
                Some(TimerId::Poll),
            ))
            &&& actions.contains(Action::UpdateDisplay) == countdown
            &&& actions.contains(Action::ScheduleCountdown) == (countdown
                || message is UsageUpdated)
            &&& actions.contains(Action::StartPoll) == (message == Message::Timer(
                Some(TimerId::ResetPoll),
            ) && a.state is Some && !paused)
            &&& actions.contains(Action::BeginUpdateCheck { interactive: false }) == (message
                == Message::Timer(Some(TimerId::UpdateCheck)))
            &&& !actions.contains(Action::BeginUpdateCheck { interactive: true })
            &&& actions.contains(Action::SyncTrayIcons) == (message is UsageUpdated)
            &&& actions.contains(Action::ScheduleUpdateCheck) == (message is UpdateCheckComplete)
            &&& actions.contains(Action::ShowMoveCursor) == (message is SetCursor && dragging)
            &&& actions.contains(Action::PressAt { x, y }) == (message
                == Message::LeftButtonDown { x, y })
            &&& actions.contains(Action::DragToCursor) == (message is MouseMoved && dragging)
            &&& actions.contains(Action::ReleaseMouse) == (message is LeftButtonUp && dragging)
            &&& actions.contains(Action::ShowContextMenu) == (message is RightButtonUp)
            &&& actions.contains(Action::HandleTray) == (message is Tray)
            &&& actions.contains(Action::RemoveTrayIcons) == (message is Destroy)
            &&& actions.contains(Action::Quit) == (message is Destroy)
        }),
{
    let actions = answered(a, message).1;
    if actions.len() > 0 {
        assert(actions.contains(actions[0]));
    }
    if actions.len() > 1 {
        assert(actions.contains(actions[1]));
    }
    if actions.len() > 2 {
        assert(actions.contains(actions[2]));
    }
    if actions.len() > 3 {
        assert(actions.contains(actions[3]));
    }
    if actions.len() > 4 {
        assert(actions.contains(actions[4]));
    }
}

/// A display that has changed is asked for its DPI before the window is placed,
/// and the window is placed before it is painted; texts are written before they
/// are painted.
pub proof fn work_is_done_in_order(a: AppView, dpi: u32)
    ensures
        ({
            let display = seq![Action::RefreshDpi, Action::Position, Action::Render];
            let setting = answered(a, Message::SettingChanged).1;
            &&& answered(a, Message::DisplayChanged).1 == display
            &&& answered(a, Message::DpiChanged { dpi }).1 == display
            &&& setting.len() == 5 && setting.skip(2) == display
            &&& answered(a, Message::Timer(Some(TimerId::Countdown))).1 == seq![
                Action::UpdateDisplay,
                Action::Render,
                Action::ScheduleCountdown,
            ]
        }),
{
}

/// A report of the tray icon shows the widget or puts it away, shows the menu, or
/// does nothing.
pub proof fn the_tray_icon_is_obeyed(a: AppView)
    ensures
        tray_answered(a, TrayAction::ToggleWidget) == visibility_toggled(a),
        tray_answered(a, TrayAction::ShowContextMenu) == (a, seq![Action::ShowContextMenu]),
        tray_answered(a, TrayAction::Ignore).0 == a,
        tray_answered(a, TrayAction::Ignore).1.len() == 0,
{
}

/// The shell's numbers are its own: no two messages and no two timers share one,
/// and no message has one of the system's or of an update.
pub open spec fn ids_are_distinct(ids: ShellIds) -> bool {
    &&& ids.usage_updated >= 0x8000 && ids.tray >= 0x8000
    &&& ids.usage_updated != ids.tray
    &&& ids.usage_updated != 0x8002 && ids.tray != 0x8002
    &&& ids.timer_poll != ids.timer_countdown && ids.timer_poll != ids.timer_reset_poll
    &&& ids.timer_poll != ids.timer_update_check && ids.timer_countdown != ids.timer_reset_poll
    &&& ids.timer_countdown != ids.timer_update_check && ids.timer_reset_poll
        != ids.timer_update_check
}

/// Each number is read as its message. Of the parameter that tells the DPI or the
/// command only the low word counts.
pub proof fn numbers_are_read_as_their_messages(
    wparam: usize,
    lparam: isize,
    high: usize,
    low: u16,
    ids: ShellIds,
)
    requires
        ids_are_distinct(ids),
        wparam == high * 0x10000 + low,
    ensures
        message_of(0x000F, wparam, lparam, ids) == Message::Paint,
        message_of(0x0014, wparam, lparam, ids) == Message::EraseBackground,
        message_of(0x007E, wparam, lparam, ids) == Message::DisplayChanged,
        message_of(0x02E0, wparam, lparam, ids) == (Message::DpiChanged { dpi: low as u32 }),
        message_of(0x001A, wparam, lparam, ids) == Message::SettingChanged,
        message_of(0x0020, wparam, lparam, ids) == Message::SetCursor,
        message_of(0x0200, wparam, lparam, ids) == Message::MouseMoved,
        message_of(0x0202, wparam, lparam, ids) == Message::LeftButtonUp,
        message_of(0x0205, wparam, lparam, ids) == Message::RightButtonUp,
        message_of(0x0111, wparam, lparam, ids) == Message::Chosen(
            command_of(low, ids.toggle_widget),
        ),
        message_of(0x0002, wparam, lparam, ids) == Message::Destroy,
        message_of(0x8002, wparam, lparam, ids) == Message::UpdateCheckComplete,
        message_of(ids.usage_updated, wparam, lparam, ids) == Message::UsageUpdated,
        message_of(ids.tray, wparam, lparam, ids) == Message::Tray,
        message_of(0x0113, ids.timer_poll, lparam, ids) == Message::Timer(Some(TimerId::Poll)),
        message_of(0x0113, ids.timer_countdown, lparam, ids) == Message::Timer(
            Some(TimerId::Countdown),
        ),
        message_of(0x0113, ids.timer_reset_poll, lparam, ids) == Message::Timer(
            Some(TimerId::ResetPoll),
        ),
        message_of(0x0113, ids.timer_update_check, lparam, ids) == Message::Timer(
            Some(TimerId::UpdateCheck),
        ),
{
    assert(wparam % 0x10000 == low);
}

} // verus!
