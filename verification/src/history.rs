//! What holds of the state at every moment of a run.
use vstd::prelude::*;

use crate::command::{shows_a_model, state_commanded, Command};
use crate::geometry::{default_x, default_y, Point, Screen};
use crate::launch::WindowPlace;
use crate::locale::{Catalog, LanguageId};
use crate::message::{answered, tray_answered, Message, TrayAction};
use crate::poll::{after_answer, after_failure, credentials_compared, PollError};
use crate::settings::{loaded, SettingsView};
use crate::state::{
    initial_state, refreshed, settings_of, state_height, state_width, with_state, AppStateView,
    AppUsageData, AppView, CredentialWatchMode, LinesView, UpdateStatusView,
};
use crate::update::{after_check, is_busy, with_status};
use crate::updater::{ReleaseView, UpdateCheckView};
use crate::window::{
    app_start, dpi_refreshed, drag_begun, dragged, in_language, placed, positioned, pressed,
    released, topmost_toggled, visibility_toggled,
};

verus! {

/// An operation on the window.
pub enum WindowStep {
    /// `App::toggle_widget_visibility`
    ToggleWidget,
    /// `App::toggle_always_on_top`
    ToggleTopmost,
    /// `App::position_floating_window`
    Position { dpi: u32, screen: Screen },
    /// `App::reset_position`
    ResetPosition { screen: Screen },
    /// `App::press_at`
    Press { x: i32, y: i32, client_width: i32 },
    /// `App::begin_drag`
    BeginDrag { cursor: Point },
    /// `App::drag_to`
    Drag { cursor: Point, screen: Screen },
    /// `App::release`
    Release,
}

/// An operation on how things look.
pub enum LookStep {
    /// `App::check_theme_change`
    Theme { dark: bool },
    /// `App::apply_language`, and `App::update_language_change` where it takes
    /// up a language
    Language {
        language_override: Option<LanguageId>,
        language: LanguageId,
        lines: LinesView,
    },
    /// `App::update_display`
    Display { lines: LinesView },
}

/// An operation on the usage data.
pub enum PollStep {
    /// `App::poll_succeeded`
    Answer { data: AppUsageData, lines: LinesView },
    /// `App::poll_failed`
    Failure { error: PollError, snapshot: Seq<Seq<char>> },
    /// `App::credentials_seen`
    Credentials {
        mode: CredentialWatchMode,
        previous: Seq<Seq<char>>,
        current: Seq<Seq<char>>,
    },
}

/// An operation on updates.
pub enum UpdateStep {
    /// `App::begin_update_check`
    BeginCheck,
    /// `App::update_check_finished`
    EndCheck { checked_at: u64, result: Result<UpdateCheckView, Seq<char>> },
    /// `App::begin_update_apply`
    BeginApply,
    /// `App::update_apply_finished`, with a failure
    FailApply { release: ReleaseView },
}

/// One operation on the program, with what it is told from outside.
pub enum Step {
    /// `App::set_system_dpi`
    SystemDpi { dpi: u32 },
    /// `App::start`, with the settings that were loaded from the file
    Start {
        file: Option<SettingsView>,
        is_dark: bool,
        language_override: Option<LanguageId>,
        language: LanguageId,
        place: WindowPlace,
    },
    /// `App::refresh_dpi` or `App::render_layered`
    WindowDpi { dpi: u32 },
    /// `App::wnd_proc`
    Message(Message),
    /// `App::tray_action`
    Tray(TrayAction),
    Window(WindowStep),
    Look(LookStep),
    Poll(PollStep),
    Update(UpdateStep),
}

/// The program after an operation on the window.
pub open spec fn window_stepped(a: AppView, step: WindowStep) -> AppView {
    match (step, a.state) {
        (WindowStep::ToggleWidget, _) => visibility_toggled(a).0,
        (WindowStep::ToggleTopmost, _) => topmost_toggled(a).0,
        (WindowStep::Position { dpi, screen }, _) => positioned(a, dpi, screen).0,
        (WindowStep::Press { x, y, client_width }, _) => pressed(
            a,
            x as int,
            y as int,
            client_width as int,
        ).0,
        (WindowStep::Drag { cursor, screen }, _) => dragged(a, cursor, screen).0,
        (WindowStep::Release, _) => released(a).0,
        (WindowStep::ResetPosition { screen }, Some(s)) => with_state(
            a,
            placed(
                s,
                default_x(state_width(s, a.dpi), screen, a.dpi as int),
                default_y(state_height(s, a.dpi), screen, a.dpi as int),
            ),
        ),
        (WindowStep::BeginDrag { cursor }, Some(s)) => with_state(a, drag_begun(s, cursor)),
        (_, None) => a,
    }
}

/// The program after an operation on how things look.
pub open spec fn look_stepped(a: AppView, step: LookStep) -> AppView {
    match a.state {
        Some(s) => with_state(
            a,
            match step {
                LookStep::Theme { dark } => AppStateView { is_dark: dark, ..s },
                LookStep::Language { language_override, language, lines } => in_language(
                    s,
                    language_override,
                    language,
                    lines,
                ),
                LookStep::Display { lines } => refreshed(s, lines),
            },
        ),
        None => a,
    }
}

/// The program after an operation on the usage data.
pub open spec fn poll_stepped(a: AppView, step: PollStep) -> AppView {
    match (step, a.state) {
        (PollStep::Credentials { mode, previous, current }, _) => credentials_compared(
            a,
            mode,
            previous,
            current,
        ).0,
        (PollStep::Answer { data, lines }, Some(s)) => with_state(
            a,
            after_answer(s, data, lines),
        ),
        (PollStep::Failure { error, snapshot }, Some(s)) => with_state(
            a,
            after_failure(s, error, snapshot),
        ),
        (_, None) => a,
    }
}

/// The program after an operation on updates. None begins while another is
/// going on.
pub open spec fn update_stepped(a: AppView, step: UpdateStep) -> AppView {
    match a.state {
        Some(s) => with_state(
            a,
            match step {
                UpdateStep::BeginCheck => if is_busy(s.update_status) {
                    s
                } else {
                    with_status(s, UpdateStatusView::Checking)
                },
                UpdateStep::EndCheck { checked_at, result } => after_check(s, checked_at, result),
                UpdateStep::BeginApply => if is_busy(s.update_status) {
                    s
                } else {
                    with_status(s, UpdateStatusView::Applying)
                },
                UpdateStep::FailApply { release } => with_status(
                    s,
                    UpdateStatusView::Available(release),
                ),
            },
        ),
        None => a,
    }
}

/// The program after an operation. Operations other than these leave it as it
/// is.
pub open spec fn stepped(a: AppView, step: Step) -> AppView {
    match step {
        Step::SystemDpi { dpi } => AppView { dpi, ..a },
        Step::Start { file, is_dark, language_override, language, place } => with_state(
            a,
            initial_state(loaded(file), is_dark, language_override, language, place.x, place.y),
        ),
        Step::WindowDpi { dpi } => dpi_refreshed(a, dpi),
        Step::Message(message) => answered(a, message).0,
        Step::Tray(action) => tray_answered(a, action).0,
        Step::Window(w) => window_stepped(a, w),
        Step::Look(l) => look_stepped(a, l),
        Step::Poll(p) => poll_stepped(a, p),
        Step::Update(u) => update_stepped(a, u),
    }
}

/// The program after a run of operations.
pub open spec fn after_steps(steps: Seq<Step>) -> AppView
    decreases steps.len(),
{
    if steps.len() == 0 {
        app_start()
    } else {
        stepped(after_steps(steps.drop_last()), steps.last())
    }
}

/// What holds of every state: a model is shown; after an answer there is data
/// and nothing is left of failures; polling pauses only after a failure, and
/// credentials are watched only while it does.
pub open spec fn is_sound(s: AppStateView) -> bool {
    &&& shows_a_model(s)
    &&& s.last_poll_ok ==> s.data is Some && s.retry_count == 0 && !s.auth_error_paused_polling
    &&& s.auth_error_paused_polling ==> s.retry_count > 0
    &&& !s.auth_error_paused_polling ==> s.auth_watch_mode == CredentialWatchMode::ActiveSource
        && s.auth_watch_snapshot.len() == 0
}

/// The state, if there is one, is sound.
pub open spec fn app_is_sound(a: AppView) -> bool {
    a.state matches Some(s) ==> is_sound(s)
}

proof fn lemma_commands(s: AppStateView, command: Command)
    requires
        is_sound(s),
    ensures
        is_sound(state_commanded(s, command)),
{
}

proof fn lemma_messages(a: AppView, message: Message)
    requires
        app_is_sound(a),
    ensures
        app_is_sound(answered(a, message).0),
{
    match message {
        Message::Chosen(command) => if a.state is Some {
            lemma_commands(a.state->0, command);
        },
        Message::LeftButtonUp => {},
        Message::DpiChanged { .. } => {},
        _ => {
            assert(answered(a, message).0 == a);
        },
    }
}

proof fn lemma_window_steps(a: AppView, step: WindowStep)
    requires
        app_is_sound(a),
    ensures
        app_is_sound(window_stepped(a, step)),
{
}

proof fn lemma_look_steps(a: AppView, step: LookStep)
    requires
        app_is_sound(a),
    ensures
        app_is_sound(look_stepped(a, step)),
{
}

proof fn lemma_poll_steps(a: AppView, step: PollStep)
    requires
        app_is_sound(a),
    ensures
        app_is_sound(poll_stepped(a, step)),
{
}

proof fn lemma_update_steps(a: AppView, step: UpdateStep)
    requires
        app_is_sound(a),
    ensures
        app_is_sound(update_stepped(a, step)),
{
}

/// Every operation leaves a sound state sound.
pub proof fn steps_keep_the_state_sound(a: AppView, step: Step)
    requires
        app_is_sound(a),
    ensures
        app_is_sound(stepped(a, step)),
{
    match step {
        Step::Message(message) => {
            lemma_messages(a, message);
        },
        Step::Window(w) => {
            lemma_window_steps(a, w);
        },
        Step::Look(l) => {
            lemma_look_steps(a, l);
        },
        Step::Poll(p) => {
            lemma_poll_steps(a, p);
        },
        Step::Update(u) => {
            lemma_update_steps(a, u);
        },
        _ => {},
    }
}

/// At every moment of a run, whatever happens in it, the state is sound.
pub proof fn every_run_is_sound(steps: Seq<Step>)
    ensures
        app_is_sound(after_steps(steps)),
    decreases steps.len(),
{
    if steps.len() > 0 {
        every_run_is_sound(steps.drop_last());
        steps_keep_the_state_sound(after_steps(steps.drop_last()), steps.last());
    }
}

/// The state has this update status.
pub open spec fn has_status(a: AppView, status: UpdateStatusView) -> bool {
    a.state matches Some(s) && s.update_status == status
}

proof fn lemma_messages_keep_status(a: AppView, message: Message, status: UpdateStatusView)
    requires
        has_status(a, status),
    ensures
        has_status(answered(a, message).0, status),
{
    match message {
        Message::Chosen(command) => {
            let s = a.state->0;
            assert(state_commanded(s, command).update_status == s.update_status);
        },
        Message::LeftButtonUp => {},
        Message::DpiChanged { .. } => {},
        _ => {
            assert(answered(a, message).0 == a);
        },
    }
}

proof fn lemma_window_steps_keep_status(a: AppView, step: WindowStep, status: UpdateStatusView)
    requires
        has_status(a, status),
    ensures
        has_status(window_stepped(a, step), status),
{
}

proof fn lemma_other_steps_keep_status(
    a: AppView,
    look: LookStep,
    poll: PollStep,
    status: UpdateStatusView,
)
    requires
        has_status(a, status),
    ensures
        has_status(look_stepped(a, look), status),
        has_status(poll_stepped(a, poll), status),
{
}

/// Once work on updates has begun, it goes on through everything that happens
/// until its own end: no message, no poll and no second request stops it or
/// begins it anew.
pub proof fn only_its_end_ends_update_work(a: AppView, step: Step, status: UpdateStatusView)
    requires
        has_status(a, status),
        is_busy(status),
        !(step is Start),
        !(step matches Step::Update(u) && (u is EndCheck || u is FailApply)),
    ensures
        has_status(stepped(a, step), status),
{
    match step {
        Step::Message(message) => {
            lemma_messages_keep_status(a, message, status);
        },
        Step::Window(w) => {
            lemma_window_steps_keep_status(a, w, status);
        },
        Step::Look(l) => {
            lemma_other_steps_keep_status(a, l, arbitrary(), status);
        },
        Step::Poll(p) => {
            lemma_other_steps_keep_status(a, arbitrary(), p, status);
        },
        _ => {},
    }
}

/// Polling, whatever comes of it, changes nothing that is stored as a setting.
pub proof fn polling_changes_no_setting(a: AppView, step: PollStep, catalog: Catalog)
    requires
        a.state is Some,
    ensures
        poll_stepped(a, step).state matches Some(s) && settings_of(s, catalog) == settings_of(
            a.state->0,
            catalog,
        ),
{
}

} // verus!
