//! Looking for updates and installing them, as the user sees it: when it is
//! done, what is said, and what state it leaves.
use vstd::prelude::*;

use crate::action::{Action, TimerId};
use crate::locale::{Catalog, Strings};
use crate::state::{
    same_choices, same_drag, same_percentages, same_place, same_polling, same_texts, with_state,
    App, AppState, AppStateView, AppView, UpdateStatus, UpdateStatusView,
};
use crate::text::{replace, replaced};
use crate::updater::{ReleaseDescriptor, ReleaseView, UpdateCheckResult, UpdateCheckView};
use crate::version::{display_version, shown_version};

verus! {

/// The time between two looks for an update that nobody asked for, in seconds.
pub const UPDATE_CHECK_INTERVAL_SECS: u64 = 24 * 60 * 60;

/// What the prompt has in the place of the version.
pub const VERSION_MARK: &'static str = "{version}";

/// A dialog to show.
pub enum Dialog {
    Nothing,
    Info { title: String, body: String },
    Error { title: String, body: String },
    /// Ask whether to install a release: if so, `App::begin_update_apply`.
    Prompt { title: String, body: String, release: ReleaseDescriptor },
}

/// What a [`Dialog`] says.
pub enum DialogView {
    Nothing,
    Info { title: Seq<char>, body: Seq<char> },
    Error { title: Seq<char>, body: Seq<char> },
    Prompt { title: Seq<char>, body: Seq<char>, release: ReleaseView },
}

impl View for Dialog {
    type V = DialogView;

    open spec fn view(&self) -> DialogView {
        match self {
            Dialog::Nothing => DialogView::Nothing,
            Dialog::Info { title, body } => DialogView::Info { title: title@, body: body@ },
            Dialog::Error { title, body } => DialogView::Error { title: title@, body: body@ },
            Dialog::Prompt { title, body, release } => DialogView::Prompt {
                title: title@,
                body: body@,
                release: release@,
            },
        }
    }
}

/// Whether work on updates begins.
pub enum UpdateStart {
    /// There is no window yet.
    Ignored,
    /// Some is going on; the dialog that says so, if any.
    Busy(Dialog),
    /// It begins; the texts for what will be said at its end.
    Started(Strings),
}

/// What the work on updates leads to, with the dialog that `Action::ShowDialog`
/// shows.
pub struct UpdateEnd {
    pub actions: Vec<Action>,
    pub dialog: Dialog,
}

/// What a click on the version leads to.
pub enum VersionAction {
    /// Install this: `App::begin_update_apply`.
    Apply(ReleaseDescriptor),
    /// Look for an update: `App::begin_update_check`.
    Check,
}

/// Work on updates is going on.
pub open spec fn is_busy(status: UpdateStatusView) -> bool {
    status == UpdateStatusView::Checking || status == UpdateStatusView::Applying
}

/// The state with another update status.
pub open spec fn with_status(s: AppStateView, status: UpdateStatusView) -> AppStateView {
    AppStateView { update_status: status, ..s }
}

/// The dialog that says that work on updates is going on.
pub open spec fn in_progress_dialog(strings: Strings) -> DialogView {
    DialogView::Info { title: strings.updates@, body: strings.update_in_progress@ }
}

/// The body of the dialog that reports a failure.
pub open spec fn failure_body(strings: Strings, error: Seq<char>) -> Seq<char> {
    strings.update_failed@ + ".\n\n"@ + error
}

/// The views of how an update check ended.
pub open spec fn check_view(result: Result<UpdateCheckResult, String>) -> Result<
    UpdateCheckView,
    Seq<char>,
> {
    match result {
        Ok(r) => Ok(r@),
        Err(e) => Err(e@),
    }
}

/// The update status after a check.
pub open spec fn checked_status(result: Result<UpdateCheckView, Seq<char>>) -> UpdateStatusView {
    match result {
        Ok(UpdateCheckView::UpToDate) => UpdateStatusView::UpToDate,
        Ok(UpdateCheckView::Available(release)) => UpdateStatusView::Available(release),
        Err(_) => UpdateStatusView::Idle,
    }
}

/// The dialog after a check that the user asked for.
pub open spec fn checked_dialog(
    result: Result<UpdateCheckView, Seq<char>>,
    strings: Strings,
) -> DialogView {
    match result {
        Ok(UpdateCheckView::UpToDate) => DialogView::Info {
            title: strings.updates@,
            body: strings.up_to_date@,
        },
        Ok(UpdateCheckView::Available(release)) => DialogView::Prompt {
            title: strings.update_available@,
            body: replaced(strings.update_prompt_now@, VERSION_MARK@, release.latest_version),
            release,
        },
        Err(e) => DialogView::Error { title: strings.updates@, body: failure_body(strings, e) },
    }
}

/// The state after a check.
pub open spec fn after_check(
    s: AppStateView,
    checked_at: u64,
    result: Result<UpdateCheckView, Seq<char>>,
) -> AppStateView {
    AppStateView {
        last_update_check_unix: Some(checked_at),
        ..with_status(s, checked_status(result))
    }
}

/// What is to be done after a check.
pub open spec fn check_end_actions(interactive: bool) -> Seq<Action> {
    if interactive {
        seq![Action::SaveSettings, Action::ShowDialog, Action::PostUpdateCheckComplete]
    } else {
        seq![Action::SaveSettings, Action::PostUpdateCheckComplete]
    }
}

/// A look for an update that nobody asked for is due at `now`, the last one
/// having been at `last`.
pub open spec fn is_due(last: Option<u64>, now: u64) -> bool {
    match last {
        Some(t) => now - t >= UPDATE_CHECK_INTERVAL_SECS,
        None => true,
    }
}

/// The time, in milliseconds, after which a look for an update is due.
pub open spec fn due_in_ms(last: u64, now: u64) -> int {
    let elapsed = if now >= last {
        now - last
    } else {
        0
    };
    if elapsed >= UPDATE_CHECK_INTERVAL_SECS {
        0
    } else {
        (UPDATE_CHECK_INTERVAL_SECS - elapsed) * 1000
    }
}

/// What is to be done to look for an update in time. `now` and `later` are the
/// times at which it is seen whether a look is due and, if not, when it will be.
pub open spec fn schedule_actions(a: AppView, now: u64, later: u64) -> Seq<Action> {
    match a.state {
        Some(s) => match s.last_update_check_unix {
            Some(last) if !is_due(Some(last), now) => seq![
                Action::KillTimer { timer: TimerId::UpdateCheck },
                Action::SetTimer {
                    timer: TimerId::UpdateCheck,
                    ms: if due_in_ms(last, later) >= 1 {
                        due_in_ms(last, later) as u32
                    } else {
                        1
                    },
                },
            ],
            _ => seq![Action::KillTimer { timer: TimerId::UpdateCheck }],
        },
        None => seq![],
    }
}

/// The menu's text about the version.
pub open spec fn version_label(
    strings: Strings,
    status: UpdateStatusView,
    version: Seq<char>,
) -> Seq<char> {
    "v"@ + shown_version(version) + " - "@ + match status {
        UpdateStatusView::Idle => strings.check_for_updates@,
        UpdateStatusView::Checking => strings.checking_for_updates@,
        UpdateStatusView::Applying => strings.applying_update@,
        UpdateStatusView::UpToDate => strings.up_to_date_short@,
        UpdateStatusView::Available(release) => strings.update_to@ + " v"@ + release.latest_version,
    }
}

/// Tells whether work on updates is going on.
pub fn busy(status: &UpdateStatus) -> (yes: bool)
    ensures
        yes == is_busy(status@),
{
    match status {
        UpdateStatus::Checking => true,
        UpdateStatus::Applying => true,
        _ => false,
    }
}

/// Tells whether a look for an update is due.
pub fn auto_update_check_due(last_update_check_unix: Option<u64>, now: u64) -> (due: bool)
    ensures
        due == is_due(last_update_check_unix, now),
{
    match last_update_check_unix {
        Some(last) => now.saturating_sub(last) >= UPDATE_CHECK_INTERVAL_SECS,
        None => true,
    }
}

/// The menu's text about the version.
pub fn version_action_label(strings: &Strings, status: &UpdateStatus, version: &str) -> (label:
    String)
    ensures
        label@ == version_label(*strings, status@, version@),
{
    let opening: String = "v".to_string().concat(display_version(version).as_str()).concat(" - ");
    match status {
        UpdateStatus::Idle => opening.concat(strings.check_for_updates),
        UpdateStatus::Checking => opening.concat(strings.checking_for_updates),
        UpdateStatus::Applying => opening.concat(strings.applying_update),
        UpdateStatus::UpToDate => opening.concat(strings.up_to_date_short),
        UpdateStatus::Available(release) => {
            let offer: String = strings.update_to.to_string().concat(" v").concat(
                release.latest_version.as_str(),
            );
            opening.concat(offer.as_str())
        },
    }
}

fn in_progress(strings: &Strings) -> (dialog: Dialog)
    ensures
        dialog@ == in_progress_dialog(*strings),
{
    Dialog::Info {
        title: strings.updates.to_string(),
        body: strings.update_in_progress.to_string(),
    }
}

fn failure_dialog(strings: &Strings, error: &str) -> (dialog: Dialog)
    ensures
        dialog@ == (DialogView::Error {
            title: strings.updates@,
            body: failure_body(*strings, error@),
        }),
{
    Dialog::Error {
        title: strings.updates.to_string(),
        body: strings.update_failed.to_string().concat(".\n\n").concat(error),
    }
}

/// The question whether to install a release.
pub fn update_prompt(strings: &Strings, release: &ReleaseDescriptor) -> (dialog: Dialog)
    ensures
        dialog@ == checked_dialog(Ok(UpdateCheckView::Available(release@)), *strings),
{
    proof {
        reveal_strlit("{version}");
    }
    Dialog::Prompt {
        title: strings.update_available.to_string(),
        body: replace(
            strings.update_prompt_now,
            VERSION_MARK,
            release.latest_version.as_str(),
        ),
        release: release.clone(),
    }
}

impl App {
    /// Sets the update status and the time of the last check.
    fn note_check(&mut self, status: UpdateStatus, checked_at: u64)
        ensures
            match old(self)@.state {
                Some(s) => final(self)@ == with_state(
                    old(self)@,
                    AppStateView {
                        last_update_check_unix: Some(checked_at),
                        ..with_status(s, status@)
                    },
                ),
                None => final(self)@ == old(self)@,
            },
    {
        match &mut self.state {
            Some(s) => {
                s.update_status = status;
                s.last_update_check_unix = Some(checked_at);
            },
            None => {},
        }
    }

    /// Begins to look for an update, unless work on updates is going on. The
    /// user hears of that only if `interactive`.
    pub fn begin_update_check(&mut self, interactive: bool, catalog: &Catalog) -> (start:
        UpdateStart)
        ensures
            match old(self)@.state {
                Some(s) => if is_busy(s.update_status) {
                    &&& final(self)@ == old(self)@
                    &&& start matches UpdateStart::Busy(dialog)
                    &&& dialog@ == if interactive {
                        in_progress_dialog(catalog.entry(s.language).strings)
                    } else {
                        DialogView::Nothing
                    }
                } else {
                    &&& final(self)@ == with_state(
                        old(self)@,
                        with_status(s, UpdateStatusView::Checking),
                    )
                    &&& start matches UpdateStart::Started(strings)
                    &&& strings == catalog.entry(s.language).strings
                },
                None => final(self)@ == old(self)@ && start == UpdateStart::Ignored,
            },
    {
        match &mut self.state {
            Some(s) => {
                let strings: Strings = catalog.strings(s.language);
                if busy(&s.update_status) {
                    if interactive {
                        UpdateStart::Busy(in_progress(&strings))
                    } else {
                        UpdateStart::Busy(Dialog::Nothing)
                    }
                } else {
                    s.update_status = UpdateStatus::Checking;
                    UpdateStart::Started(strings)
                }
            },
            None => UpdateStart::Ignored,
        }
    }

    /// Takes the end of a look for an update that was begun with `strings`. The
    /// user hears of it only if `interactive`.
    pub fn update_check_finished(
        &mut self,
        checked_at: u64,
        result: Result<UpdateCheckResult, String>,
        interactive: bool,
        strings: &Strings,
    ) -> (end: UpdateEnd)
        ensures
            match old(self)@.state {
                Some(s) => final(self)@ == with_state(
                    old(self)@,
                    after_check(s, checked_at, check_view(result)),
                ),
                None => final(self)@ == old(self)@,
            },
            end.actions@ == check_end_actions(interactive),
            end.dialog@ == if interactive {
                checked_dialog(check_view(result), *strings)
            } else {
                DialogView::Nothing
            },
    {
        let dialog: Dialog = match result {
            Ok(UpdateCheckResult::UpToDate) => {
                self.note_check(UpdateStatus::UpToDate, checked_at);
                Dialog::Info {
                    title: strings.updates.to_string(),
                    body: strings.up_to_date.to_string(),
                }
            },
            Ok(UpdateCheckResult::Available(release)) => {
                let prompt: Dialog = update_prompt(strings, &release);
                self.note_check(UpdateStatus::Available(release), checked_at);
                prompt
            },
            Err(error) => {
                self.note_check(UpdateStatus::Idle, checked_at);
                failure_dialog(strings, error.as_str())
            },
        };
        if interactive {
            UpdateEnd {
                actions: vec![
                    Action::SaveSettings,
                    Action::ShowDialog,
                    Action::PostUpdateCheckComplete,
                ],
                dialog,
            }
        } else {
            UpdateEnd {
                actions: vec![Action::SaveSettings, Action::PostUpdateCheckComplete],
                dialog: Dialog::Nothing,
            }
        }
    }

    /// Begins to install an update, unless work on updates is going on.
    pub fn begin_update_apply(&mut self, catalog: &Catalog) -> (start: UpdateStart)
        ensures
            match old(self)@.state {
                Some(s) => if is_busy(s.update_status) {
                    &&& final(self)@ == old(self)@
                    &&& start matches UpdateStart::Busy(dialog)
                    &&& dialog@ == in_progress_dialog(catalog.entry(s.language).strings)
                } else {
                    &&& final(self)@ == with_state(
                        old(self)@,
                        with_status(s, UpdateStatusView::Applying),
                    )
                    &&& start matches UpdateStart::Started(strings)
                    &&& strings == catalog.entry(s.language).strings
                },
                None => final(self)@ == old(self)@ && start == UpdateStart::Ignored,
            },
    {
        match &mut self.state {
            Some(s) => {
                let strings: Strings = catalog.strings(s.language);
                if busy(&s.update_status) {
                    UpdateStart::Busy(in_progress(&strings))
                } else {
                    s.update_status = UpdateStatus::Applying;
                    UpdateStart::Started(strings)
                }
            },
            None => UpdateStart::Ignored,
        }
    }

    /// Takes the end of staging an update that was begun with `strings`: the
    /// program closes for the helper, or the failure is reported and the
    /// release can be tried again.
    pub fn update_apply_finished(
        &mut self,
        release: ReleaseDescriptor,
        result: Result<(), String>,
        strings: &Strings,
    ) -> (end: UpdateEnd)
        ensures
            match result {
                Ok(_) => {
                    &&& final(self)@ == old(self)@
                    &&& end.actions@ == seq![Action::PostClose]
                    &&& end.dialog@ == DialogView::Nothing
                },
                Err(error) => {
                    &&& match old(self)@.state {
                        Some(s) => final(self)@ == with_state(
                            old(self)@,
                            with_status(s, UpdateStatusView::Available(release@)),
                        ),
                        None => final(self)@ == old(self)@,
                    }
                    &&& end.actions@ == seq![Action::ShowDialog, Action::PostUpdateCheckComplete]
                    &&& end.dialog@ == (DialogView::Error {
                        title: strings.updates@,
                        body: failure_body(*strings, error@),
                    })
                },
            },
    {
        match result {
            Ok(_) => UpdateEnd { actions: vec![Action::PostClose], dialog: Dialog::Nothing },
            Err(error) => {
                match &mut self.state {
                    Some(s) => {
                        s.update_status = UpdateStatus::Available(release);
                    },
                    None => {},
                }
                UpdateEnd {
                    actions: vec![Action::ShowDialog, Action::PostUpdateCheckComplete],
                    dialog: failure_dialog(strings, error.as_str()),
                }
            },
        }
    }

    /// Says what a click on the version leads to: installing the release that
    /// was found, or looking for one.
    pub fn version_action(&self) -> (action: VersionAction)
        ensures
            match self@.state {
                Some(AppStateView {
                    update_status: UpdateStatusView::Available(found),
                    ..
                }) => action matches VersionAction::Apply(release) && release@ == found,
                _ => action == VersionAction::Check,
            },
    {
        match &self.state {
            Some(s) => match &s.update_status {
                UpdateStatus::Available(release) => VersionAction::Apply(release.clone()),
                _ => VersionAction::Check,
            },
            None => VersionAction::Check,
        }
    }

    /// Tells whether a look for an update is due.
    pub fn update_check_is_due(&self, now: u64) -> (due: bool)
        ensures
            due == match self@.state {
                Some(s) => is_due(s.last_update_check_unix, now),
                None => false,
            },
    {
        match &self.state {
            Some(s) => auto_update_check_due(s.last_update_check_unix, now),
            None => false,
        }
    }

    /// Sees to it that an update is looked for in time.
    pub fn schedule_auto_update_check(&self, now: u64, later: u64) -> (actions: Vec<Action>)
        ensures
            actions@ == schedule_actions(self@, now, later),
    {
        let s: &AppState = match &self.state {
            Some(s) => s,
            None => return vec![],
        };
        let last: u64 = match s.last_update_check_unix {
            Some(last) => last,
            None => return vec![Action::KillTimer { timer: TimerId::UpdateCheck }],
        };
        if auto_update_check_due(Some(last), now) {
            return vec![Action::KillTimer { timer: TimerId::UpdateCheck }];
        }
        let elapsed: u64 = later.saturating_sub(last);
        let remaining: u64 = UPDATE_CHECK_INTERVAL_SECS.saturating_sub(elapsed);
        let delay_ms: u32 = (remaining * 1000) as u32;
        let ms: u32 = if delay_ms >= 1 {
            delay_ms
        } else {
            1
        };
        vec![
            Action::KillTimer { timer: TimerId::UpdateCheck },
            Action::SetTimer { timer: TimerId::UpdateCheck, ms },
        ]
    }
}

/// After a look for an update, however it ended, the next one that nobody asks
/// for is due a day later and no sooner.
pub proof fn checks_are_a_day_apart(
    s: AppStateView,
    checked_at: u64,
    result: Result<UpdateCheckView, Seq<char>>,
    now: u64,
)
    ensures
        is_due(after_check(s, checked_at, result).last_update_check_unix, now) == (now >= checked_at
            + UPDATE_CHECK_INTERVAL_SECS),
{
}

/// The timer fires when the look for an update is due, and not before: so many
/// milliseconds from `now` it is due, and a second before that it is not.
pub proof fn timer_fires_when_due(last: u64, now: u64)
    requires
        last <= now,
        now + UPDATE_CHECK_INTERVAL_SECS <= u64::MAX,
        !is_due(Some(last), now),
    ensures
        1 <= due_in_ms(last, now) <= u32::MAX,
        is_due(Some(last), (now + due_in_ms(last, now) / 1000) as u64),
        !is_due(Some(last), (now + due_in_ms(last, now) / 1000 - 1) as u64),
{
}

/// Once a look for an update is over, nothing is going on any more.
pub proof fn finished_checks_are_not_busy(
    s: AppStateView,
    checked_at: u64,
    result: Result<UpdateCheckView, Seq<char>>,
)
    ensures
        !is_busy(after_check(s, checked_at, result).update_status),
{
}

/// A look for an update leaves the status that tells what it found: the very
/// release, that there is none, or nothing where it failed. Its time is kept, and
/// nothing else changes.
pub proof fn checks_leave_what_they_found(
    s: AppStateView,
    checked_at: u64,
    result: Result<UpdateCheckView, Seq<char>>,
)
    ensures
        ({
            let t = after_check(s, checked_at, result);
            &&& t.last_update_check_unix == Some(checked_at)
            &&& result matches Ok(UpdateCheckView::Available(found)) ==> t.update_status
                == UpdateStatusView::Available(found)
            &&& result == Ok::<UpdateCheckView, Seq<char>>(UpdateCheckView::UpToDate)
                ==> t.update_status == UpdateStatusView::UpToDate
            &&& result is Err ==> t.update_status == UpdateStatusView::Idle
            &&& same_choices(s, t)
            &&& same_percentages(s, t)
            &&& same_texts(s, t)
            &&& same_polling(s, t)
            &&& same_place(s, t)
            &&& same_drag(s, t)
        }),
{
}

/// Beginning work on updates, or going back to a release that was found, changes
/// the update status alone.
pub proof fn update_work_changes_the_status_alone(s: AppStateView, status: UpdateStatusView)
    ensures
        with_status(s, status).update_status == status,
        with_status(s, status).last_update_check_unix == s.last_update_check_unix,
        same_choices(s, with_status(s, status)),
        same_percentages(s, with_status(s, status)),
        same_texts(s, with_status(s, status)),
        same_polling(s, with_status(s, status)),
        same_place(s, with_status(s, status)),
        same_drag(s, with_status(s, status)),
{
}

/// What is said after a look for an update: that there is none; which release
/// there is, with the question whether to install that one; or what failed, word
/// for word, behind the text for a failed update.
pub proof fn dialogs_tell_what_was_found(
    result: Result<UpdateCheckView, Seq<char>>,
    strings: Strings,
)
    ensures
        result == Ok::<UpdateCheckView, Seq<char>>(UpdateCheckView::UpToDate) ==> checked_dialog(
            result,
            strings,
        ) == (DialogView::Info { title: strings.updates@, body: strings.up_to_date@ }),
        result matches Ok(UpdateCheckView::Available(found)) ==> (checked_dialog(
            result,
            strings,
        ) matches DialogView::Prompt { title, body, release } && title == strings.update_available@
            && release == found && body == replaced(
            strings.update_prompt_now@,
            "{version}"@,
            found.latest_version,
        )),
        result matches Err(e) ==> (checked_dialog(result, strings) matches DialogView::Error {
            title,
            body,
        } && title == strings.updates@ && strings.update_failed@.is_prefix_of(body)
            && e.is_suffix_of(body) && body.len() == strings.update_failed@.len() + 3 + e.len()
            && body[strings.update_failed@.len() as int] == '.'
            && body[strings.update_failed@.len() as int + 1] == '\n'
            && body[strings.update_failed@.len() as int + 2] == '\n'),
        in_progress_dialog(strings) == (DialogView::Info {
            title: strings.updates@,
            body: strings.update_in_progress@,
        }),
{
    reveal_strlit(".\n\n");
}

/// The settings are stored after every look for an update, the window is told at
/// the end, and a dialog is shown between the two just where the user asked.
pub proof fn checks_are_stored_and_told(interactive: bool)
    ensures
        check_end_actions(interactive).first() == Action::SaveSettings,
        check_end_actions(interactive).last() == Action::PostUpdateCheckComplete,
        check_end_actions(interactive).len() == if interactive {
            3nat
        } else {
            2nat
        },
        interactive ==> check_end_actions(interactive)[1] == Action::ShowDialog,
{
}

/// Where no look for an update is due, the timer is set to the milliseconds that
/// are left, at the later of the two times, of the day since the last one, or to
/// one where none are; where a look is due, or there never was one, no timer is
/// set. The old timer is stopped first.
pub proof fn the_next_check_is_scheduled_for_its_day(
    a: AppView,
    s: AppStateView,
    now: u64,
    later: u64,
)
    requires
        a.state == Some(s),
    ensures
        ({
            let actions = schedule_actions(a, now, later);
            let last = s.last_update_check_unix;
            let waits = last is Some && now < last->0 + 24 * 60 * 60;
            let ms: int = if later < last->0 {
                86_400_000
            } else if later < last->0 + 24 * 60 * 60 {
                1000 * (last->0 + 24 * 60 * 60 - later)
            } else {
                1
            };
            &&& actions[0] == (Action::KillTimer { timer: TimerId::UpdateCheck })
            &&& actions.len() == if waits {
                2nat
            } else {
                1nat
            }
            &&& waits ==> actions[1] == (Action::SetTimer {
                timer: TimerId::UpdateCheck,
                ms: ms as u32,
            })
        }),
        schedule_actions((AppView { state: None, ..a }), now, later).len() == 0,
{
}

/// A look for an update is due a day after the last one, to the second, and where
/// there never was one.
pub proof fn checks_are_due_after_a_day(last: u64, now: u64)
    ensures
        is_due(None, now),
        is_due(Some(last), now) == (now >= last + 24 * 60 * 60),
{
}

/// Work on updates goes on while one is looked for and while one is installed,
/// and at no other time.
pub proof fn looking_and_installing_are_work(release: ReleaseView)
    ensures
        is_busy(UpdateStatusView::Checking),
        is_busy(UpdateStatusView::Applying),
        !is_busy(UpdateStatusView::Idle),
        !is_busy(UpdateStatusView::UpToDate),
        !is_busy(UpdateStatusView::Available(release)),
{
}

/// The view of a dialog tells what it is and what it says.
pub proof fn the_view_tells_the_dialog(dialog: Dialog)
    ensures
        dialog is Nothing == (dialog@ is Nothing),
        dialog matches Dialog::Info { title, body } ==> dialog@ == (DialogView::Info {
            title: title@,
            body: body@,
        }),
        dialog matches Dialog::Error { title, body } ==> dialog@ == (DialogView::Error {
            title: title@,
            body: body@,
        }),
        dialog matches Dialog::Prompt { title, body, release } ==> dialog@ == (DialogView::Prompt {
            title: title@,
            body: body@,
            release: release@,
        }),
{
}

/// The view of how a check ended tells it.
pub proof fn the_view_tells_the_check(result: Result<UpdateCheckResult, String>)
    ensures
        result matches Err(e) ==> check_view(result) == Err::<UpdateCheckView, Seq<char>>(e@),
        result matches Ok(UpdateCheckResult::UpToDate) ==> check_view(result) == Ok::<
            UpdateCheckView,
            Seq<char>,
        >(UpdateCheckView::UpToDate),
        result matches Ok(UpdateCheckResult::Available(release)) ==> check_view(result) == Ok::<
            UpdateCheckView,
            Seq<char>,
        >(UpdateCheckView::Available(release@)),
{
}

/// The menu's text about the version begins with the version that runs and ends
/// with what can be done or is being done; where a release was found, with that
/// release's version.
pub proof fn the_version_label_tells_both(
    strings: Strings,
    status: UpdateStatusView,
    version: Seq<char>,
)
    ensures
        ({
            let label = version_label(strings, status, version);
            let n = shown_version(version).len() as int;
            let rest = label.skip(n + 4);
            &&& label.len() >= n + 4
            &&& label[0] == 'v' && label.subrange(1, n + 1) == shown_version(version)
            &&& label[n + 1] == ' ' && label[n + 2] == '-' && label[n + 3] == ' '
            &&& status == UpdateStatusView::Idle ==> rest == strings.check_for_updates@
            &&& status == UpdateStatusView::Checking ==> rest == strings.checking_for_updates@
            &&& status == UpdateStatusView::Applying ==> rest == strings.applying_update@
            &&& status == UpdateStatusView::UpToDate ==> rest == strings.up_to_date_short@
            &&& status matches UpdateStatusView::Available(found) ==> {
                &&& strings.update_to@.is_prefix_of(rest)
                &&& found.latest_version.is_suffix_of(rest)
                &&& rest.len() == strings.update_to@.len() + 2 + found.latest_version.len()
                &&& rest[strings.update_to@.len() as int] == ' '
                &&& rest[strings.update_to@.len() as int + 1] == 'v'
            }
        }),
{
    reveal_strlit("v");
    reveal_strlit(" - ");
    reveal_strlit(" v");
    let label = version_label(strings, status, version);
    let shown = shown_version(version);
    let n = shown.len() as int;
    let rest = label.skip(n + 4);
    assert(label.subrange(1, n + 1) == shown);
    match status {
        UpdateStatusView::Idle => {
            assert(rest == strings.check_for_updates@);
        },
        UpdateStatusView::Checking => {
            assert(rest == strings.checking_for_updates@);
        },
        UpdateStatusView::Applying => {
            assert(rest == strings.applying_update@);
        },
        UpdateStatusView::UpToDate => {
            assert(rest == strings.up_to_date_short@);
        },
        UpdateStatusView::Available(found) => {
            assert(rest == strings.update_to@ + " v"@ + found.latest_version);
        },
    }
}

} // verus!
