//! Polling for usage: what an answer and a failure lead to, and when the next
//! look is due.
use vstd::arithmetic::power2::{
    lemma2_to64, lemma_pow2_strictly_increases, lemma_pow2_unfold, pow2,
};
use vstd::bits::lemma_u64_shl_is_mul;
use vstd::prelude::*;

use crate::action::{Action, TimerId};
use crate::command::{state_commanded, Command};
use crate::locale::{Catalog, Strings};
use crate::message::{answered, Message};
use crate::state::{
    refreshed, same_choices, same_drag, same_percentages, same_place, same_texts, same_updates,
    settings_of, snapshot_view, with_all_texts, with_state, App, AppState, AppStateView,
    AppUsageData, AppView, CredentialWatchMode, CredentialWatchSnapshot, LinesView, ModelUsage,
    UsageLines, FAILED_TEXT, WAITING_TEXT,
};
use crate::text::same_text;

verus! {

/// The pause before the first retry, in milliseconds.
pub const RETRY_BASE_MS: u32 = 30_000;

/// How often to poll once a limit has been reset, in milliseconds.
pub const RESET_POLL_MS: u32 = 5_000;

/// The pause before the countdown is looked at again where no reset is known,
/// in milliseconds.
pub const IDLE_COUNTDOWN_MS: u128 = 60_000;

/// The shortest pause before the countdown is looked at again, in milliseconds.
pub const LEAST_COUNTDOWN_MS: u128 = 1_000;

/// Why there is no usage data.
#[derive(Clone, Copy, PartialEq, Eq, Structural, Debug)]
pub enum PollError {
    AuthRequired,
    TokenExpired,
    NoCredentials,
    RequestFailed,
}

/// A message in a balloon at the tray icon.
#[derive(Clone, Copy)]
pub struct Balloon {
    pub title: &'static str,
    pub body: &'static str,
}

/// What is to be done after a failed poll, with the balloon that
/// `Action::NotifyBalloon` shows.
pub struct PollFailure {
    pub actions: Vec<Action>,
    pub balloon: Option<Balloon>,
}

/// What is to be done where the poll timer has fired.
pub enum PollTimer {
    Ignore,
    Poll,
    /// Look at the credentials, and hand them to `App::credentials_seen` with
    /// what they looked like before.
    Compare { mode: CredentialWatchMode, previous: CredentialWatchSnapshot },
}

/// What a [`PollTimer`] says.
pub enum PollTimerView {
    Ignore,
    Poll,
    Compare { mode: CredentialWatchMode, previous: Seq<Seq<char>> },
}

impl View for PollTimer {
    type V = PollTimerView;

    open spec fn view(&self) -> PollTimerView {
        match self {
            PollTimer::Ignore => PollTimerView::Ignore,
            PollTimer::Poll => PollTimerView::Poll,
            PollTimer::Compare { mode, previous } => PollTimerView::Compare {
                mode: *mode,
                previous: snapshot_view(previous@),
            },
        }
    }
}

/// In how many milliseconds each countdown shows something else, if it does.
/// Those of a model without data are not used.
#[derive(Clone, Copy)]
pub struct DisplayDelays {
    pub session: Option<u128>,
    pub weekly: Option<u128>,
    pub codex_session: Option<u128>,
    pub codex_weekly: Option<u128>,
}

// An answer.

/// The percentages that a model's card shows after an answer: those of the
/// answer; none where the model is shown and the answer has none; otherwise
/// the ones it showed.
pub open spec fn percents(usage: Option<ModelUsage>, shown: bool, session: u64, weekly: u64) -> (
    u64,
    u64,
) {
    match usage {
        Some(u) => (u.session.percentage, u.weekly.percentage),
        None => if shown {
            (0, 0)
        } else {
            (session, weekly)
        },
    }
}

/// The state with the percentages of an answer.
pub open spec fn with_percents(s: AppStateView, data: AppUsageData) -> AppStateView {
    let (session, weekly) = percents(
        data.claude_code,
        s.show_claude_code,
        s.session_percent,
        s.weekly_percent,
    );
    let (codex_session, codex_weekly) = percents(
        data.codex,
        s.show_codex,
        s.codex_session_percent,
        s.codex_weekly_percent,
    );
    AppStateView {
        session_percent: session,
        weekly_percent: weekly,
        codex_session_percent: codex_session,
        codex_weekly_percent: codex_weekly,
        ..s
    }
}

/// The state with nothing left of earlier failures.
pub open spec fn recovered(s: AppStateView) -> AppStateView {
    AppStateView {
        retry_count: 0,
        force_notify_auth_error: false,
        auth_error_paused_polling: false,
        auth_watch_mode: CredentialWatchMode::ActiveSource,
        auth_watch_snapshot: seq![],
        ..s
    }
}

/// The state after an answer.
pub open spec fn after_answer(s: AppStateView, data: AppUsageData, lines: LinesView) -> AppStateView {
    recovered(
        refreshed(
            AppStateView { data: Some(data), last_poll_ok: true, ..with_percents(s, data) },
            lines,
        ),
    )
}

/// What is to be done after an answer: fast polling ends unless a limit is
/// still past its reset, and the normal interval is back after failures.
pub open spec fn answer_actions(a: AppView, past_reset: bool) -> Seq<Action> {
    match a.state {
        Some(s) => {
            let stop = if past_reset {
                seq![]
            } else {
                seq![Action::KillTimer { timer: TimerId::ResetPoll }]
            };
            let restore = if s.retry_count > 0 {
                seq![Action::SetTimer { timer: TimerId::Poll, ms: s.poll_interval_ms }]
            } else {
                seq![]
            };
            stop + restore + seq![Action::PostUsageUpdated]
        },
        None => seq![Action::PostUsageUpdated],
    }
}

// A failure.

/// Which credentials to watch after a failure, where it is one to sign in.
pub open spec fn watched_after(error: PollError) -> Option<CredentialWatchMode> {
    match error {
        PollError::AuthRequired => Some(CredentialWatchMode::ActiveSource),
        PollError::TokenExpired => Some(CredentialWatchMode::ActiveSource),
        PollError::NoCredentials => Some(CredentialWatchMode::AllSources),
        PollError::RequestFailed => None,
    }
}

/// One more, as far as a `u32` reaches.
pub open spec fn one_more(n: u32) -> u32 {
    if n == u32::MAX {
        n
    } else {
        (n + 1) as u32
    }
}

/// The state after a failure to sign in: polling pauses until the credentials
/// change.
pub open spec fn after_auth_failure(
    s: AppStateView,
    mode: CredentialWatchMode,
    snapshot: Seq<Seq<char>>,
) -> AppStateView {
    AppStateView {
        last_poll_ok: false,
        force_notify_auth_error: false,
        auth_error_paused_polling: true,
        auth_watch_mode: mode,
        auth_watch_snapshot: snapshot,
        retry_count: one_more(s.retry_count),
        ..with_all_texts(s, FAILED_TEXT@)
    }
}

/// The state after any other failure.
pub open spec fn after_transient_failure(s: AppStateView) -> AppStateView {
    AppStateView {
        last_poll_ok: false,
        force_notify_auth_error: false,
        auth_error_paused_polling: false,
        auth_watch_mode: CredentialWatchMode::ActiveSource,
        auth_watch_snapshot: seq![],
        retry_count: one_more(s.retry_count),
        ..with_all_texts(s, WAITING_TEXT@)
    }
}

/// The state after a failure.
pub open spec fn after_failure(
    s: AppStateView,
    error: PollError,
    snapshot: Seq<Seq<char>>,
) -> AppStateView {
    match watched_after(error) {
        Some(mode) => after_auth_failure(s, mode, snapshot),
        None => after_transient_failure(s),
    }
}

/// A failure is reported: the first failure to sign in, or one that the user
/// asked to have reported.
pub open spec fn is_reported(s: AppStateView, error: PollError) -> bool {
    watched_after(error) is Some && (s.retry_count == 0 || s.force_notify_auth_error)
}

/// The pause after a number of failures: thirty seconds, and twice as long after
/// each further one, as far as a `u32` reaches.
pub open spec fn backoff(retry_count: u32) -> int {
    let ms = RETRY_BASE_MS * pow2((retry_count - 1) as nat);
    if ms <= u32::MAX {
        ms
    } else {
        u32::MAX as int
    }
}

/// The pause before the next poll after a number of failures: never longer
/// than the normal interval.
pub open spec fn retry_delay(retry_count: u32, poll_interval_ms: u32) -> int {
    if backoff(retry_count) < poll_interval_ms {
        backoff(retry_count)
    } else {
        poll_interval_ms as int
    }
}

/// What is to be done after a failure.
pub open spec fn failure_actions(a: AppView, error: PollError) -> Seq<Action> {
    match a.state {
        Some(s) => {
            let timers = if watched_after(error) is Some {
                seq![
                    Action::KillTimer { timer: TimerId::Poll },
                    Action::KillTimer { timer: TimerId::ResetPoll },
                    Action::KillTimer { timer: TimerId::Countdown },
                    Action::SetTimer { timer: TimerId::Poll, ms: s.poll_interval_ms },
                ]
            } else {
                seq![
                    Action::KillTimer { timer: TimerId::ResetPoll },
                    Action::SetTimer {
                        timer: TimerId::Poll,
                        ms: retry_delay(one_more(s.retry_count), s.poll_interval_ms) as u32,
                    },
                ]
            };
            let report = if is_reported(s, error) {
                seq![Action::NotifyBalloon]
            } else {
                seq![]
            };
            timers + report + seq![Action::PostUsageUpdated]
        },
        None => seq![Action::PostUsageUpdated],
    }
}

/// The balloon that reports a failure to sign in.
pub open spec fn auth_balloon(show_claude_code: bool, strings: Strings) -> Balloon {
    if show_claude_code {
        Balloon { title: strings.token_expired_title, body: strings.token_expired_body }
    } else {
        Balloon { title: strings.codex_token_expired_title, body: strings.codex_token_expired_body }
    }
}

/// Which credentials to watch after a failure, where it is one to sign in.
pub fn watch_mode(error: PollError) -> (mode: Option<CredentialWatchMode>)
    ensures
        mode == watched_after(error),
{
    match error {
        PollError::AuthRequired => Some(CredentialWatchMode::ActiveSource),
        PollError::TokenExpired => Some(CredentialWatchMode::ActiveSource),
        PollError::NoCredentials => Some(CredentialWatchMode::AllSources),
        PollError::RequestFailed => None,
    }
}

/// The pause after a number of failures.
pub fn backoff_ms(retry_count: u32) -> (ms: u32)
    requires
        retry_count >= 1,
    ensures
        ms == backoff(retry_count),
{
    let doublings: u32 = retry_count - 1;
    proof {
        lemma2_to64();
    }
    if doublings >= 32 {
        proof {
            if doublings > 32 {
                lemma_pow2_strictly_increases(32, doublings as nat);
            }
        }
        return u32::MAX;
    }
    proof {
        lemma_pow2_strictly_increases(doublings as nat, 32);
        lemma_u64_shl_is_mul(1, doublings as u64);
    }
    let factor: u64 = 1u64 << (doublings as u64);
    assert(factor == pow2(doublings as nat));
    assert(factor < 0x1_0000_0000);
    let base: u64 = RETRY_BASE_MS as u64;
    assert(base * factor <= 30_000 * 0xffff_ffff) by (nonlinear_arith)
        requires
            base == 30_000,
            factor < 0x1_0000_0000,
    ;
    let ms: u64 = base * factor;
    if ms <= u32::MAX as u64 {
        ms as u32
    } else {
        u32::MAX
    }
}

/// Copies a snapshot.
fn copy_snapshot(snapshot: &CredentialWatchSnapshot) -> (copy: CredentialWatchSnapshot)
    ensures
        snapshot_view(copy@) == snapshot_view(snapshot@),
{
    let mut copy: Vec<String> = Vec::new();
    let mut i: usize = 0;
    while i < snapshot.len()
        invariant
            i <= snapshot.len(),
            snapshot_view(copy@) == snapshot_view(snapshot@).take(i as int),
        decreases snapshot.len() - i,
    {
        let ghost before = copy@;
        copy.push(snapshot[i].clone());
        assert(snapshot_view(copy@) =~= snapshot_view(before).push(snapshot@[i as int]@));
        assert(snapshot_view(snapshot@).take(i + 1) =~= snapshot_view(snapshot@).take(
            i as int,
        ).push(snapshot@[i as int]@));
        i += 1;
    }
    assert(snapshot_view(snapshot@).take(i as int) =~= snapshot_view(snapshot@));
    copy
}

/// Compares two snapshots.
fn same_snapshot(a: &CredentialWatchSnapshot, b: &CredentialWatchSnapshot) -> (same: bool)
    ensures
        same == (snapshot_view(a@) == snapshot_view(b@)),
{
    let ghost left = snapshot_view(a@);
    let ghost right = snapshot_view(b@);
    if a.len() != b.len() {
        assert(left.len() != right.len());
        return false;
    }
    let mut i: usize = 0;
    while i < a.len()
        invariant
            left == snapshot_view(a@),
            right == snapshot_view(b@),
            a.len() == b.len(),
            i <= a.len(),
            forall|j: int| 0 <= j < i ==> left[j] == right[j],
        decreases a.len() - i,
    {
        assert(left[i as int] == a@[i as int]@ && right[i as int] == b@[i as int]@);
        if !same_text(a[i].as_str(), b[i].as_str()) {
            return false;
        }
        i += 1;
    }
    assert(left =~= right);
    true
}

// The countdown.

/// The smaller of two delays that may be missing.
pub open spec fn sooner(a: Option<u128>, b: Option<u128>) -> Option<u128> {
    match (a, b) {
        (Some(x), Some(y)) => if x <= y {
            Some(x)
        } else {
            Some(y)
        },
        (Some(x), None) => Some(x),
        (None, _) => b,
    }
}

/// In how many milliseconds some countdown shows something else, if one does.
pub open spec fn next_change(data: AppUsageData, delays: DisplayDelays) -> Option<u128> {
    let claude_code = if data.claude_code is Some {
        sooner(delays.session, delays.weekly)
    } else {
        None
    };
    let codex = if data.codex is Some {
        sooner(delays.codex_session, delays.codex_weekly)
    } else {
        None
    };
    sooner(claude_code, codex)
}

/// The pause before the countdown is looked at again, before it is cut to the
/// `u32` that a timer takes.
pub open spec fn countdown_pause(data: AppUsageData, delays: DisplayDelays) -> u128 {
    let ms = match next_change(data, delays) {
        Some(ms) => ms,
        None => IDLE_COUNTDOWN_MS,
    };
    if ms >= LEAST_COUNTDOWN_MS {
        ms
    } else {
        LEAST_COUNTDOWN_MS
    }
}

/// The milliseconds that the timer for the countdown is set to: the pause, cut
/// to a `u32`.
pub open spec fn countdown_timer_ms(data: AppUsageData, delays: DisplayDelays) -> u32 {
    (countdown_pause(data, delays) % 0x1_0000_0000) as u32
}

/// What is to be done to keep the countdown going: nothing goes on after a
/// failed poll; past a reset, polling is fast.
pub open spec fn countdown_actions(a: AppView, past_reset: bool, delays: DisplayDelays) -> Seq<
    Action,
> {
    match a.state {
        Some(s) => if !s.last_poll_ok {
            seq![
                Action::KillTimer { timer: TimerId::Countdown },
                Action::KillTimer { timer: TimerId::ResetPoll },
            ]
        } else {
            match s.data {
                Some(data) => {
                    let fast = if past_reset {
                        seq![Action::SetTimer { timer: TimerId::ResetPoll, ms: RESET_POLL_MS }]
                    } else {
                        seq![]
                    };
                    fast.push(
                        Action::SetTimer {
                            timer: TimerId::Countdown,
                            ms: countdown_timer_ms(data, delays),
                        },
                    )
                },
                None => seq![],
            }
        },
        None => seq![],
    }
}

fn sooner_of(a: Option<u128>, b: Option<u128>) -> (first: Option<u128>)
    ensures
        first == sooner(a, b),
{
    match (a, b) {
        (Some(x), Some(y)) => if x <= y {
            Some(x)
        } else {
            Some(y)
        },
        (Some(x), None) => Some(x),
        (None, _) => b,
    }
}

/// The pause before the countdown is looked at again.
fn countdown_ms(data: &AppUsageData, delays: &DisplayDelays) -> (ms: u128)
    ensures
        ms == countdown_pause(*data, *delays),
{
    let claude_code: Option<u128> = if data.claude_code.is_some() {
        sooner_of(delays.session, delays.weekly)
    } else {
        None
    };
    let codex: Option<u128> = if data.codex.is_some() {
        sooner_of(delays.codex_session, delays.codex_weekly)
    } else {
        None
    };
    let ms: u128 = match sooner_of(claude_code, codex) {
        Some(ms) => ms,
        None => IDLE_COUNTDOWN_MS,
    };
    if ms >= LEAST_COUNTDOWN_MS {
        ms
    } else {
        LEAST_COUNTDOWN_MS
    }
}

// The poll timer.

/// What is to be done where the poll timer has fired: a pause after a failure
/// to sign in ends only with a look at the credentials.
pub open spec fn poll_timer_of(a: AppView) -> PollTimerView {
    match a.state {
        Some(s) => if s.auth_error_paused_polling {
            PollTimerView::Compare { mode: s.auth_watch_mode, previous: s.auth_watch_snapshot }
        } else {
            PollTimerView::Poll
        },
        None => PollTimerView::Ignore,
    }
}

/// What a look at the credentials leads to: polling, where they have changed.
pub open spec fn credentials_compared(
    a: AppView,
    mode: CredentialWatchMode,
    previous: Seq<Seq<char>>,
    current: Seq<Seq<char>>,
) -> (AppView, Seq<Action>) {
    if current == previous {
        (a, seq![])
    } else {
        (
            match a.state {
                Some(s) if s.auth_error_paused_polling && s.auth_watch_mode == mode => with_state(
                    a,
                    AppStateView { auth_watch_snapshot: current, ..s },
                ),
                _ => a,
            },
            seq![Action::StartPoll],
        )
    }
}

/// The percentages that a model's card shows after an answer.
fn percents_of(usage: Option<ModelUsage>, shown: bool, session: u64, weekly: u64) -> (pair: (
    u64,
    u64,
))
    ensures
        pair == percents(usage, shown, session, weekly),
{
    match usage {
        Some(u) => (u.session.percentage, u.weekly.percentage),
        None => if shown {
            (0, 0)
        } else {
            (session, weekly)
        },
    }
}

impl AppState {
    /// Takes the percentages of an answer.
    fn take_percents(&mut self, data: &AppUsageData)
        ensures
            final(self)@ == with_percents(old(self)@, *data),
    {
        let (session, weekly): (u64, u64) = percents_of(
            data.claude_code,
            self.show_claude_code,
            self.session_percent,
            self.weekly_percent,
        );
        let (codex_session, codex_weekly): (u64, u64) = percents_of(
            data.codex,
            self.show_codex,
            self.codex_session_percent,
            self.codex_weekly_percent,
        );
        self.session_percent = session;
        self.weekly_percent = weekly;
        self.codex_session_percent = codex_session;
        self.codex_weekly_percent = codex_weekly;
    }

    /// Drops what is left of earlier failures.
    fn recover(&mut self)
        ensures
            final(self)@ == recovered(old(self)@),
    {
        self.retry_count = 0;
        self.force_notify_auth_error = false;
        self.auth_error_paused_polling = false;
        self.auth_watch_mode = CredentialWatchMode::ActiveSource;
        self.auth_watch_snapshot = Vec::new();
        assert(snapshot_view(self.auth_watch_snapshot@) =~= Seq::<Seq<char>>::empty());
    }

    /// Takes an answer.
    fn take_answer(&mut self, data: AppUsageData, lines: UsageLines)
        ensures
            final(self)@ == after_answer(old(self)@, data, lines@),
    {
        self.take_percents(&data);
        self.data = Some(data);
        self.last_poll_ok = true;
        self.refresh_usage_texts(lines);
        self.recover();
    }

    /// Takes a failure to sign in.
    fn take_auth_failure(&mut self, mode: CredentialWatchMode, snapshot: CredentialWatchSnapshot)
        ensures
            final(self)@ == after_auth_failure(old(self)@, mode, snapshot_view(snapshot@)),
    {
        self.set_all_texts(FAILED_TEXT);
        self.last_poll_ok = false;
        self.force_notify_auth_error = false;
        self.auth_error_paused_polling = true;
        self.auth_watch_mode = mode;
        self.auth_watch_snapshot = snapshot;
        self.retry_count = self.retry_count.saturating_add(1);
    }

    /// Takes any other failure.
    fn take_transient_failure(&mut self)
        ensures
            final(self)@ == after_transient_failure(old(self)@),
    {
        self.set_all_texts(WAITING_TEXT);
        self.recover_watch();
        self.last_poll_ok = false;
        self.retry_count = self.retry_count.saturating_add(1);
    }

    /// Ends the watch on the credentials.
    fn recover_watch(&mut self)
        ensures
            final(self)@ == (AppStateView {
                retry_count: old(self)@.retry_count,
                ..recovered(old(self)@)
            }),
    {
        self.force_notify_auth_error = false;
        self.auth_error_paused_polling = false;
        self.auth_watch_mode = CredentialWatchMode::ActiveSource;
        self.auth_watch_snapshot = Vec::new();
        assert(snapshot_view(self.auth_watch_snapshot@) =~= Seq::<Seq<char>>::empty());
    }
}

impl App {
    /// Which models to poll for: `claude_code`, `codex`.
    pub fn poll_request(&self) -> (models: (bool, bool))
        ensures
            models == match self@.state {
                Some(s) => (s.show_claude_code, s.show_codex),
                None => (true, false),
            },
    {
        match &self.state {
            Some(s) => (s.show_claude_code, s.show_codex),
            None => (true, false),
        }
    }

    /// Takes the answer to a poll, with its words in the current language.
    /// `past_reset` tells whether a limit in it is past its reset.
    pub fn poll_succeeded(&mut self, data: AppUsageData, past_reset: bool, lines: UsageLines) -> (
        actions: Vec<Action>)
        ensures
            actions@ == answer_actions(old(self)@, past_reset),
            match old(self)@.state {
                Some(s) => final(self)@ == with_state(
                    old(self)@,
                    after_answer(s, data, lines@),
                ),
                None => final(self)@ == old(self)@,
            },
            (old(self).state is Some && data.claude_code is Some) ==> (final(self).state matches Some(t)
                && t.session_percent == data.claude_code->0.session.percentage
                && t.weekly_percent == data.claude_code->0.weekly.percentage && t.session_text@
                == lines.session@ && t.weekly_text@ == lines.weekly@),
            (old(self).state is Some && data.codex is Some) ==> (final(self).state matches Some(t)
                && t.codex_session_percent == data.codex->0.session.percentage
                && t.codex_weekly_percent == data.codex->0.weekly.percentage
                && t.codex_session_text@ == lines.codex_session@ && t.codex_weekly_text@
                == lines.codex_weekly@),
    {
        let mut actions: Vec<Action> = Vec::new();
        match &mut self.state {
            Some(s) => {
                if !past_reset {
                    actions.push(Action::KillTimer { timer: TimerId::ResetPoll });
                }
                if s.retry_count > 0 {
                    actions.push(
                        Action::SetTimer { timer: TimerId::Poll, ms: s.poll_interval_ms },
                    );
                }
                s.take_answer(data, lines);
            },
            None => {},
        }
        actions.push(Action::PostUsageUpdated);
        assert(actions@ =~= answer_actions(old(self)@, past_reset));
        actions
    }

    /// Takes the failure of a poll. For a failure to sign in, `snapshot` is what
    /// the credentials that `watch_mode` names look like.
    pub fn poll_failed(
        &mut self,
        error: PollError,
        snapshot: CredentialWatchSnapshot,
        catalog: &Catalog,
    ) -> (failure: PollFailure)
        ensures
            failure.actions@ == failure_actions(old(self)@, error),
            match old(self)@.state {
                Some(s) => {
                    &&& final(self)@ == with_state(
                        old(self)@,
                        after_failure(s, error, snapshot_view(snapshot@)),
                    )
                    &&& failure.balloon == if is_reported(s, error) {
                        Some(
                            auth_balloon(s.show_claude_code, catalog.entry(s.language).strings),
                        )
                    } else {
                        None
                    }
                },
                None => failure.balloon is None && final(self)@ == old(self)@,
            },
    {
        let mut actions: Vec<Action> = Vec::new();
        let mut balloon: Option<Balloon> = None;
        match &mut self.state {
            Some(s) => match watch_mode(error) {
                Some(mode) => {
                    let reported: bool = s.retry_count == 0 || s.force_notify_auth_error;
                    s.take_auth_failure(mode, snapshot);
                    actions = vec![
                        Action::KillTimer { timer: TimerId::Poll },
                        Action::KillTimer { timer: TimerId::ResetPoll },
                        Action::KillTimer { timer: TimerId::Countdown },
                        Action::SetTimer { timer: TimerId::Poll, ms: s.poll_interval_ms },
                    ];
                    if reported {
                        let strings: Strings = catalog.strings(s.language);
                        balloon =
                        Some(
                            if s.show_claude_code {
                                Balloon {
                                    title: strings.token_expired_title,
                                    body: strings.token_expired_body,
                                }
                            } else {
                                Balloon {
                                    title: strings.codex_token_expired_title,
                                    body: strings.codex_token_expired_body,
                                }
                            },
                        );
                        actions.push(Action::NotifyBalloon);
                    }
                },
                None => {
                    s.take_transient_failure();
                    let pause: u32 = backoff_ms(s.retry_count);
                    let ms: u32 = if pause < s.poll_interval_ms {
                        pause
                    } else {
                        s.poll_interval_ms
                    };
                    actions = vec![
                        Action::KillTimer { timer: TimerId::ResetPoll },
                        Action::SetTimer { timer: TimerId::Poll, ms },
                    ];
                },
            },
            None => {},
        }
        actions.push(Action::PostUsageUpdated);
        assert(actions@ =~= failure_actions(old(self)@, error));
        PollFailure { actions, balloon }
    }

    /// Says what is to be done where the poll timer has fired.
    pub fn poll_timer(&self) -> (timer: PollTimer)
        ensures
            timer@ == poll_timer_of(self@),
    {
        match &self.state {
            Some(s) => if s.auth_error_paused_polling {
                PollTimer::Compare {
                    mode: s.auth_watch_mode,
                    previous: copy_snapshot(&s.auth_watch_snapshot),
                }
            } else {
                PollTimer::Poll
            },
            None => PollTimer::Ignore,
        }
    }

    /// Takes what the watched credentials look like now.
    pub fn credentials_seen(
        &mut self,
        mode: CredentialWatchMode,
        previous: CredentialWatchSnapshot,
        current: CredentialWatchSnapshot,
    ) -> (actions: Vec<Action>)
        ensures
            (final(self)@, actions@) == credentials_compared(
                old(self)@,
                mode,
                snapshot_view(previous@),
                snapshot_view(current@),
            ),
    {
        if same_snapshot(&current, &previous) {
            return vec![];
        }
        match &mut self.state {
            Some(s) => {
                if s.auth_error_paused_polling && s.auth_watch_mode == mode {
                    s.auth_watch_snapshot = current;
                }
            },
            None => {},
        }
        vec![Action::StartPoll]
    }

    /// Keeps the countdown going.
    pub fn schedule_countdown_timer(&self, past_reset: bool, delays: DisplayDelays) -> (actions: Vec<
        Action,
    >)
        ensures
            actions@ == countdown_actions(self@, past_reset, delays),
    {
        let s: &AppState = match &self.state {
            Some(s) => s,
            None => return vec![],
        };
        if !s.last_poll_ok {
            return vec![
                Action::KillTimer { timer: TimerId::Countdown },
                Action::KillTimer { timer: TimerId::ResetPoll },
            ];
        }
        let data: AppUsageData = match s.data {
            Some(data) => data,
            None => return vec![],
        };
        let mut actions: Vec<Action> = Vec::new();
        if past_reset {
            actions.push(Action::SetTimer { timer: TimerId::ResetPoll, ms: RESET_POLL_MS });
        }
        let ms: u32 = (countdown_ms(&data, &delays) % 0x1_0000_0000) as u32;
        actions.push(Action::SetTimer { timer: TimerId::Countdown, ms });
        assert(actions@ =~= countdown_actions(self@, past_reset, delays));
        actions
    }
}

// Laws.

/// The first retry comes after thirty seconds or the normal interval, whichever
/// is shorter; no retry comes sooner than that, nor later than the normal
/// interval.
pub proof fn retries_stay_within_bounds(retry_count: u32, poll_interval_ms: u32)
    requires
        retry_count >= 1,
    ensures
        retry_delay(1, poll_interval_ms) <= retry_delay(retry_count, poll_interval_ms)
            <= poll_interval_ms,
        retry_delay(1, poll_interval_ms) == if RETRY_BASE_MS < poll_interval_ms {
            RETRY_BASE_MS as int
        } else {
            poll_interval_ms as int
        },
{
    lemma2_to64();
    retries_come_no_sooner(1, retry_count, poll_interval_ms);
}

/// The more polls have failed, the longer the pause before the next.
pub proof fn retries_come_no_sooner(fewer: u32, more: u32, poll_interval_ms: u32)
    requires
        1 <= fewer <= more,
    ensures
        backoff(fewer) <= backoff(more),
        retry_delay(fewer, poll_interval_ms) <= retry_delay(more, poll_interval_ms),
{
    let few = pow2((fewer - 1) as nat);
    let many = pow2((more - 1) as nat);
    if fewer < more {
        lemma_pow2_strictly_increases((fewer - 1) as nat, (more - 1) as nat);
    }
    assert(RETRY_BASE_MS * few <= RETRY_BASE_MS * many) by (nonlinear_arith)
        requires
            few <= many,
    ;
}

/// Until the limit of a `u32` is reached, each further failure doubles the
/// pause before it is held to the normal interval.
pub proof fn backoff_doubles(retry_count: u32)
    requires
        1 <= retry_count < u32::MAX,
        2 * backoff(retry_count) <= u32::MAX,
    ensures
        backoff((retry_count + 1) as u32) == 2 * backoff(retry_count),
{
    lemma_pow2_unfold(retry_count as nat);
    assert(RETRY_BASE_MS * (2 * pow2((retry_count - 1) as nat)) == 2 * (RETRY_BASE_MS * pow2(
        (retry_count - 1) as nat,
    ))) by (nonlinear_arith);
}

/// A failure to sign in is reported once: after one, no further failure is
/// reported until an answer has come or the user has asked for a refresh.
pub proof fn failures_are_reported_once(
    s: AppStateView,
    first: PollError,
    snapshot: Seq<Seq<char>>,
    next: PollError,
)
    ensures
        !is_reported(after_failure(s, first, snapshot), next),
{
}

/// After an answer, the next failure to sign in is reported, and so is the next
/// one after a refresh.
pub proof fn failures_are_reported_after_an_answer_or_a_refresh(
    s: AppStateView,
    data: AppUsageData,
    lines: LinesView,
    error: PollError,
)
    requires
        watched_after(error) is Some,
    ensures
        is_reported(after_answer(s, data, lines), error),
        is_reported(state_commanded(s, Command::Refresh), error),
{
}

/// A failure does not touch the data of the last answer, nor the percentages
/// that it gave, nor anything that is stored as a setting.
pub proof fn failures_keep_the_data(
    s: AppStateView,
    error: PollError,
    snapshot: Seq<Seq<char>>,
    catalog: Catalog,
)
    ensures
        ({
            let t = after_failure(s, error, snapshot);
            &&& t.data == s.data
            &&& t.session_percent == s.session_percent && t.weekly_percent == s.weekly_percent
            &&& t.codex_session_percent == s.codex_session_percent && t.codex_weekly_percent
                == s.codex_weekly_percent
            &&& settings_of(t, catalog) == settings_of(s, catalog)
        }),
{
}

/// The text of a failure is not overwritten with stale data: until an answer
/// comes, writing the texts anew leaves them as they are.
pub proof fn failure_texts_stay(
    s: AppStateView,
    error: PollError,
    snapshot: Seq<Seq<char>>,
    lines: LinesView,
)
    ensures
        refreshed(after_failure(s, error, snapshot), lines) == after_failure(s, error, snapshot),
{
}

/// While polling is paused after a failure to sign in, the poll timer leads to
/// a poll only if the credentials have changed, and the timer for a reset to
/// none.
pub proof fn paused_polling_waits_for_credentials(
    a: AppView,
    s: AppStateView,
    mode: CredentialWatchMode,
    error: PollError,
    snapshot: Seq<Seq<char>>,
    current: Seq<Seq<char>>,
)
    requires
        watched_after(error) == Some(mode),
        a.state == Some(after_failure(s, error, snapshot)),
    ensures
        poll_timer_of(a) == (PollTimerView::Compare { mode, previous: snapshot }),
        credentials_compared(a, mode, snapshot, current).1 == if current == snapshot {
            Seq::<Action>::empty()
        } else {
            seq![Action::StartPoll]
        },
        answered(a, Message::Timer(Some(TimerId::ResetPoll))).1 == Seq::<Action>::empty(),
{
}

/// An answer ends the pause: the poll timer leads to a poll again.
pub proof fn an_answer_ends_the_pause(
    a: AppView,
    s: AppStateView,
    data: AppUsageData,
    lines: LinesView,
)
    requires
        a.state == Some(after_answer(s, data, lines)),
    ensures
        poll_timer_of(a) == PollTimerView::Poll,
{
}

/// The timer for the countdown fires no later than at the first change of what
/// is shown that is at least a second away. It fires when the pause is over, and
/// so no sooner than after a second, wherever the pause is below 2^32
/// milliseconds; a longer one is cut, and the timer may then fire sooner.
pub proof fn countdown_is_looked_at_in_time(data: AppUsageData, delays: DisplayDelays)
    ensures
        countdown_pause(data, delays) < 0x1_0000_0000 ==> countdown_timer_ms(data, delays)
            == countdown_pause(data, delays) && countdown_timer_ms(data, delays)
            >= LEAST_COUNTDOWN_MS,
        data.claude_code is Some && delays.session is Some && delays.session->0
            >= LEAST_COUNTDOWN_MS ==> countdown_timer_ms(data, delays) <= delays.session->0,
        data.claude_code is Some && delays.weekly is Some && delays.weekly->0 >= LEAST_COUNTDOWN_MS
            ==> countdown_timer_ms(data, delays) <= delays.weekly->0,
        data.codex is Some && delays.codex_session is Some && delays.codex_session->0
            >= LEAST_COUNTDOWN_MS ==> countdown_timer_ms(data, delays) <= delays.codex_session->0,
        data.codex is Some && delays.codex_weekly is Some && delays.codex_weekly->0
            >= LEAST_COUNTDOWN_MS ==> countdown_timer_ms(data, delays) <= delays.codex_weekly->0,
{
}

/// After an answer, each of a model's percentages is the one of the same window
/// of time in the answer. A model that is shown but has no data in the answer
/// stands at zero; one that is not shown keeps what it had.
pub proof fn answers_reach_their_own_bars(s: AppStateView, data: AppUsageData, lines: LinesView)
    ensures
        ({
            let t = after_answer(s, data, lines);
            &&& data.claude_code matches Some(u) ==> t.session_percent == u.session.percentage
                && t.weekly_percent == u.weekly.percentage
            &&& data.codex matches Some(u) ==> t.codex_session_percent == u.session.percentage
                && t.codex_weekly_percent == u.weekly.percentage
            &&& data.claude_code is None && s.show_claude_code ==> t.session_percent == 0
                && t.weekly_percent == 0
            &&& data.codex is None && s.show_codex ==> t.codex_session_percent == 0
                && t.codex_weekly_percent == 0
            &&& data.claude_code is None && !s.show_claude_code ==> t.session_percent
                == s.session_percent && t.weekly_percent == s.weekly_percent
            &&& data.codex is None && !s.show_codex ==> t.codex_session_percent
                == s.codex_session_percent && t.codex_weekly_percent == s.codex_weekly_percent
        }),
{
}

/// After an answer, each limit shows its own line of the answer's words.
pub proof fn answers_reach_their_own_texts(s: AppStateView, data: AppUsageData, lines: LinesView)
    ensures
        ({
            let t = after_answer(s, data, lines);
            &&& data.claude_code is Some ==> t.session_text == lines.session && t.weekly_text
                == lines.weekly
            &&& data.codex is Some ==> t.codex_session_text == lines.codex_session
                && t.codex_weekly_text == lines.codex_weekly
            &&& data.claude_code is None && s.show_claude_code ==> t.session_text == "!"@
                && t.weekly_text == "!"@
            &&& data.codex is None && s.show_codex ==> t.codex_session_text == "!"@
                && t.codex_weekly_text == "!"@
            &&& data.claude_code is None && !s.show_claude_code ==> t.session_text
                == s.session_text && t.weekly_text == s.weekly_text
            &&& data.codex is None && !s.show_codex ==> t.codex_session_text
                == s.codex_session_text && t.codex_weekly_text == s.codex_weekly_text
        }),
{
}

/// An answer is kept, nothing is left of earlier failures, and what has nothing
/// to do with usage stays as it is.
pub proof fn answers_change_usage_alone(s: AppStateView, data: AppUsageData, lines: LinesView)
    ensures
        ({
            let t = after_answer(s, data, lines);
            &&& t.data == Some(data) && t.last_poll_ok && t.retry_count == 0
            &&& !t.force_notify_auth_error && !t.auth_error_paused_polling
            &&& t.auth_watch_mode == CredentialWatchMode::ActiveSource
                && t.auth_watch_snapshot.len() == 0
            &&& same_choices(s, t)
            &&& same_updates(s, t)
            &&& same_place(s, t)
            &&& same_drag(s, t)
        }),
{
}

/// After an answer, fast polling is stopped just where no limit is past its
/// reset; the poll timer is set only after failures, and to the interval that
/// the user has set; and the window is told, last of all.
pub proof fn answers_set_the_timers(a: AppView, past_reset: bool)
    requires
        a.state is Some,
    ensures
        ({
            let actions = answer_actions(a, past_reset);
            let s = a.state->0;
            &&& actions.contains(Action::KillTimer { timer: TimerId::ResetPoll }) == !past_reset
            &&& actions.contains(
                Action::SetTimer { timer: TimerId::Poll, ms: s.poll_interval_ms },
            ) == (s.retry_count > 0)
            &&& actions.last() == Action::PostUsageUpdated
            &&& forall|i: int|
                0 <= i < actions.len() - 1 ==> #[trigger] actions[i] == (Action::KillTimer {
                    timer: TimerId::ResetPoll,
                }) || actions[i] == (Action::SetTimer {
                    timer: TimerId::Poll,
                    ms: s.poll_interval_ms,
                })
        }),
{
    let actions = answer_actions(a, past_reset);
    let s = a.state->0;
    let stop = Action::KillTimer { timer: TimerId::ResetPoll };
    let restore = Action::SetTimer { timer: TimerId::Poll, ms: s.poll_interval_ms };
    if !past_reset {
        assert(actions[0] == stop);
    }
    if s.retry_count > 0 {
        assert(actions[actions.len() - 2] == restore);
    }
}

/// A failure to sign in leaves the mark of a missing answer in all texts and
/// pauses polling until the credentials that are to be watched look different;
/// any other failure leaves the mark of an awaited one and pauses nothing. Each
/// counts as one more failure.
pub proof fn failures_leave_their_mark(
    s: AppStateView,
    error: PollError,
    snapshot: Seq<Seq<char>>,
)
    ensures
        ({
            let t = after_failure(s, error, snapshot);
            let mark = if error == PollError::RequestFailed {
                "..."@
            } else {
                "!"@
            };
            &&& t.session_text == mark && t.weekly_text == mark
            &&& t.codex_session_text == mark && t.codex_weekly_text == mark
            &&& !t.last_poll_ok && !t.force_notify_auth_error
            &&& t.auth_error_paused_polling == (error != PollError::RequestFailed)
            &&& t.auth_watch_mode == if error == PollError::NoCredentials {
                CredentialWatchMode::AllSources
            } else {
                CredentialWatchMode::ActiveSource
            }
            &&& error != PollError::RequestFailed ==> t.auth_watch_snapshot == snapshot
            &&& error == PollError::RequestFailed ==> t.auth_watch_snapshot.len() == 0
            &&& s.retry_count < u32::MAX ==> t.retry_count == s.retry_count + 1
            &&& s.retry_count == u32::MAX ==> t.retry_count == u32::MAX
        }),
{
}

/// What has nothing to do with polling outlives a failure, and so do the
/// percentages.
pub proof fn failures_change_polling_alone(
    s: AppStateView,
    error: PollError,
    snapshot: Seq<Seq<char>>,
)
    ensures
        same_choices(s, after_failure(s, error, snapshot)),
        same_percentages(s, after_failure(s, error, snapshot)),
        same_updates(s, after_failure(s, error, snapshot)),
        same_place(s, after_failure(s, error, snapshot)),
        same_drag(s, after_failure(s, error, snapshot)),
{
}

/// A failure to sign in is reported where it is the first, or where the user has
/// asked; no other failure is. Only what is reported comes with a balloon.
pub proof fn only_failures_to_sign_in_are_reported(a: AppView, error: PollError)
    requires
        a.state is Some,
    ensures
        is_reported(a.state->0, error) == (error != PollError::RequestFailed && (
        a.state->0.retry_count == 0 || a.state->0.force_notify_auth_error)),
        failure_actions(a, error).contains(Action::NotifyBalloon) == is_reported(
            a.state->0,
            error,
        ),
        failure_actions(a, error).last() == Action::PostUsageUpdated,
{
    let actions = failure_actions(a, error);
    if is_reported(a.state->0, error) {
        assert(actions[actions.len() - 2] == Action::NotifyBalloon);
    }
}

/// After any failure the poll timer is set once: to the normal interval after a
/// failure to sign in, and otherwise to the shorter of the interval and half a
/// minute doubled for every failure before. Fast polling ends either way.
pub proof fn failures_set_the_poll_timer(a: AppView, error: PollError, timer: TimerId, ms: u32)
    requires
        a.state is Some,
        a.state->0.retry_count < u32::MAX,
        failure_actions(a, error).contains(Action::SetTimer { timer, ms }),
    ensures
        timer == TimerId::Poll,
        error != PollError::RequestFailed ==> ms == a.state->0.poll_interval_ms,
        error == PollError::RequestFailed ==> ms <= a.state->0.poll_interval_ms && (ms
            == a.state->0.poll_interval_ms || ms == 30_000 * pow2(a.state->0.retry_count as nat))
            && ms <= 30_000 * pow2(a.state->0.retry_count as nat),
{
    let s = a.state->0;
    let n = s.retry_count;
    let p = pow2(n as nat);
    assert(one_more(n) - 1 == n);
    assert(RETRY_BASE_MS * p == 30_000 * p) by (nonlinear_arith)
        requires
            RETRY_BASE_MS == 30_000,
    ;
}

/// The action starts the poll timer.
pub open spec fn sets_the_poll_timer(action: Action) -> bool {
    action matches Action::SetTimer { timer, .. } && timer == TimerId::Poll
}

/// After a failure fast polling and, where it was one to sign in, the countdown
/// and the pending poll are stopped before the timer is set anew.
pub proof fn failures_stop_timers(a: AppView, error: PollError)
    requires
        a.state is Some,
    ensures
        failure_actions(a, error).contains(Action::KillTimer { timer: TimerId::ResetPoll }),
        failure_actions(a, error).contains(Action::KillTimer { timer: TimerId::Countdown }) == (
        error != PollError::RequestFailed),
        error != PollError::RequestFailed ==> failure_actions(a, error)[0] == (Action::KillTimer {
            timer: TimerId::Poll,
        }),
        exists|i: int|
            0 <= i < failure_actions(a, error).len() && sets_the_poll_timer(
                #[trigger] failure_actions(a, error)[i],
            ),
{
    let actions = failure_actions(a, error);
    if error == PollError::RequestFailed {
        assert(actions[0] == (Action::KillTimer { timer: TimerId::ResetPoll }));
        assert(sets_the_poll_timer(actions[1]));
    } else {
        assert(actions[1] == (Action::KillTimer { timer: TimerId::ResetPoll }));
        assert(actions[2] == (Action::KillTimer { timer: TimerId::Countdown }));
        assert(sets_the_poll_timer(actions[3]));
    }
}

/// The balloon is about the first model wherever that is shown, else about the
/// second; title and body are about the same one.
pub proof fn balloons_are_about_a_shown_model(s: AppStateView, catalog: Catalog)
    requires
        s.show_claude_code || s.show_codex,
    ensures
        ({
            let strings = catalog.entry(s.language).strings;
            let balloon = auth_balloon(s.show_claude_code, strings);
            &&& s.show_claude_code ==> balloon.title == strings.token_expired_title && balloon.body
                == strings.token_expired_body
            &&& !s.show_claude_code ==> balloon.title == strings.codex_token_expired_title
                && balloon.body == strings.codex_token_expired_body
        }),
{
}

/// A look at the credentials leads to a poll just where they look different, and
/// then that is what they are next compared with, if polling still pauses for
/// credentials of this kind; it changes nothing else.
pub proof fn changed_credentials_lead_to_a_poll(
    a: AppView,
    mode: CredentialWatchMode,
    previous: Seq<Seq<char>>,
    current: Seq<Seq<char>>,
)
    requires
        a.state is Some,
    ensures
        ({
            let (b, actions) = credentials_compared(a, mode, previous, current);
            let s = a.state->0;
            let t = b.state->0;
            &&& b.state is Some && b.dpi == a.dpi
            &&& actions.contains(Action::StartPoll) == (current != previous)
            &&& actions.len() <= 1
            &&& t.auth_watch_snapshot == if current != previous && s.auth_error_paused_polling
                && s.auth_watch_mode == mode {
                current
            } else {
                s.auth_watch_snapshot
            }
            &&& t.auth_error_paused_polling == s.auth_error_paused_polling && t.auth_watch_mode
                == s.auth_watch_mode && t.retry_count == s.retry_count
                && t.force_notify_auth_error == s.force_notify_auth_error && t.last_poll_ok
                == s.last_poll_ok
            &&& same_choices(s, t)
            &&& same_percentages(s, t)
            &&& same_texts(s, t)
            &&& same_updates(s, t)
            &&& same_place(s, t)
            &&& same_drag(s, t)
        }),
{
    let (b, actions) = credentials_compared(a, mode, previous, current);
    if current != previous {
        assert(actions[0] == Action::StartPoll);
    }
}

/// Without a pause the poll timer leads to a poll; during one to a comparison
/// with what the credentials looked like; without a state to nothing.
pub proof fn the_poll_timer_polls_unless_paused(a: AppView)
    ensures
        a.state is None ==> poll_timer_of(a) == PollTimerView::Ignore,
        a.state matches Some(s) ==> (poll_timer_of(a) == PollTimerView::Poll)
            == !s.auth_error_paused_polling,
        a.state matches Some(s) ==> s.auth_error_paused_polling ==> poll_timer_of(a) == (
        PollTimerView::Compare { mode: s.auth_watch_mode, previous: s.auth_watch_snapshot }),
{
}

/// A delay that some model with data has.
pub open spec fn is_awaited(data: AppUsageData, delays: DisplayDelays, ms: u128) -> bool {
    ||| data.claude_code is Some && (delays.session == Some(ms) || delays.weekly == Some(ms))
    ||| data.codex is Some && (delays.codex_session == Some(ms) || delays.codex_weekly == Some(ms))
}

/// The pause before the countdown is looked at again is that until a change of a
/// model with data, a second where the change comes sooner, and a minute where no
/// change is awaited. No awaited change of at least a second comes before it.
pub proof fn the_countdown_pauses_until_a_change(
    data: AppUsageData,
    delays: DisplayDelays,
    other: u128,
)
    ensures
        ({
            let pause = countdown_pause(data, delays);
            &&& (exists|ms: u128| #[trigger] is_awaited(data, delays, ms)) ==> is_awaited(
                data,
                delays,
                pause,
            ) || pause == 1_000
            &&& !(exists|ms: u128| #[trigger] is_awaited(data, delays, ms)) ==> pause == 60_000
            &&& pause == 1_000 ==> exists|ms: u128|
                #[trigger] is_awaited(data, delays, ms) && ms <= 1_000
            &&& is_awaited(data, delays, other) && other >= 1_000 ==> pause <= other
        }),
{
    let pause = countdown_pause(data, delays);
    match next_change(data, delays) {
        Some(ms) => {
            assert(is_awaited(data, delays, ms));
        },
        None => {
            assert forall|ms: u128| !#[trigger] is_awaited(data, delays, ms) by {}
        },
    }
}

/// After a failed poll the countdown and fast polling are stopped; after an
/// answer the countdown's timer is set, and polling is fast, every five seconds,
/// just where a limit is past its reset.
pub proof fn the_countdown_runs_after_an_answer(
    a: AppView,
    s: AppStateView,
    past_reset: bool,
    delays: DisplayDelays,
)
    requires
        a.state == Some(s),
    ensures
        ({
            let actions = countdown_actions(a, past_reset, delays);
            let fast = Action::SetTimer { timer: TimerId::ResetPoll, ms: 5_000 };
            &&& !s.last_poll_ok ==> actions == seq![
                Action::KillTimer { timer: TimerId::Countdown },
                Action::KillTimer { timer: TimerId::ResetPoll },
            ]
            &&& s.last_poll_ok && s.data is Some ==> {
                &&& actions.last() == (Action::SetTimer {
                    timer: TimerId::Countdown,
                    ms: countdown_timer_ms(s.data->0, delays),
                })
                &&& actions.len() == if past_reset {
                    2nat
                } else {
                    1nat
                }
                &&& past_reset ==> actions[0] == fast
            }
        }),
{
}

/// The view of what the poll timer leads to tells it.
pub proof fn the_view_tells_the_poll_timer(timer: PollTimer)
    ensures
        timer is Ignore == (timer@ is Ignore),
        timer is Poll == (timer@ is Poll),
        timer matches PollTimer::Compare { mode, previous } ==> timer@ == (PollTimerView::Compare {
            mode,
            previous: snapshot_view(previous@),
        }),
{
}

/// Before there is a state, an answer or a failure is only told to the window,
/// and no countdown runs; nor does one run without data.
pub proof fn nothing_runs_before_the_state(
    dpi: u32,
    s: AppStateView,
    error: PollError,
    past_reset: bool,
    delays: DisplayDelays,
)
    ensures
        ({
            let a = AppView { dpi, state: None };
            let b = AppView { dpi, state: Some(s) };
            &&& answer_actions(a, past_reset) == seq![Action::PostUsageUpdated]
            &&& failure_actions(a, error) == seq![Action::PostUsageUpdated]
            &&& countdown_actions(a, past_reset, delays).len() == 0
            &&& s.last_poll_ok && s.data is None ==> countdown_actions(b, past_reset, delays).len()
                == 0
        }),
{
}

/// A pause that a timer cannot take is cut by whole multiples of 2^32
/// milliseconds.
pub proof fn long_pauses_are_cut(data: AppUsageData, delays: DisplayDelays)
    ensures
        (countdown_pause(data, delays) - countdown_timer_ms(data, delays)) % 0x1_0000_0000 == 0,
        countdown_timer_ms(data, delays) <= countdown_pause(data, delays),
{
}

} // verus!
