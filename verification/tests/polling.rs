use ai_usage_monitor::action::{Action, TimerId};
use ai_usage_monitor::command::Command;
use ai_usage_monitor::launch::WindowPlace;
use ai_usage_monitor::locale::{Catalog, Language, LanguageId, Strings};
use ai_usage_monitor::message::Message;
use ai_usage_monitor::poll::{backoff_ms, watch_mode, DisplayDelays, PollError, PollTimer};
use ai_usage_monitor::settings::SettingsFile;
use ai_usage_monitor::state::{
    App, AppState, AppUsageData, CredentialWatchMode, ModelUsage, UpdateStatus, UsageLines,
    UsageSection,
};
use ai_usage_monitor::update::{
    auto_update_check_due, busy, version_action_label, Dialog, UpdateStart, VersionAction,
};
use ai_usage_monitor::updater::{ReleaseDescriptor, UpdateCheckResult};

fn english() -> Strings {
    Strings {
        window_title: "AI Usage Monitor",
        session_window: "5h",
        weekly_window: "7d",
        refresh: "Refresh",
        update_frequency: "Update Frequency",
        one_minute: "1 Minute",
        five_minutes: "5 Minutes",
        fifteen_minutes: "15 Minutes",
        one_hour: "1 Hour",
        models: "Models",
        claude_code_model: "First Model",
        codex_model: "Second Model",
        layout: "Layout",
        layout_side_by_side: "Side by side",
        layout_stacked: "Stacked",
        settings: "Settings",
        start_with_windows: "Start with Windows",
        reset_position: "Reset Position",
        always_on_top: "Always on Top",
        language: "Language",
        system_default: "System Default",
        show_widget: "Show Widget",
        exit: "Exit",
        check_for_updates: "Check for Updates",
        checking_for_updates: "Checking",
        applying_update: "Applying",
        up_to_date_short: "Up to date",
        update_to: "Update to",
        updates: "Updates",
        update_in_progress: "An update is in progress.",
        up_to_date: "You are up to date.",
        update_failed: "Update failed",
        update_available: "Update available",
        update_prompt_now: "Version {version} is here. Install {version} now?",
        token_expired_title: "First token",
        token_expired_body: "Sign in to the first.",
        codex_token_expired_title: "Second token",
        codex_token_expired_body: "Sign in to the second.",
    }
}

fn language(code: &'static str, native_name: &'static str, window_title: &'static str) -> Language {
    Language { code, native_name, strings: Strings { window_title, ..english() } }
}

fn catalog() -> Catalog {
    Catalog {
        english: language("en", "English", "AI Usage Monitor"),
        czech: language("cs", "Čeština", "Monitor AI"),
        dutch: language("nl", "Nederlands", "AI-monitor"),
        spanish: language("es", "Español", "Monitor de IA"),
        french: language("fr", "Français", "Moniteur IA"),
        german: language("de", "Deutsch", "KI-Monitor"),
        japanese: language("ja", "日本語", "AIモニター"),
        korean: language("ko", "한국어", "AI 모니터"),
        traditional_chinese: language("zh-TW", "繁體中文", "AI 監視器"),
        all: vec![LanguageId::English, LanguageId::Czech, LanguageId::TraditionalChinese],
        claude_code_card: "First Card",
    }
}

fn app() -> App {
    let mut app = App::new();
    app.start(
        &SettingsFile::default(),
        true,
        None,
        LanguageId::English,
        WindowPlace { x: 0, y: 0, width: 302, height: 188 },
    );
    app
}

fn state(app: &App) -> &AppState {
    app.state.as_ref().unwrap()
}

fn usage(session: f64, weekly: f64) -> ModelUsage {
    ModelUsage {
        session: UsageSection { percentage: session.to_bits(), resets_at: Some(5) },
        weekly: UsageSection { percentage: weekly.to_bits(), resets_at: None },
    }
}

fn claude_data() -> AppUsageData {
    AppUsageData { claude_code: Some(usage(42.5, 7.0)), codex: None }
}

fn lines() -> UsageLines {
    UsageLines {
        session: "42%".to_string(),
        weekly: "7%".to_string(),
        codex_session: "cs".to_string(),
        codex_weekly: "cw".to_string(),
    }
}

fn snapshot(list: &[&str]) -> Vec<String> {
    let mut out = Vec::new();
    for line in list {
        out.push(line.to_string());
    }
    out
}

fn release() -> ReleaseDescriptor {
    ReleaseDescriptor { latest_version: "2.0.0".to_string(), asset_url: "u".to_string() }
}

const NO_DELAYS: DisplayDelays =
    DisplayDelays { session: None, weekly: None, codex_session: None, codex_weekly: None };

#[test]
fn the_shown_models_are_polled_for() {
    assert_eq!(app().poll_request(), (true, false));
    assert_eq!(App::new().poll_request(), (true, false));
    let mut both = app();
    both.state.as_mut().unwrap().show_codex = true;
    assert_eq!(both.poll_request(), (true, true));
}

#[test]
fn an_answer_is_shown() {
    let mut app = app();
    let actions = app.poll_succeeded(claude_data(), false, lines());
    assert_eq!(
        actions,
        vec![Action::KillTimer { timer: TimerId::ResetPoll }, Action::PostUsageUpdated]
    );
    let s = state(&app);
    assert_eq!(f64::from_bits(s.session_percent), 42.5);
    assert_eq!(f64::from_bits(s.weekly_percent), 7.0);
    assert_eq!(s.session_text, "42%");
    assert_eq!(s.weekly_text, "7%");
    assert_eq!(s.codex_session_text, "--");
    assert!(s.last_poll_ok);
    assert!(s.data.is_some());
    assert_eq!(
        app.poll_succeeded(claude_data(), true, lines()),
        vec![Action::PostUsageUpdated]
    );
    assert_eq!(
        App::new().poll_succeeded(claude_data(), false, lines()),
        vec![Action::PostUsageUpdated]
    );
}

#[test]
fn a_shown_model_without_data_has_no_percentages() {
    let mut app = app();
    app.poll_succeeded(claude_data(), false, lines());
    let codex = AppUsageData { claude_code: None, codex: Some(usage(90.0, 80.0)) };
    app.poll_succeeded(codex, false, lines());
    let s = state(&app);
    assert_eq!(f64::from_bits(s.session_percent), 0.0);
    assert_eq!(s.session_text, "!");
    assert_eq!(s.weekly_text, "!");
    assert_eq!(f64::from_bits(s.codex_session_percent), 90.0);
    assert_eq!(s.codex_weekly_text, "cw");
}

#[test]
fn failures_to_sign_in_pause_polling() {
    let cases = [
        (PollError::AuthRequired, CredentialWatchMode::ActiveSource),
        (PollError::TokenExpired, CredentialWatchMode::ActiveSource),
        (PollError::NoCredentials, CredentialWatchMode::AllSources),
    ];
    for (error, mode) in cases {
        assert_eq!(watch_mode(error), Some(mode));
        let mut app = app();
        let failure = app.poll_failed(error, snapshot(&["a 1"]), &catalog());
        assert_eq!(
            failure.actions,
            vec![
                Action::KillTimer { timer: TimerId::Poll },
                Action::KillTimer { timer: TimerId::ResetPoll },
                Action::KillTimer { timer: TimerId::Countdown },
                Action::SetTimer { timer: TimerId::Poll, ms: 900_000 },
                Action::NotifyBalloon,
                Action::PostUsageUpdated,
            ]
        );
        let balloon = failure.balloon.unwrap();
        assert_eq!((balloon.title, balloon.body), ("First token", "Sign in to the first."));
        let s = state(&app);
        assert!(s.auth_error_paused_polling && !s.last_poll_ok);
        assert_eq!(s.auth_watch_mode, mode);
        assert_eq!(s.auth_watch_snapshot, vec!["a 1"]);
        assert_eq!(s.session_text, "!");
        assert_eq!(s.codex_weekly_text, "!");
        assert_eq!(s.retry_count, 1);
    }
}

#[test]
fn a_failure_is_reported_once_until_it_is_asked_for() {
    let mut app = app();
    let error = PollError::TokenExpired;
    assert!(app.poll_failed(error, vec![], &catalog()).balloon.is_some());
    assert!(app.poll_failed(error, vec![], &catalog()).balloon.is_none());
    app.handle_command(Command::Refresh);
    assert!(app.poll_failed(error, vec![], &catalog()).balloon.is_some());
    assert!(app.poll_failed(error, vec![], &catalog()).balloon.is_none());
    app.poll_succeeded(claude_data(), false, lines());
    assert!(app.poll_failed(error, vec![], &catalog()).balloon.is_some());
    assert!(App::new().poll_failed(error, vec![], &catalog()).balloon.is_none());
}

#[test]
fn the_balloon_names_the_model_that_is_shown() {
    let mut app = app();
    let s = app.state.as_mut().unwrap();
    s.show_claude_code = false;
    s.show_codex = true;
    let balloon = app.poll_failed(PollError::AuthRequired, vec![], &catalog()).balloon.unwrap();
    assert_eq!((balloon.title, balloon.body), ("Second token", "Sign in to the second."));
}

#[test]
fn other_failures_are_retried_sooner() {
    let mut app = app();
    assert_eq!(watch_mode(PollError::RequestFailed), None);
    for ms in [30_000, 60_000, 120_000, 240_000, 480_000, 900_000, 900_000] {
        let failure = app.poll_failed(PollError::RequestFailed, vec![], &catalog());
        assert_eq!(
            failure.actions,
            vec![
                Action::KillTimer { timer: TimerId::ResetPoll },
                Action::SetTimer { timer: TimerId::Poll, ms },
                Action::PostUsageUpdated,
            ]
        );
        assert!(failure.balloon.is_none());
        assert_eq!(state(&app).session_text, "...");
        assert!(!state(&app).auth_error_paused_polling);
    }
    let actions = app.poll_succeeded(claude_data(), true, lines());
    assert_eq!(
        actions,
        vec![
            Action::SetTimer { timer: TimerId::Poll, ms: 900_000 },
            Action::PostUsageUpdated,
        ]
    );
    assert_eq!(state(&app).retry_count, 0);
}

#[test]
fn the_pause_doubles_as_far_as_it_can() {
    assert_eq!(backoff_ms(1), 30_000);
    assert_eq!(backoff_ms(2), 60_000);
    assert_eq!(backoff_ms(18), 3_932_160_000);
    assert_eq!(backoff_ms(19), u32::MAX);
    assert_eq!(backoff_ms(33), u32::MAX);
    assert_eq!(backoff_ms(u32::MAX), u32::MAX);
    for n in 1..18 {
        assert_eq!(backoff_ms(n + 1), 2 * backoff_ms(n));
    }
}

#[test]
fn failures_are_counted_as_far_as_a_number_reaches() {
    let mut app = app();
    app.state.as_mut().unwrap().retry_count = u32::MAX;
    app.poll_failed(PollError::RequestFailed, vec![], &catalog());
    assert_eq!(state(&app).retry_count, u32::MAX);
}

#[test]
fn a_failure_keeps_the_data_and_its_text_stays() {
    let mut app = app();
    app.poll_succeeded(claude_data(), false, lines());
    app.poll_failed(PollError::RequestFailed, vec![], &catalog());
    assert_eq!(f64::from_bits(state(&app).session_percent), 42.5);
    assert!(state(&app).data.is_some());
    app.update_display(lines());
    assert_eq!(state(&app).session_text, "...");
    app.poll_succeeded(claude_data(), false, lines());
    let later = UsageLines { session: "42% - 1m".to_string(), ..lines() };
    app.update_display(later);
    assert_eq!(state(&app).session_text, "42% - 1m");
}

#[test]
fn paused_polling_waits_for_the_credentials_to_change() {
    let mut app = app();
    assert!(matches!(app.poll_timer(), PollTimer::Poll));
    assert!(matches!(App::new().poll_timer(), PollTimer::Ignore));
    app.poll_failed(PollError::NoCredentials, snapshot(&["a 1", "b 2"]), &catalog());
    let (mode, previous) = match app.poll_timer() {
        PollTimer::Compare { mode, previous } => (mode, previous),
        _ => panic!(),
    };
    assert_eq!(mode, CredentialWatchMode::AllSources);
    assert_eq!(previous, vec!["a 1", "b 2"]);
    let same = snapshot(&["a 1", "b 2"]);
    assert!(app.credentials_seen(mode, previous.clone(), same).is_empty());
    let other = snapshot(&["a 1", "b 3"]);
    assert_eq!(app.credentials_seen(mode, previous.clone(), other), vec![Action::StartPoll]);
    assert_eq!(state(&app).auth_watch_snapshot, vec!["a 1", "b 3"]);
    assert!(state(&app).auth_error_paused_polling);
    // What was watched in another way is not what is watched now.
    let shorter = snapshot(&["a 1"]);
    let active = CredentialWatchMode::ActiveSource;
    assert_eq!(app.credentials_seen(active, previous, shorter), vec![Action::StartPoll]);
    assert_eq!(state(&app).auth_watch_snapshot, vec!["a 1", "b 3"]);
    app.poll_succeeded(claude_data(), false, lines());
    assert!(matches!(app.poll_timer(), PollTimer::Poll));
    assert!(state(&app).auth_watch_snapshot.is_empty());
}

#[test]
fn polling_past_a_reset_is_fast_unless_paused() {
    let mut app = app();
    let timer = Message::Timer(Some(TimerId::ResetPoll));
    assert_eq!(app.wnd_proc(timer).actions, vec![Action::StartPoll]);
    app.poll_failed(PollError::AuthRequired, vec![], &catalog());
    assert!(app.wnd_proc(timer).actions.is_empty());
}

#[test]
fn the_countdown_is_looked_at_when_it_changes() {
    let mut app = app();
    assert!(App::new().schedule_countdown_timer(false, NO_DELAYS).is_empty());
    assert_eq!(
        app.schedule_countdown_timer(true, NO_DELAYS),
        vec![
            Action::KillTimer { timer: TimerId::Countdown },
            Action::KillTimer { timer: TimerId::ResetPoll },
        ]
    );
    app.poll_succeeded(claude_data(), false, lines());
    let countdown = |ms| Action::SetTimer { timer: TimerId::Countdown, ms };
    assert_eq!(app.schedule_countdown_timer(false, NO_DELAYS), vec![countdown(60_000)]);
    assert_eq!(
        app.schedule_countdown_timer(true, NO_DELAYS),
        vec![Action::SetTimer { timer: TimerId::ResetPoll, ms: 5_000 }, countdown(60_000)]
    );
    let delays = DisplayDelays {
        session: Some(70_000),
        weekly: Some(45_000),
        codex_session: Some(1),
        codex_weekly: Some(2),
    };
    assert_eq!(app.schedule_countdown_timer(false, delays), vec![countdown(45_000)]);
    let soon = DisplayDelays { session: Some(3), ..NO_DELAYS };
    assert_eq!(app.schedule_countdown_timer(false, soon), vec![countdown(1_000)]);
    let far = DisplayDelays { session: Some(0x1_0000_0005), ..NO_DELAYS };
    assert_eq!(app.schedule_countdown_timer(false, far), vec![countdown(5)]);
    let both = AppUsageData { codex: Some(usage(1.0, 2.0)), ..claude_data() };
    app.poll_succeeded(both, false, lines());
    let delays = DisplayDelays { codex_weekly: Some(9_000), ..delays };
    let delays = DisplayDelays { codex_session: None, ..delays };
    assert_eq!(app.schedule_countdown_timer(false, delays), vec![countdown(9_000)]);
}

#[test]
fn a_check_begins_once() {
    let mut app = app();
    match app.begin_update_check(false, &catalog()) {
        UpdateStart::Started(strings) => assert_eq!(strings.updates, "Updates"),
        _ => panic!(),
    }
    assert!(busy(&state(&app).update_status));
    assert!(matches!(
        app.begin_update_check(false, &catalog()),
        UpdateStart::Busy(Dialog::Nothing)
    ));
    match app.begin_update_check(true, &catalog()) {
        UpdateStart::Busy(Dialog::Info { title, body }) => {
            assert_eq!((title.as_str(), body.as_str()), ("Updates", "An update is in progress."));
        }
        _ => panic!(),
    }
    match app.begin_update_apply(&catalog()) {
        UpdateStart::Busy(Dialog::Info { title, .. }) => assert_eq!(title, "Updates"),
        _ => panic!(),
    }
    assert!(matches!(App::new().begin_update_check(true, &catalog()), UpdateStart::Ignored));
    assert!(matches!(App::new().begin_update_apply(&catalog()), UpdateStart::Ignored));
}

#[test]
fn a_check_ends_with_what_it_found() {
    let mut app = app();
    app.begin_update_check(true, &catalog());
    let end = app.update_check_finished(
        77,
        Ok(UpdateCheckResult::Available(release())),
        true,
        &english(),
    );
    assert_eq!(
        end.actions,
        vec![Action::SaveSettings, Action::ShowDialog, Action::PostUpdateCheckComplete]
    );
    match end.dialog {
        Dialog::Prompt { title, body, release } => {
            assert_eq!(title, "Update available");
            assert_eq!(body, "Version 2.0.0 is here. Install 2.0.0 now?");
            assert_eq!(release.asset_url, "u");
        }
        _ => panic!(),
    }
    assert_eq!(state(&app).last_update_check_unix, Some(77));
    match app.version_action() {
        VersionAction::Apply(found) => assert_eq!(found.latest_version, "2.0.0"),
        VersionAction::Check => panic!(),
    }
}

#[test]
fn a_check_without_news_or_with_a_failure_says_so_only_if_asked() {
    let mut app = app();
    let end = app.update_check_finished(5, Ok(UpdateCheckResult::UpToDate), true, &english());
    match end.dialog {
        Dialog::Info { title, body } => {
            assert_eq!((title.as_str(), body.as_str()), ("Updates", "You are up to date."));
        }
        _ => panic!(),
    }
    assert!(matches!(state(&app).update_status, UpdateStatus::UpToDate));
    let end = app.update_check_finished(6, Err("offline".to_string()), true, &english());
    match end.dialog {
        Dialog::Error { title, body } => {
            assert_eq!((title.as_str(), body.as_str()), ("Updates", "Update failed.\n\noffline"));
        }
        _ => panic!(),
    }
    assert!(matches!(state(&app).update_status, UpdateStatus::Idle));
    assert_eq!(state(&app).last_update_check_unix, Some(6));
    let end = app.update_check_finished(7, Err("offline".to_string()), false, &english());
    assert_eq!(end.actions, vec![Action::SaveSettings, Action::PostUpdateCheckComplete]);
    assert!(matches!(end.dialog, Dialog::Nothing));
    assert!(matches!(app.version_action(), VersionAction::Check));
}

#[test]
fn an_update_that_fails_can_be_tried_again() {
    let mut app = app();
    assert!(matches!(app.begin_update_apply(&catalog()), UpdateStart::Started(_)));
    assert!(matches!(state(&app).update_status, UpdateStatus::Applying));
    let end = app.update_apply_finished(release(), Err("no room".to_string()), &english());
    assert_eq!(end.actions, vec![Action::ShowDialog, Action::PostUpdateCheckComplete]);
    match end.dialog {
        Dialog::Error { title, body } => {
            assert_eq!((title.as_str(), body.as_str()), ("Updates", "Update failed.\n\nno room"));
        }
        _ => panic!(),
    }
    assert!(matches!(app.version_action(), VersionAction::Apply(_)));
    let end = app.update_apply_finished(release(), Ok(()), &english());
    assert_eq!(end.actions, vec![Action::PostClose]);
    assert!(matches!(end.dialog, Dialog::Nothing));
}

#[test]
fn checks_are_a_day_apart() {
    assert!(auto_update_check_due(None, 0));
    assert!(!auto_update_check_due(Some(1_000), 87_399));
    assert!(auto_update_check_due(Some(1_000), 87_400));
    assert!(!auto_update_check_due(Some(1_000), 0));
    let mut app = app();
    assert!(app.update_check_is_due(5));
    assert!(!App::new().update_check_is_due(5));
    app.update_check_finished(1_000, Ok(UpdateCheckResult::UpToDate), false, &english());
    assert!(!app.update_check_is_due(87_399));
    assert!(app.update_check_is_due(87_400));
}

#[test]
fn the_next_check_is_scheduled() {
    let mut app = app();
    let kill = Action::KillTimer { timer: TimerId::UpdateCheck };
    let set = |ms| Action::SetTimer { timer: TimerId::UpdateCheck, ms };
    assert!(App::new().schedule_auto_update_check(0, 0).is_empty());
    assert_eq!(app.schedule_auto_update_check(0, 0), vec![kill]);
    app.state.as_mut().unwrap().last_update_check_unix = Some(1_000);
    assert_eq!(app.schedule_auto_update_check(1_000, 1_000), vec![kill, set(86_400_000)]);
    assert_eq!(app.schedule_auto_update_check(87_399, 87_399), vec![kill, set(1_000)]);
    assert_eq!(app.schedule_auto_update_check(87_399, 87_400), vec![kill, set(1)]);
    assert_eq!(app.schedule_auto_update_check(87_400, 87_400), vec![kill]);
    assert_eq!(app.schedule_auto_update_check(0, 0), vec![kill, set(86_400_000)]);
}

#[test]
fn the_version_is_labelled_with_what_can_be_done() {
    let strings = english();
    let label = |status: UpdateStatus| version_action_label(&strings, &status, "1.4.0");
    assert_eq!(label(UpdateStatus::Idle), "v1.4 - Check for Updates");
    assert_eq!(label(UpdateStatus::Checking), "v1.4 - Checking");
    assert_eq!(label(UpdateStatus::Applying), "v1.4 - Applying");
    assert_eq!(label(UpdateStatus::UpToDate), "v1.4 - Up to date");
    assert_eq!(label(UpdateStatus::Available(release())), "v1.4 - Update to v2.0.0");
}

#[test]
fn update_work_goes_on_until_its_end() {
    let mut app = app();
    app.begin_update_check(false, &catalog());
    app.wnd_proc(Message::Chosen(Command::Refresh));
    app.wnd_proc(Message::LeftButtonUp);
    app.poll_succeeded(claude_data(), false, lines());
    app.poll_failed(PollError::RequestFailed, vec![], &catalog());
    app.toggle_widget_visibility();
    app.update_display(lines());
    app.begin_update_apply(&catalog());
    assert!(matches!(state(&app).update_status, UpdateStatus::Checking));
    app.update_check_finished(1, Ok(UpdateCheckResult::UpToDate), false, &english());
    assert!(!busy(&state(&app).update_status));
}

#[test]
fn polling_changes_no_setting() {
    let mut app = app();
    let before = app.save_state_settings(&catalog()).unwrap();
    app.poll_failed(PollError::AuthRequired, snapshot(&["x"]), &catalog());
    app.credentials_seen(CredentialWatchMode::ActiveSource, snapshot(&["x"]), vec![]);
    app.poll_succeeded(claude_data(), false, lines());
    let after = app.save_state_settings(&catalog()).unwrap();
    assert_eq!(before.poll_interval_ms, after.poll_interval_ms);
    assert_eq!((before.window_x, before.window_y), (after.window_x, after.window_y));
    assert_eq!(before.language, after.language);
    assert_eq!(before.last_update_check_unix, after.last_update_check_unix);
    assert_eq!(before.show_claude_code, after.show_claude_code);
    assert_eq!(before.show_codex, after.show_codex);
    assert_eq!(before.layout_horizontal, after.layout_horizontal);
    assert_eq!(before.widget_visible, after.widget_visible);
    assert_eq!(before.always_on_top, after.always_on_top);
}
