use ai_usage_monitor::action::{Action, TimerId};
use ai_usage_monitor::command::{decode_command, language_menu_id, Command, Model};
use ai_usage_monitor::launch::{initial_window, WindowPlace};
use ai_usage_monitor::geometry::{Point, Screen};
use ai_usage_monitor::locale::{Catalog, Language, LanguageId, Strings};
use ai_usage_monitor::message::{
    decode_message, Message, Reply, ShellIds, TrayAction, WM_APP, WM_APP_UPDATE_CHECK_COMPLETE,
    WM_COMMAND, WM_DESTROY, WM_DISPLAYCHANGE, WM_DPICHANGED_MSG, WM_ERASEBKGND, WM_LBUTTONDOWN,
    WM_LBUTTONUP, WM_MOUSEMOVE, WM_PAINT, WM_RBUTTONUP, WM_SETCURSOR, WM_SETTINGCHANGE, WM_TIMER,
};
use ai_usage_monitor::settings::{
    default_layout_horizontal, default_poll_interval, default_show_claude_code,
    default_show_codex, default_widget_visible, load_settings, settings_path, SettingsFile,
};
use ai_usage_monitor::state::{App, AppState, AppUsageData, ModelUsage, UsageLines, UsageSection};

fn english() -> Strings {
    Strings {
        window_title: "AI Usage Monitor",
        session_window: "5h",
        weekly_window: "7d",
        refresh: "Refresh",
        update_frequency: "Update Frequency",
        one_minute: "1 Minute",
        five_minutes: "5 Minutes",
        fifteen_minutes: "15 Minutes",
        one_hour: "1 Hour",
        models: "Models",
        claude_code_model: "First Model",
        codex_model: "Second Model",
        layout: "Layout",
        layout_side_by_side: "Side by side",
        layout_stacked: "Stacked",
        settings: "Settings",
        start_with_windows: "Start with Windows",
        reset_position: "Reset Position",
        always_on_top: "Always on Top",
        language: "Language",
        system_default: "System Default",
        show_widget: "Show Widget",
        exit: "Exit",
        check_for_updates: "Check for Updates",
        checking_for_updates: "Checking",
        applying_update: "Applying",
        up_to_date_short: "Up to date",
        update_to: "Update to",
        updates: "Updates",
        update_in_progress: "An update is in progress.",
        up_to_date: "You are up to date.",
        update_failed: "Update failed",
        update_available: "Update available",
        update_prompt_now: "Version {version} is here. Install {version} now?",
        token_expired_title: "First token",
        token_expired_body: "Sign in to the first.",
        codex_token_expired_title: "Second token",
        codex_token_expired_body: "Sign in to the second.",
    }
}

fn language(code: &'static str, native_name: &'static str, window_title: &'static str) -> Language {
    Language { code, native_name, strings: Strings { window_title, ..english() } }
}

fn catalog() -> Catalog {
    Catalog {
        english: language("en", "English", "AI Usage Monitor"),
        czech: language("cs", "Čeština", "Monitor AI"),
        dutch: language("nl", "Nederlands", "AI-monitor"),
        spanish: language("es", "Español", "Monitor de IA"),
        french: language("fr", "Français", "Moniteur IA"),
        german: language("de", "Deutsch", "KI-Monitor"),
        japanese: language("ja", "日本語", "AIモニター"),
        korean: language("ko", "한국어", "AI 모니터"),
        traditional_chinese: language("zh-TW", "繁體中文", "AI 監視器"),
        all: vec![LanguageId::English, LanguageId::Czech, LanguageId::TraditionalChinese],
        claude_code_card: "First Card",
    }
}

const SCREEN: Screen = Screen { x: 0, y: 0, width: 1920, height: 1080 };

const PLACE: WindowPlace = WindowPlace { x: 3, y: 4, width: 302, height: 188 };

const IDS: ShellIds = ShellIds {
    usage_updated: 0x8001,
    tray: 0x8003,
    timer_poll: 1,
    timer_countdown: 2,
    timer_reset_poll: 3,
    timer_update_check: 4,
    toggle_widget: 200,
};

fn app() -> App {
    let mut app = App::new();
    app.start(&SettingsFile::default(), true, None, LanguageId::English, PLACE);
    app
}

fn state(app: &App) -> &AppState {
    app.state.as_ref().unwrap()
}

fn lines(session: &str) -> UsageLines {
    UsageLines {
        session: session.to_string(),
        weekly: "w".to_string(),
        codex_session: "cs".to_string(),
        codex_weekly: "cw".to_string(),
    }
}

fn answer() -> AppUsageData {
    let section = UsageSection { percentage: 0, resets_at: None };
    AppUsageData {
        claude_code: Some(ModelUsage { session: section, weekly: section }),
        codex: None,
    }
}

#[test]
fn a_first_run_has_default_settings() {
    let s = load_settings(None);
    assert_eq!(s.window_x, None);
    assert_eq!(s.window_y, None);
    assert_eq!(s.poll_interval_ms, 900_000);
    assert_eq!(s.language, None);
    assert_eq!(s.last_update_check_unix, None);
    assert!(s.widget_visible && s.show_claude_code && !s.show_codex);
    assert!(s.layout_horizontal && !s.always_on_top);
    assert_eq!(default_poll_interval(), 900_000);
    assert!(default_widget_visible() && default_show_claude_code());
    assert!(!default_show_codex() && default_layout_horizontal());
}

#[test]
fn loaded_settings_show_a_model() {
    let none = SettingsFile { show_claude_code: false, ..SettingsFile::default() };
    let s = load_settings(Some(none));
    assert!(s.show_claude_code && !s.show_codex);
    let codex = SettingsFile {
        show_claude_code: false,
        show_codex: true,
        poll_interval_ms: 5,
        ..SettingsFile::default()
    };
    let s = load_settings(Some(codex));
    assert!(!s.show_claude_code && s.show_codex);
    assert_eq!(s.poll_interval_ms, 5);
}

#[test]
fn settings_have_their_file() {
    assert_eq!(
        settings_path(Some("C:\\Roaming".to_string())),
        vec!["C:\\Roaming", "AIUsageMonitor", "settings.json"]
    );
    assert_eq!(settings_path(None)[0], ".");
}

#[test]
fn a_run_begins_with_its_settings() {
    let mut app = App::new();
    assert_eq!(app.dpi, 96);
    assert!(app.state.is_none());
    assert!(app.save_state_settings(&catalog()).is_none());
    assert!(app.tray_icon_data(&catalog()).is_none());
    app.set_system_dpi(144);
    assert_eq!(app.dpi, 144);
    app.refresh_dpi(96);
    assert_eq!(app.dpi, 144);
    assert!(!app.render_layered(96));
    let settings = SettingsFile { always_on_top: true, ..SettingsFile::default() };
    let actions = app.start(&settings, true, None, LanguageId::English, PLACE);
    assert_eq!(
        actions,
        vec![
            Action::SetTopmost(true),
            Action::SyncTrayIcons,
            Action::Position,
            Action::ShowWindow,
            Action::Render,
            Action::SetTimer { timer: TimerId::Poll, ms: 900_000 },
            Action::StartPoll,
            Action::ScheduleUpdateCheck,
            Action::AutoUpdateCheck,
            Action::CheckTheme,
        ]
    );
    assert!(app.render_layered(120));
    assert_eq!(app.dpi, 120);
    app.refresh_dpi(0);
    assert_eq!(app.dpi, 120);
    assert_eq!(state(&app).session_text, "--");
    assert_eq!((state(&app).window_x, state(&app).window_y), (3, 4));
    assert_eq!(app.tray_icon_data(&catalog()), Some("AI Usage Monitor"));
    let hidden = SettingsFile { widget_visible: false, ..SettingsFile::default() };
    let actions = App::new().start(&hidden, true, None, LanguageId::English, PLACE);
    assert!(!actions.contains(&Action::ShowWindow));
    assert_eq!(actions.len(), 9);
}

#[test]
fn settings_come_back_in_the_next_run() {
    let mut app = app();
    app.handle_command(Command::ShowModel(Model::Codex));
    app.handle_command(Command::Layout { horizontal: false });
    app.handle_command(Command::Frequency { ms: 3_600_000 });
    app.handle_command(Command::AlwaysOnTop);
    app.handle_command(Command::ToggleWidget);
    app.apply_language(
        Some(LanguageId::Czech),
        LanguageId::Czech,
        lines("x"),
        &catalog(),
        "1.0",
    );
    app.begin_drag(Point { x: 0, y: 0 });
    app.drag_to(Point { x: 100, y: 50 }, SCREEN);
    app.release();
    let saved = app.save_state_settings(&catalog()).unwrap();
    assert_eq!(saved.language.as_deref(), Some("cs"));
    assert_eq!((saved.window_x, saved.window_y), (Some(103), Some(54)));
    let settings = load_settings(Some(saved));
    let place = initial_window(&settings, 96, SCREEN);
    assert_eq!(place, WindowPlace { x: 103, y: 54, width: 302, height: 326 });
    let mut next = App::new();
    next.start(&settings, false, Some(LanguageId::Czech), LanguageId::Czech, place);
    let s = state(&next);
    assert!(s.show_claude_code && s.show_codex && !s.layout_horizontal);
    assert!(s.always_on_top && !s.widget_visible);
    assert_eq!(s.poll_interval_ms, 3_600_000);
    let again = next.save_state_settings(&catalog()).unwrap();
    assert_eq!(again.language.as_deref(), Some("cs"));
    assert_eq!((again.window_x, again.window_y), (Some(103), Some(54)));
}

#[test]
fn the_theme_is_taken_up() {
    let mut app = app();
    assert!(!app.check_theme_change(true));
    assert!(app.check_theme_change(false));
    assert!(!state(&app).is_dark);
    assert!(!App::new().check_theme_change(false));
}

#[test]
fn a_language_is_taken_up() {
    let mut app = app();
    app.poll_succeeded(answer(), false, lines("42%"));
    let title = app.apply_language(
        Some(LanguageId::German),
        LanguageId::German,
        lines("42 %"),
        &catalog(),
        "1.4.0",
    );
    assert_eq!(title.as_deref(), Some("KI-Monitor 1.4"));
    assert_eq!(state(&app).session_text, "42 %");
    assert_eq!(state(&app).language_override, Some(LanguageId::German));
    assert_eq!(app.tray_icon_data(&catalog()), Some("KI-Monitor"));
    assert!(!app.system_language_is_news(LanguageId::Korean));
    let none = app.update_language_change(
        LanguageId::Korean,
        LanguageId::Korean,
        lines("x"),
        &catalog(),
        "1.4.0",
    );
    assert!(none.is_none());
    assert_eq!(state(&app).language, LanguageId::German);
    let nothing = App::new().apply_language(None, LanguageId::Dutch, lines("x"), &catalog(), "1");
    assert!(nothing.is_none());
}

#[test]
fn the_systems_language_is_followed_where_none_is_set() {
    let mut app = app();
    assert!(!app.system_language_is_news(LanguageId::English));
    assert!(app.system_language_is_news(LanguageId::French));
    let title = app.update_language_change(
        LanguageId::French,
        LanguageId::French,
        lines("x"),
        &catalog(),
        "1.4.1",
    );
    assert_eq!(title.as_deref(), Some("Moniteur IA 1.4.1"));
    assert_eq!(state(&app).language, LanguageId::French);
    assert_eq!(state(&app).language_override, None);
    assert!(!App::new().system_language_is_news(LanguageId::French));
}

#[test]
fn commands_have_their_numbers() {
    assert_eq!(decode_command(1, 200), Command::Refresh);
    assert_eq!(decode_command(2, 200), Command::Exit);
    assert_eq!(decode_command(10, 200), Command::Frequency { ms: 60_000 });
    assert_eq!(decode_command(11, 200), Command::Frequency { ms: 300_000 });
    assert_eq!(decode_command(12, 200), Command::Frequency { ms: 900_000 });
    assert_eq!(decode_command(13, 200), Command::Frequency { ms: 3_600_000 });
    assert_eq!(decode_command(20, 200), Command::StartWithWindows);
    assert_eq!(decode_command(30, 200), Command::ResetPosition);
    assert_eq!(decode_command(31, 200), Command::VersionAction);
    assert_eq!(decode_command(32, 200), Command::AlwaysOnTop);
    assert_eq!(decode_command(33, 200), Command::Layout { horizontal: true });
    assert_eq!(decode_command(34, 200), Command::Layout { horizontal: false });
    assert_eq!(decode_command(40, 200), Command::SetLanguage(None));
    assert_eq!(decode_command(60, 200), Command::ShowModel(Model::ClaudeCode));
    assert_eq!(decode_command(61, 200), Command::ShowModel(Model::Codex));
    assert_eq!(decode_command(200, 200), Command::ToggleWidget);
    assert_eq!(decode_command(201, 200), Command::Unknown);
    // A number that is taken is not the toggle's.
    assert_eq!(decode_command(1, 1), Command::Refresh);
    let languages = [
        LanguageId::English,
        LanguageId::Czech,
        LanguageId::Dutch,
        LanguageId::Spanish,
        LanguageId::French,
        LanguageId::German,
        LanguageId::Japanese,
        LanguageId::Korean,
        LanguageId::TraditionalChinese,
    ];
    for (i, language) in languages.iter().enumerate() {
        assert_eq!(language_menu_id(*language), 41 + i as u16);
        let id = language_menu_id(*language);
        assert_eq!(decode_command(id, 200), Command::SetLanguage(Some(*language)));
    }
}

#[test]
fn commands_lead_to_their_actions() {
    let mut app = app();
    assert_eq!(
        app.handle_command(Command::Refresh),
        vec![Action::Render, Action::StartPoll]
    );
    assert_eq!(state(&app).codex_session_text, "...");
    assert!(state(&app).force_notify_auth_error);
    assert_eq!(app.handle_command(Command::VersionAction), vec![Action::VersionAction]);
    assert_eq!(app.handle_command(Command::Exit), vec![Action::Quit]);
    assert_eq!(
        app.handle_command(Command::ResetPosition),
        vec![Action::ResetPosition, Action::SaveSettings, Action::Position]
    );
    assert_eq!(
        app.handle_command(Command::Layout { horizontal: false }),
        vec![Action::SaveSettings, Action::Position, Action::Render]
    );
    assert!(!state(&app).layout_horizontal);
    assert_eq!(app.handle_command(Command::StartWithWindows), vec![Action::ToggleStartup]);
    assert_eq!(
        app.handle_command(Command::Frequency { ms: 60_000 }),
        vec![
            Action::SaveSettings,
            Action::SetTimer { timer: TimerId::Poll, ms: 60_000 },
        ]
    );
    assert_eq!(state(&app).poll_interval_ms, 60_000);
    assert_eq!(
        app.handle_command(Command::SetLanguage(None)),
        vec![Action::SetLanguage(None), Action::SaveSettings, Action::Render]
    );
    assert!(app.handle_command(Command::Unknown).is_empty());
}

#[test]
fn the_last_model_cannot_be_switched_off() {
    let mut app = app();
    let wanted = vec![
        Action::SaveSettings,
        Action::Position,
        Action::Render,
        Action::SyncTrayIcons,
        Action::StartPoll,
    ];
    assert_eq!(app.handle_command(Command::ShowModel(Model::ClaudeCode)), wanted);
    assert!(state(&app).show_claude_code && !state(&app).show_codex);
    assert_eq!(state(&app).session_text, "...");
    app.handle_command(Command::ShowModel(Model::Codex));
    assert!(state(&app).show_claude_code && state(&app).show_codex);
    app.handle_command(Command::ShowModel(Model::ClaudeCode));
    assert!(!state(&app).show_claude_code && state(&app).show_codex);
    app.handle_command(Command::ShowModel(Model::Codex));
    assert!(!state(&app).show_claude_code && state(&app).show_codex);
    app.handle_command(Command::ShowModel(Model::ClaudeCode));
    assert!(state(&app).show_claude_code && state(&app).show_codex);
}

#[test]
fn messages_are_read() {
    let read = |msg, wparam, lparam| decode_message(msg, wparam, lparam, &IDS);
    assert_eq!(read(WM_PAINT, 0, 0), Message::Paint);
    assert_eq!(read(WM_ERASEBKGND, 0, 0), Message::EraseBackground);
    assert_eq!(read(WM_DISPLAYCHANGE, 0, 0), Message::DisplayChanged);
    assert_eq!(
        read(WM_DPICHANGED_MSG, 0x0090_0078, 0),
        Message::DpiChanged { dpi: 0x78 }
    );
    assert_eq!(read(WM_SETTINGCHANGE, 0, 0), Message::SettingChanged);
    assert_eq!(read(WM_TIMER, 1, 0), Message::Timer(Some(TimerId::Poll)));
    assert_eq!(read(WM_TIMER, 2, 0), Message::Timer(Some(TimerId::Countdown)));
    assert_eq!(read(WM_TIMER, 3, 0), Message::Timer(Some(TimerId::ResetPoll)));
    assert_eq!(read(WM_TIMER, 4, 0), Message::Timer(Some(TimerId::UpdateCheck)));
    assert_eq!(read(WM_TIMER, 5, 0), Message::Timer(None));
    assert_eq!(read(0x8001, 0, 0), Message::UsageUpdated);
    assert_eq!(read(WM_APP_UPDATE_CHECK_COMPLETE, 0, 0), Message::UpdateCheckComplete);
    assert_eq!(read(WM_SETCURSOR, 0, 0), Message::SetCursor);
    assert_eq!(
        read(WM_LBUTTONDOWN, 0, 0x0014_000A),
        Message::LeftButtonDown { x: 10, y: 20 }
    );
    assert_eq!(
        read(WM_LBUTTONDOWN, 0, 0xFFFE_FFFF_u32 as i32 as isize),
        Message::LeftButtonDown { x: -1, y: -2 }
    );
    assert_eq!(
        read(WM_LBUTTONDOWN, 0, 0x7FFF_8000),
        Message::LeftButtonDown { x: -32768, y: 32767 }
    );
    assert_eq!(read(WM_MOUSEMOVE, 0, 0), Message::MouseMoved);
    assert_eq!(read(WM_LBUTTONUP, 0, 0), Message::LeftButtonUp);
    assert_eq!(read(WM_RBUTTONUP, 0, 0), Message::RightButtonUp);
    assert_eq!(read(WM_COMMAND, 0x0001_0001, 0), Message::Chosen(Command::Refresh));
    assert_eq!(read(WM_COMMAND, 200, 0), Message::Chosen(Command::ToggleWidget));
    assert_eq!(read(0x8003, 0, 0), Message::Tray);
    assert_eq!(read(WM_DESTROY, 0, 0), Message::Destroy);
    assert_eq!(read(0x0010, 0, 0), Message::Other);
}

#[test]
fn messages_have_the_numbers_of_windows() {
    assert_eq!(WM_APP, 32768);
    assert_eq!(WM_APP_UPDATE_CHECK_COMPLETE, 32770);
    assert_eq!(WM_COMMAND, 273);
    assert_eq!(WM_DESTROY, 2);
    assert_eq!(WM_DISPLAYCHANGE, 126);
    assert_eq!(WM_DPICHANGED_MSG, 736);
    assert_eq!(WM_ERASEBKGND, 20);
    assert_eq!(WM_LBUTTONDOWN, 513);
    assert_eq!(WM_LBUTTONUP, 514);
    assert_eq!(WM_MOUSEMOVE, 512);
    assert_eq!(WM_PAINT, 15);
    assert_eq!(WM_RBUTTONUP, 517);
    assert_eq!(WM_SETCURSOR, 32);
    assert_eq!(WM_SETTINGCHANGE, 26);
    assert_eq!(WM_TIMER, 275);
}

#[test]
fn messages_are_answered() {
    let mut app = app();
    let outcome = app.wnd_proc(Message::Paint);
    assert_eq!(outcome.actions, vec![Action::Paint]);
    assert_eq!(outcome.reply, Reply::Value(0));
    let outcome = app.wnd_proc(Message::EraseBackground);
    assert!(outcome.actions.is_empty());
    assert_eq!(outcome.reply, Reply::Value(1));
    let placing = vec![Action::RefreshDpi, Action::Position, Action::Render];
    assert_eq!(app.wnd_proc(Message::DisplayChanged).actions, placing);
    assert_eq!(app.wnd_proc(Message::DpiChanged { dpi: 168 }).actions, placing);
    assert_eq!(app.dpi, 168);
    assert_eq!(
        app.wnd_proc(Message::SettingChanged).actions,
        vec![
            Action::CheckTheme,
            Action::CheckLanguage,
            Action::RefreshDpi,
            Action::Position,
            Action::Render,
        ]
    );
    assert_eq!(
        app.wnd_proc(Message::Timer(Some(TimerId::Poll))).actions,
        vec![Action::PollTimer]
    );
    assert_eq!(
        app.wnd_proc(Message::Timer(Some(TimerId::Countdown))).actions,
        vec![Action::UpdateDisplay, Action::Render, Action::ScheduleCountdown]
    );
    assert_eq!(
        app.wnd_proc(Message::Timer(Some(TimerId::UpdateCheck))).actions,
        vec![Action::BeginUpdateCheck { interactive: false }]
    );
    assert!(app.wnd_proc(Message::Timer(None)).actions.is_empty());
    assert_eq!(
        app.wnd_proc(Message::UsageUpdated).actions,
        vec![
            Action::CheckTheme,
            Action::CheckLanguage,
            Action::Render,
            Action::ScheduleCountdown,
            Action::SyncTrayIcons,
        ]
    );
    assert_eq!(
        app.wnd_proc(Message::UpdateCheckComplete).actions,
        vec![Action::ScheduleUpdateCheck]
    );
    assert_eq!(
        app.wnd_proc(Message::RightButtonUp).actions,
        vec![Action::ShowContextMenu]
    );
    assert_eq!(app.wnd_proc(Message::Tray).actions, vec![Action::HandleTray]);
    assert_eq!(
        app.wnd_proc(Message::Destroy).actions,
        vec![Action::RemoveTrayIcons, Action::Quit]
    );
    assert_eq!(app.wnd_proc(Message::Other).reply, Reply::Standard);
    assert_eq!(
        app.wnd_proc(Message::Chosen(Command::Exit)).actions,
        vec![Action::Quit]
    );
}

#[test]
fn the_mouse_drags_only_while_its_button_is_down() {
    let mut app = app();
    assert!(app.wnd_proc(Message::MouseMoved).actions.is_empty());
    assert_eq!(app.wnd_proc(Message::SetCursor).reply, Reply::Standard);
    assert_eq!(
        app.wnd_proc(Message::LeftButtonDown { x: 5, y: 6 }).actions,
        vec![Action::PressAt { x: 5, y: 6 }]
    );
    app.begin_drag(Point { x: 5, y: 6 });
    assert_eq!(app.wnd_proc(Message::MouseMoved).actions, vec![Action::DragToCursor]);
    let outcome = app.wnd_proc(Message::SetCursor);
    assert_eq!(outcome.actions, vec![Action::ShowMoveCursor]);
    assert_eq!(outcome.reply, Reply::Value(1));
    assert_eq!(
        app.wnd_proc(Message::LeftButtonUp).actions,
        vec![Action::ReleaseMouse, Action::SaveSettings]
    );
    assert!(app.wnd_proc(Message::LeftButtonUp).actions.is_empty());
}

#[test]
fn the_tray_icon_toggles_the_widget_and_shows_the_menu() {
    let mut app = app();
    assert_eq!(
        app.tray_action(TrayAction::ToggleWidget),
        vec![Action::SaveSettings, Action::HideWindow]
    );
    assert_eq!(
        app.tray_action(TrayAction::ShowContextMenu),
        vec![Action::ShowContextMenu]
    );
    assert!(app.tray_action(TrayAction::Ignore).is_empty());
}

#[test]
fn a_run_keeps_its_state_sound() {
    let mut app = app();
    let commands = [60, 61, 60, 61, 33, 34, 1, 13, 200, 32, 61, 60];
    for (i, id) in commands.iter().enumerate() {
        app.wnd_proc(Message::Chosen(decode_command(*id, 200)));
        if i % 3 == 0 {
            app.poll_succeeded(answer(), false, lines("x"));
        }
        app.position_floating_window(96, SCREEN);
        let s = state(&app);
        assert!(s.show_claude_code || s.show_codex);
        if s.last_poll_ok {
            assert!(s.data.is_some());
            assert_eq!(s.retry_count, 0);
        }
    }
}

#[test]
fn mouse_points_are_read_back() {
    for x in [i16::MIN, -1, 0, 1, 250, i16::MAX] {
        for y in [i16::MIN, -7, 0, 9, i16::MAX] {
            let low = x as u16 as u32;
            let high = y as u16 as u32;
            let packed = (high << 16) | low;
            for lparam in [packed as isize, packed as i32 as isize] {
                assert_eq!(
                    decode_message(WM_LBUTTONDOWN, 0, lparam, &IDS),
                    Message::LeftButtonDown { x: x as i32, y: y as i32 }
                );
            }
        }
    }
}
