use ai_usage_monitor::action::Action;
use ai_usage_monitor::command::{decode_command, language_menu_id, Command, Model};
use ai_usage_monitor::geometry::{
    active_model_count, clamp_floating_position, clamp_is_safe, close_button_is_safe,
    close_button_rect, contains, default_floating_position, default_place_is_safe, sc,
    total_widget_height_for, total_widget_width_for, Point, Rect, Screen,
};
use ai_usage_monitor::launch::{initial_window, may_run, WindowPlace};
use ai_usage_monitor::locale::{Catalog, Language, LanguageId, Strings};
use ai_usage_monitor::menu::{Mark, MenuEntry, MenuId, MenuItem};
use ai_usage_monitor::paint::{
    bar_fill, color, draw_usage_row, Align, Color, DrawOp, Font, TextColor,
    TextStyle, DRAWABLE_DPI,
};
use ai_usage_monitor::settings::SettingsFile;
use ai_usage_monitor::state::{App, UpdateStatus};
use ai_usage_monitor::updater::ReleaseDescriptor;
use ai_usage_monitor::window::app_title;

fn english() -> Strings {
    Strings {
        window_title: "AI Usage Monitor",
        session_window: "5h",
        weekly_window: "7d",
        refresh: "Refresh",
        update_frequency: "Update Frequency",
        one_minute: "1 Minute",
        five_minutes: "5 Minutes",
        fifteen_minutes: "15 Minutes",
        one_hour: "1 Hour",
        models: "Models",
        claude_code_model: "First Model",
        codex_model: "Second Model",
        layout: "Layout",
        layout_side_by_side: "Side by side",
        layout_stacked: "Stacked",
        settings: "Settings",
        start_with_windows: "Start with Windows",
        reset_position: "Reset Position",
        always_on_top: "Always on Top",
        language: "Language",
        system_default: "System Default",
        show_widget: "Show Widget",
        exit: "Exit",
        check_for_updates: "Check for Updates",
        checking_for_updates: "Checking",
        applying_update: "Applying",
        up_to_date_short: "Up to date",
        update_to: "Update to",
        updates: "Updates",
        update_in_progress: "An update is in progress.",
        up_to_date: "You are up to date.",
        update_failed: "Update failed",
        update_available: "Update available",
        update_prompt_now: "Version {version} is here. Install {version} now?",
        token_expired_title: "First token",
        token_expired_body: "Sign in to the first.",
        codex_token_expired_title: "Second token",
        codex_token_expired_body: "Sign in to the second.",
    }
}

fn language(code: &'static str, native_name: &'static str, window_title: &'static str) -> Language {
    Language { code, native_name, strings: Strings { window_title, ..english() } }
}

fn catalog() -> Catalog {
    Catalog {
        english: language("en", "English", "AI Usage Monitor"),
        czech: language("cs", "Čeština", "Monitor AI"),
        dutch: language("nl", "Nederlands", "AI-monitor"),
        spanish: language("es", "Español", "Monitor de IA"),
        french: language("fr", "Français", "Moniteur IA"),
        german: language("de", "Deutsch", "KI-Monitor"),
        japanese: language("ja", "日本語", "AIモニター"),
        korean: language("ko", "한국어", "AI 모니터"),
        traditional_chinese: language("zh-TW", "繁體中文", "AI 監視器"),
        all: vec![LanguageId::English, LanguageId::Czech, LanguageId::TraditionalChinese],
        claude_code_card: "First Card",
    }
}

const SCREEN: Screen = Screen { x: 0, y: 0, width: 1920, height: 1080 };

const TOGGLE: u16 = 200;

fn started(settings: &SettingsFile, place: WindowPlace) -> App {
    let mut app = App::new();
    app.start(settings, true, None, LanguageId::English, place);
    app
}

fn default_app() -> App {
    started(&SettingsFile::default(), WindowPlace { x: 100, y: 200, width: 302, height: 188 })
}

fn place_of(app: &App) -> (i32, i32) {
    let s = app.state.as_ref().unwrap();
    (s.window_x, s.window_y)
}

#[test]
fn lengths_are_scaled_to_the_nearest_pixel() {
    assert_eq!(sc(14, 96), 14);
    assert_eq!(sc(14, 144), 21);
    assert_eq!(sc(1, 144), 2);
    assert_eq!(sc(-1, 144), -2);
    assert_eq!(sc(-15, 120), -19);
    assert_eq!(sc(0, 192), 0);
    assert_eq!(sc(100, 0), 0);
    assert_eq!(sc(i32::MAX, u32::MAX), i32::MAX);
    assert_eq!(sc(i32::MIN, u32::MAX), i32::MIN);
}

#[test]
fn lengths_are_scaled_as_floating_point_has_it() {
    for px in [-468, -15, -1, 0, 1, 9, 22, 126, 468, i32::MAX, i32::MIN] {
        for dpi in [0, 1, 48, 95, 96, 97, 120, 144, 168, 192, 288, 1000, u32::MAX] {
            let wanted = (px as f64 * dpi as f64 / 96.0).round() as i32;
            assert_eq!(sc(px, dpi), wanted, "{px} at {dpi}");
        }
    }
}

#[test]
fn scaling_keeps_order_and_sign() {
    for dpi in [1, 96, 144, 250] {
        for px in 0..300 {
            assert!(sc(px, dpi) <= sc(px + 1, dpi));
            assert!(sc(px, dpi) <= sc(px, dpi + 1));
            assert_eq!(sc(-px, dpi), -sc(px, dpi));
        }
    }
}

#[test]
fn the_widget_makes_room_for_its_cards() {
    assert_eq!(active_model_count(true, true), 2);
    assert_eq!(active_model_count(true, false), 1);
    assert_eq!(active_model_count(false, true), 1);
    assert_eq!(active_model_count(false, false), 1);
    assert_eq!(total_widget_width_for(1, true, 96), 302);
    assert_eq!(total_widget_width_for(2, true, 96), 468);
    assert_eq!(total_widget_width_for(2, false, 96), 302);
    assert_eq!(total_widget_height_for(1, true, 96), 188);
    assert_eq!(total_widget_height_for(2, true, 96), 188);
    assert_eq!(total_widget_height_for(2, false, 96), 326);
    assert_eq!(total_widget_height_for(0, false, 96), 62);
    assert_eq!(total_widget_width_for(2, true, 144), 702);
}

#[test]
fn the_default_place_is_near_the_lower_right_corner() {
    assert_eq!(default_floating_position(302, 188, SCREEN, 96), (1602, 828));
    let small = Screen { x: -10, y: 5, width: 200, height: 100 };
    assert_eq!(default_floating_position(302, 188, small, 96), (-10, 21));
}

#[test]
fn a_window_is_held_to_the_screen() {
    assert_eq!(clamp_floating_position(10, 20, 302, 188, SCREEN), (10, 20));
    assert_eq!(clamp_floating_position(-5, 5000, 302, 188, SCREEN), (0, 892));
    assert_eq!(clamp_floating_position(5000, -5, 302, 188, SCREEN), (1618, 0));
    let left = Screen { x: -1920, y: -100, width: 3840, height: 1080 };
    assert_eq!(clamp_floating_position(-3000, 900, 302, 188, left), (-1920, 792));
    let tiny = Screen { x: 7, y: 8, width: 10, height: 10 };
    assert_eq!(clamp_floating_position(100, 100, 302, 188, tiny), (7, 8));
    let (x, y) = clamp_floating_position(5000, -5, 302, 188, SCREEN);
    assert_eq!(clamp_floating_position(x, y, 302, 188, SCREEN), (x, y));
    let (x, y) = default_floating_position(302, 188, SCREEN, 96);
    assert_eq!(clamp_floating_position(x, y, 302, 188, SCREEN), (x, y));
}

#[test]
fn what_cannot_be_computed_is_told() {
    assert!(clamp_is_safe(302, 188, SCREEN));
    assert!(default_place_is_safe(302, 188, SCREEN, 96));
    let far = Screen { x: i32::MAX, y: 0, width: 1920, height: 1080 };
    assert!(!clamp_is_safe(302, 188, far));
    assert!(!default_place_is_safe(302, 188, far, 96));
    assert!(!default_place_is_safe(302, 188, Screen { width: i32::MIN, ..SCREEN }, 96));
    assert!(close_button_is_safe(302, 96));
    assert!(!close_button_is_safe(i32::MIN, 96));
}

#[test]
fn the_close_button_is_in_the_title_bar() {
    let r = close_button_rect(302, 96);
    assert_eq!(r, Rect { left: 272, top: 6, right: 294, bottom: 28 });
    assert!(contains(r, 272, 6));
    assert!(contains(r, 293, 27));
    assert!(!contains(r, 294, 6));
    assert!(!contains(r, 272, 28));
    assert!(!contains(r, 271, 10));
    assert!(!contains(r, 280, 5));
}

#[test]
fn only_one_program_runs() {
    assert!(may_run(true, false));
    assert!(!may_run(true, true));
    assert!(!may_run(false, false));
}

#[test]
fn the_first_window_stands_where_the_settings_say() {
    let mut settings = SettingsFile::default();
    assert_eq!(
        initial_window(&settings, 96, SCREEN),
        WindowPlace { x: 1602, y: 828, width: 302, height: 188 }
    );
    settings.window_x = Some(40);
    settings.window_y = Some(9999);
    settings.show_codex = true;
    assert_eq!(
        initial_window(&settings, 96, SCREEN),
        WindowPlace { x: 40, y: 892, width: 468, height: 188 }
    );
    settings.layout_horizontal = false;
    settings.window_y = None;
    assert_eq!(
        initial_window(&settings, 96, SCREEN),
        WindowPlace { x: 40, y: 690, width: 302, height: 326 }
    );
}

#[test]
fn placing_holds_the_window_to_the_screen() {
    let mut app = started(
        &SettingsFile::default(),
        WindowPlace { x: 5000, y: -50, width: 302, height: 188 },
    );
    assert!(app.position_is_safe(192, SCREEN));
    let actions = app.position_floating_window(192, SCREEN);
    assert_eq!(
        actions,
        vec![
            Action::MoveWindow { x: 1316, y: 0, width: 604, height: 376 },
            Action::SetTopmost(false),
        ]
    );
    assert_eq!(app.dpi, 192);
    assert_eq!(place_of(&app), (1316, 0));
    app.position_floating_window(0, SCREEN);
    assert_eq!(app.dpi, 192);
    assert!(App::new().position_floating_window(192, SCREEN).is_empty());
}

#[test]
fn the_default_place_can_be_taken_up_again() {
    let mut app = default_app();
    assert!(app.reset_is_safe(SCREEN));
    app.reset_position(SCREEN);
    assert_eq!(place_of(&app), (1602, 828));
}

#[test]
fn the_window_is_dragged_with_the_cursor() {
    let mut app = default_app();
    let actions = app.press_at(20, 20, 302);
    assert_eq!(actions, vec![Action::BeginDrag, Action::CaptureMouse]);
    app.begin_drag(Point { x: 120, y: 220 });
    assert!(app.drag_is_safe(Point { x: 170, y: 200 }, SCREEN));
    let actions = app.drag_to(Point { x: 170, y: 200 }, SCREEN);
    assert_eq!(actions, vec![Action::MoveWindow { x: 150, y: 180, width: 302, height: 188 }]);
    app.drag_to(Point { x: -9000, y: 9000 }, SCREEN);
    assert_eq!(place_of(&app), (0, 892));
    app.drag_to(Point { x: 120, y: 220 }, SCREEN);
    assert_eq!(place_of(&app), (100, 200));
    assert!(app.position_floating_window(96, SCREEN).is_empty());
    assert_eq!(app.release(), vec![Action::ReleaseMouse, Action::SaveSettings]);
    assert!(app.release().is_empty());
    assert!(!app.drag_is_safe(Point { x: i32::MAX, y: 0 }, SCREEN));
}

#[test]
fn the_close_button_puts_the_widget_away() {
    let mut app = default_app();
    assert_eq!(app.press_at(280, 10, 302), vec![Action::SaveSettings, Action::HideWindow]);
    assert!(!app.state.as_ref().unwrap().widget_visible);
    assert!(App::new().press_at(280, 10, 302).is_empty());
    assert_eq!(
        App::new().press_at(10, 10, 302),
        vec![Action::BeginDrag, Action::CaptureMouse]
    );
}

#[test]
fn toggling_twice_changes_nothing() {
    let mut app = default_app();
    assert_eq!(app.toggle_widget_visibility(), vec![Action::SaveSettings, Action::HideWindow]);
    assert!(!app.state.as_ref().unwrap().widget_visible);
    assert_eq!(
        app.toggle_widget_visibility(),
        vec![Action::SaveSettings, Action::Position, Action::ShowWindow, Action::Render]
    );
    assert!(app.state.as_ref().unwrap().widget_visible);
    assert_eq!(
        app.toggle_always_on_top(),
        vec![Action::SetTopmost(true), Action::SaveSettings]
    );
    assert_eq!(
        app.toggle_always_on_top(),
        vec![Action::SetTopmost(false), Action::SaveSettings]
    );
    assert!(App::new().toggle_widget_visibility().is_empty());
    assert!(App::new().toggle_always_on_top().is_empty());
}

#[test]
fn colors_are_read_and_handed_on() {
    let c = color(0xF59E0B);
    assert_eq!(c, Color { r: 0xF5, g: 0x9E, b: 0x0B });
    assert_eq!(c.to_colorref(), 0x0B9EF5);
}

#[test]
fn a_bar_is_filled_as_far_as_it_reaches() {
    let bar = Rect { left: 10, top: 1, right: 60, bottom: 9 };
    assert_eq!(bar_fill(bar, 0), None);
    assert_eq!(bar_fill(bar, -3), None);
    assert_eq!(bar_fill(bar, 20), Some(Rect { right: 30, ..bar }));
    assert_eq!(bar_fill(bar, 50), Some(bar));
    assert_eq!(bar_fill(bar, i32::MAX), Some(bar));
}

fn text_ops(ops: &[DrawOp]) -> Vec<(String, Rect)> {
    let mut out = Vec::new();
    for op in ops {
        if let DrawOp::Text { text, rect, .. } = op {
            out.push((text.clone(), *rect));
        }
    }
    out
}

fn bars(ops: &[DrawOp]) -> Vec<(Rect, i32, u64)> {
    let mut out = Vec::new();
    for op in ops {
        if let DrawOp::Bar { bar, width, percent, .. } = op {
            out.push((*bar, *width, *percent));
        }
    }
    out
}

#[test]
fn a_row_has_a_label_a_value_and_a_bar() {
    let ops = draw_usage_row(40, 91, 250, "5h", 42, "42% - 1h", true, 96);
    assert_eq!(ops.len(), 4);
    match &ops[0] {
        DrawOp::Text { text, rect, style } => {
            assert_eq!(text, "5h");
            assert_eq!(*rect, Rect { left: 40, top: 91, right: 68, bottom: 109 });
            assert_eq!(
                *style,
                TextStyle {
                    font: Font { height: -12, weight: 500 },
                    color: TextColor::Fixed(Color { r: 0xA3, g: 0xA3, b: 0xA3 }),
                    align: Align::Left,
                    ellipsis: false,
                }
            );
        }
        other => panic!("{other:?}"),
    }
    match &ops[1] {
        DrawOp::Text { text, rect, style } => {
            assert_eq!(text, "42% - 1h");
            assert_eq!(*rect, Rect { left: 68, top: 91, right: 290, bottom: 109 });
            assert_eq!(
                *style,
                TextStyle {
                    font: Font { height: -12, weight: 500 },
                    color: TextColor::Usage { percent: 42 },
                    align: Align::Right,
                    ellipsis: true,
                }
            );
        }
        other => panic!("{other:?}"),
    }
    match &ops[2] {
        DrawOp::Round { region, diameter, color } => {
            assert_eq!(*region, Rect { left: 40, top: 112, right: 291, bottom: 123 });
            assert_eq!(*diameter, 10);
            assert_eq!(*color, Color { r: 0x26, g: 0x26, b: 0x26 });
        }
        other => panic!("{other:?}"),
    }
    match &ops[3] {
        DrawOp::Bar { bar, width, region, diameter, percent } => {
            assert_eq!(*bar, Rect { left: 40, top: 112, right: 290, bottom: 122 });
            assert_eq!(*width, 250);
            assert_eq!(*region, Rect { left: 40, top: 112, right: 291, bottom: 123 });
            assert_eq!(*diameter, 10);
            assert_eq!(*percent, 42);
        }
        other => panic!("{other:?}"),
    }
}

fn value_colors(ops: &[DrawOp]) -> Vec<TextColor> {
    let mut out = Vec::new();
    for op in ops {
        if let DrawOp::Text { style, .. } = op {
            if style.align == Align::Right {
                out.push(style.color);
            }
        }
    }
    out
}

#[test]
fn values_match_their_bars_where_both_models_are_shown() {
    let white = TextColor::Fixed(Color { r: 0xFF, g: 0xFF, b: 0xFF });
    let row = draw_usage_row(0, 0, 100, "5h", 42, "42%", false, 96);
    assert_eq!(value_colors(&row), vec![white]);
    let mut app = default_app();
    {
        let s = app.state.as_mut().unwrap();
        s.session_percent = 1;
        s.weekly_percent = 2;
        s.codex_session_percent = 3;
        s.codex_weekly_percent = 4;
    }
    let ops = app.paint(302, 188, &catalog(), "1.0");
    assert_eq!(value_colors(&ops), vec![white, white]);
    app.state.as_mut().unwrap().show_codex = true;
    let ops = app.paint(468, 188, &catalog(), "1.0");
    assert_eq!(
        value_colors(&ops),
        vec![
            TextColor::Usage { percent: 1 },
            TextColor::Usage { percent: 2 },
            TextColor::Usage { percent: 3 },
            TextColor::Usage { percent: 4 },
        ]
    );
    app.state.as_mut().unwrap().show_claude_code = false;
    let ops = app.paint(302, 188, &catalog(), "1.0");
    assert_eq!(value_colors(&ops), vec![white, white]);
}

#[test]
fn the_picture_has_a_frame_and_a_card() {
    let app = default_app();
    let ops = app.paint(302, 188, &catalog(), "1.4.0");
    assert_eq!(ops.len(), 7 + 11);
    match &ops[0] {
        DrawOp::Fill { rect, color } => {
            assert_eq!(*rect, Rect { left: 0, top: 0, right: 302, bottom: 188 });
            assert_eq!(*color, Color { r: 5, g: 5, b: 5 });
        }
        other => panic!("{other:?}"),
    }
    match &ops[2] {
        DrawOp::Fill { rect, .. } => {
            assert_eq!(*rect, Rect { left: 0, top: 34, right: 302, bottom: 35 });
        }
        other => panic!("{other:?}"),
    }
    assert!(matches!(ops[3], DrawOp::Icon { x: 10, y: 8, size: 18 }));
    match &ops[5] {
        DrawOp::Round { region, diameter, .. } => {
            assert_eq!(*region, Rect { left: 272, top: 6, right: 295, bottom: 29 });
            assert_eq!(*diameter, 12);
        }
        other => panic!("{other:?}"),
    }
    match &ops[7] {
        DrawOp::Round { region, diameter, .. } => {
            assert_eq!(*region, Rect { left: 14, top: 48, right: 289, bottom: 175 });
            assert_eq!(*diameter, 18);
        }
        other => panic!("{other:?}"),
    }
    match &ops[8] {
        DrawOp::Round { region, diameter, .. } => {
            assert_eq!(*region, Rect { left: 15, top: 49, right: 288, bottom: 174 });
            assert_eq!(*diameter, 16);
        }
        other => panic!("{other:?}"),
    }
    assert_eq!(
        text_ops(&ops),
        vec![
            (
                "AI Usage Monitor 1.4".to_string(),
                Rect { left: 36, top: 0, right: 260, bottom: 34 },
            ),
            ("x".to_string(), Rect { left: 272, top: 6, right: 294, bottom: 28 }),
            ("First Card".to_string(), Rect { left: 26, top: 56, right: 276, bottom: 78 }),
            ("5h".to_string(), Rect { left: 26, top: 91, right: 54, bottom: 109 }),
            ("--".to_string(), Rect { left: 54, top: 91, right: 276, bottom: 109 }),
            ("7d".to_string(), Rect { left: 26, top: 130, right: 54, bottom: 148 }),
            ("--".to_string(), Rect { left: 54, top: 130, right: 276, bottom: 148 }),
        ]
    );
    assert_eq!(
        bars(&ops),
        vec![
            (Rect { left: 26, top: 112, right: 276, bottom: 122 }, 250, 0),
            (Rect { left: 26, top: 151, right: 276, bottom: 161 }, 250, 0),
        ]
    );
}

#[test]
fn two_cards_stand_side_by_side_or_one_below_the_other() {
    let mut settings = SettingsFile::default();
    settings.show_codex = true;
    let place = WindowPlace { x: 0, y: 0, width: 468, height: 188 };
    let mut app = started(&settings, place);
    {
        let s = app.state.as_mut().unwrap();
        s.session_percent = 1;
        s.weekly_percent = 2;
        s.codex_session_percent = 3;
        s.codex_weekly_percent = 4;
        s.codex_weekly_text = "soon".to_string();
    }
    let ops = app.paint(468, 188, &catalog(), "1.4.0");
    assert_eq!(
        bars(&ops),
        vec![
            (Rect { left: 26, top: 112, right: 216, bottom: 122 }, 190, 1),
            (Rect { left: 26, top: 151, right: 216, bottom: 161 }, 190, 2),
            (Rect { left: 252, top: 112, right: 442, bottom: 122 }, 190, 3),
            (Rect { left: 252, top: 151, right: 442, bottom: 161 }, 190, 4),
        ]
    );
    assert_eq!(text_ops(&ops)[7].0, "ChatGPT");
    assert_eq!(text_ops(&ops)[11].0, "soon");
    app.state.as_mut().unwrap().layout_horizontal = false;
    let ops = app.paint(302, 326, &catalog(), "1.4.0");
    assert_eq!(
        bars(&ops),
        vec![
            (Rect { left: 26, top: 112, right: 276, bottom: 122 }, 250, 1),
            (Rect { left: 26, top: 151, right: 276, bottom: 161 }, 250, 2),
            (Rect { left: 26, top: 250, right: 276, bottom: 260 }, 250, 3),
            (Rect { left: 26, top: 289, right: 276, bottom: 299 }, 250, 4),
        ]
    );
    app.state.as_mut().unwrap().show_claude_code = false;
    let ops = app.paint(302, 326, &catalog(), "1.4.0");
    assert_eq!(
        bars(&ops),
        vec![
            (Rect { left: 26, top: 112, right: 276, bottom: 122 }, 250, 3),
            (Rect { left: 26, top: 151, right: 276, bottom: 161 }, 250, 4),
        ]
    );
}

#[test]
fn nothing_is_drawn_without_a_state_or_room() {
    assert!(App::new().paint(302, 188, &catalog(), "1.0").is_empty());
    assert!(default_app().paint(0, 188, &catalog(), "1.0").is_empty());
    assert!(default_app().paint(302, -1, &catalog(), "1.0").is_empty());
}

#[test]
fn cards_stay_in_the_widget_at_any_dpi() {
    for horizontal in [true, false] {
        for dpi in [1, 5, 7, 10, 96, 101, 120, 144, 175, 192, 240, 1_000_000, DRAWABLE_DPI] {
            let mut settings = SettingsFile::default();
            settings.show_codex = true;
            settings.layout_horizontal = horizontal;
            let mut app = started(&settings, WindowPlace { x: 0, y: 0, width: 1, height: 1 });
            app.dpi = dpi;
            let s = app.state.as_ref().unwrap();
            let (width, height) = (s.total_widget_width(dpi), s.total_widget_height(dpi));
            let ops = app.paint(width, height, &catalog(), "1.0");
            let all = bars(&ops);
            if width > 0 && height > 0 {
                assert_eq!(all.len(), 4);
            }
            for (bar, bar_width, _) in all {
                assert!(bar.left >= 0 && bar.right <= width && bar_width >= 0);
                assert!(bar.top >= sc(34, dpi) && bar.bottom <= height);
            }
        }
    }
}

#[test]
fn the_title_names_the_version() {
    assert_eq!(app_title("AI Usage Monitor", "1.2.0"), "AI Usage Monitor 1.2");
}

fn item_lines(entries: &[MenuEntry], menu: MenuId) -> Vec<(u16, Mark, String)> {
    let mut out = Vec::new();
    for e in entries {
        if e.menu == menu {
            if let MenuItem::Item { id, mark } = e.item {
                out.push((id, mark, e.label.clone()));
            }
        }
    }
    out
}

#[test]
fn the_menu_has_its_items_in_order() {
    let entries = default_app().context_menu(false, &catalog(), "1.4.0", TOGGLE);
    assert_eq!(entries.len(), 1 + 5 + 3 + 3 + 4 + 3 + 7);
    assert_eq!(
        item_lines(&entries, MenuId::Root),
        vec![
            (1, Mark::Plain, "Refresh".to_string()),
            (TOGGLE, Mark::Checked, "Show Widget".to_string()),
            (2, Mark::Plain, "Exit".to_string()),
        ]
    );
    assert_eq!(
        item_lines(&entries, MenuId::Frequency),
        vec![
            (10, Mark::Plain, "1 Minute".to_string()),
            (11, Mark::Plain, "5 Minutes".to_string()),
            (12, Mark::Checked, "15 Minutes".to_string()),
            (13, Mark::Plain, "1 Hour".to_string()),
        ]
    );
    assert_eq!(
        item_lines(&entries, MenuId::Models),
        vec![
            (60, Mark::Checked, "First Model".to_string()),
            (61, Mark::Plain, "Second Model".to_string()),
        ]
    );
    assert_eq!(
        item_lines(&entries, MenuId::Layout),
        vec![
            (33, Mark::Checked, "Side by side".to_string()),
            (34, Mark::Plain, "Stacked".to_string()),
        ]
    );
    assert_eq!(
        item_lines(&entries, MenuId::Settings),
        vec![
            (20, Mark::Plain, "Start with Windows".to_string()),
            (30, Mark::Plain, "Reset Position".to_string()),
            (32, Mark::Plain, "Always on Top".to_string()),
            (31, Mark::Plain, "v1.4 - Check for Updates".to_string()),
        ]
    );
    assert_eq!(
        item_lines(&entries, MenuId::Language),
        vec![
            (40, Mark::Checked, "System Default".to_string()),
            (41, Mark::Plain, "English".to_string()),
            (42, Mark::Plain, "Čeština".to_string()),
            (49, Mark::Plain, "繁體中文".to_string()),
        ]
    );
    let mut submenus = Vec::new();
    let mut lines = Vec::new();
    for (i, e) in entries.iter().enumerate() {
        match e.item {
            MenuItem::Submenu(sub) => submenus.push((e.menu, sub, e.label.clone())),
            MenuItem::Separator => lines.push((i, e.menu, e.label.clone())),
            MenuItem::Item { .. } => {}
        }
    }
    assert_eq!(
        submenus,
        vec![
            (MenuId::Root, MenuId::Frequency, "Update Frequency".to_string()),
            (MenuId::Root, MenuId::Models, "Models".to_string()),
            (MenuId::Root, MenuId::Layout, "Layout".to_string()),
            (MenuId::Settings, MenuId::Language, "Language".to_string()),
            (MenuId::Root, MenuId::Settings, "Settings".to_string()),
        ]
    );
    assert_eq!(
        lines,
        vec![
            (20, MenuId::Settings, String::new()),
            (24, MenuId::Root, String::new()),
        ]
    );
}

#[test]
fn the_menu_shows_what_is_set() {
    let mut app = default_app();
    app.handle_command(Command::Frequency { ms: 60_000 });
    app.handle_command(Command::Layout { horizontal: false });
    app.handle_command(Command::ShowModel(Model::Codex));
    app.handle_command(Command::AlwaysOnTop);
    app.handle_command(Command::ToggleWidget);
    let s = app.state.as_mut().unwrap();
    s.language_override = Some(LanguageId::Czech);
    s.update_status = UpdateStatus::Checking;
    let entries = app.context_menu(true, &catalog(), "1.4.1", TOGGLE);
    let mut checked = Vec::new();
    for e in &entries {
        if let MenuItem::Item { id, mark: Mark::Checked } = e.item {
            checked.push(id);
        }
    }
    assert_eq!(checked, vec![10, 60, 61, 34, 20, 32, 42]);
    assert!(item_lines(&entries, MenuId::Settings).contains(&(
        31,
        Mark::Grayed,
        "v1.4.1 - Checking".to_string()
    )));
}

#[test]
fn every_item_of_the_menu_is_a_command() {
    let entries = default_app().context_menu(false, &catalog(), "1.0", TOGGLE);
    let mut found = Vec::new();
    for e in &entries {
        if let MenuItem::Item { id, .. } = e.item {
            let command = decode_command(id, TOGGLE);
            assert_ne!(command, Command::Unknown);
            assert!(!found.contains(&command));
            found.push(command);
        }
    }
    assert!(found.contains(&Command::SetLanguage(Some(LanguageId::TraditionalChinese))));
    assert!(found.contains(&Command::ToggleWidget));
    assert_eq!(language_menu_id(LanguageId::TraditionalChinese), 49);
}

#[test]
fn the_menu_offers_the_release_that_was_found() {
    let mut app = default_app();
    app.state.as_mut().unwrap().update_status = UpdateStatus::Available(ReleaseDescriptor {
        latest_version: "2.0.0".to_string(),
        asset_url: "u".to_string(),
    });
    let entries = app.context_menu(false, &catalog(), "1.4.0", TOGGLE);
    assert!(item_lines(&entries, MenuId::Settings).contains(&(
        31,
        Mark::Plain,
        "v1.4 - Update to v2.0.0".to_string()
    )));
}

#[test]
fn before_there_is_a_state_the_menu_shows_a_first_run() {
    let entries = App::new().context_menu(false, &catalog(), "1.4.0", TOGGLE);
    let mut checked = Vec::new();
    for e in &entries {
        if let MenuItem::Item { id, mark: Mark::Checked } = e.item {
            checked.push(id);
        }
    }
    assert_eq!(checked, vec![12, 60, 33, 40, TOGGLE]);
    assert_eq!(entries[0].label, "Refresh");
}

#[test]
fn every_command_is_in_the_menu() {
    let entries = default_app().context_menu(false, &catalog(), "1.0", TOGGLE);
    for id in 0..=u16::MAX {
        let listed = match decode_command(id, TOGGLE) {
            Command::Unknown => false,
            Command::SetLanguage(Some(language)) => catalog().all.contains(&language),
            _ => true,
        };
        let found = entries
            .iter()
            .any(|e| matches!(e.item, MenuItem::Item { id: number, .. } if number == id));
        assert_eq!(found, listed, "{id}");
    }
}
