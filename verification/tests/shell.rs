use maplelink::config::{AppConfig, CloseBehavior, Language, UpdateChannel};
use maplelink::shell::{
    disable_debug_logging, notice_event_name, position_on_screen, record_position, saved_position,
    split_web_launch_args, tray_labels, tray_menu_command, webview_cleanup_needed,
    browser_args_update, window_event_actions, MonitorArea, ShellAction, ShellNotice, TrayCommand,
    WindowEvent, edges_fit, position_on_screen_checked, startup_config, needs_game_path_detection,
    set_detected_game_path, includes_prereleases, text_scale_override_needed,
};

fn config_with(behavior: CloseBehavior, cafe: bool) -> AppConfig {
    let mut c = AppConfig::default();
    c.close_behavior = behavior;
    c.cafe_mode = cafe;
    c
}

#[test]
fn close_honours_configured_behaviour() {
    let quit = config_with(CloseBehavior::Quit, false);
    assert_eq!(
        window_event_actions("main", WindowEvent::CloseRequested, false, Some(&quit), false),
        vec![ShellAction::PreventClose, ShellAction::RequestQuit]
    );
    let tray = config_with(CloseBehavior::Tray, false);
    assert_eq!(
        window_event_actions("main", WindowEvent::CloseRequested, false, Some(&tray), false),
        vec![ShellAction::PreventClose, ShellAction::HideWindow]
    );
    let ask = config_with(CloseBehavior::Ask, false);
    assert_eq!(
        window_event_actions("main", WindowEvent::CloseRequested, false, Some(&ask), false),
        vec![
            ShellAction::PreventClose,
            ShellAction::Notify(ShellNotice::AppCloseRequested)
        ]
    );
}

#[test]
fn close_without_config_asks() {
    assert_eq!(
        window_event_actions("main", WindowEvent::CloseRequested, false, None, false),
        vec![
            ShellAction::PreventClose,
            ShellAction::Notify(ShellNotice::AppCloseRequested)
        ]
    );
}

#[test]
fn cafe_mode_overrides_close_behaviour() {
    let cafe = config_with(CloseBehavior::Tray, true);
    assert_eq!(
        window_event_actions("main", WindowEvent::CloseRequested, false, Some(&cafe), false),
        vec![
            ShellAction::PreventClose,
            ShellAction::WipeLocalData,
            ShellAction::RequestQuit
        ]
    );
}

#[test]
fn close_during_quit_or_on_other_window_is_let_through() {
    let tray = config_with(CloseBehavior::Tray, false);
    assert!(window_event_actions("main", WindowEvent::CloseRequested, true, Some(&tray), false)
        .is_empty());
    assert!(window_event_actions("web-login", WindowEvent::CloseRequested, false, Some(&tray), false)
        .is_empty());
}

#[test]
fn move_of_main_window_is_recorded() {
    let c = AppConfig::default();
    assert_eq!(
        window_event_actions("main", WindowEvent::Moved { x: 10, y: -20 }, false, Some(&c), false),
        vec![ShellAction::RestyleFrame, ShellAction::RecordPosition { x: 10, y: -20 }]
    );
    assert_eq!(
        window_event_actions("main", WindowEvent::Moved { x: 10, y: -20 }, false, None, false),
        vec![ShellAction::RestyleFrame]
    );
    assert_eq!(
        window_event_actions("debug-console", WindowEvent::Moved { x: 1, y: 2 }, false, Some(&c), false),
        vec![ShellAction::RestyleFrame]
    );
}

#[test]
fn focus_and_resize_restyle_the_frame() {
    assert_eq!(
        window_event_actions("main", WindowEvent::Focused(true), false, None, false),
        vec![ShellAction::RestyleFrame]
    );
    assert!(window_event_actions("main", WindowEvent::Focused(false), false, None, false).is_empty());
    assert_eq!(
        window_event_actions("web-login", WindowEvent::Resized, false, None, false),
        vec![ShellAction::RestyleFrame]
    );
}

#[test]
fn destroying_main_window_clears_sessions_and_saves() {
    let c = AppConfig::default();
    assert_eq!(
        window_event_actions("main", WindowEvent::Destroyed, false, Some(&c), false),
        vec![
            ShellAction::ClearSessions,
            ShellAction::SaveConfig,
            ShellAction::DestroyDebugConsole
        ]
    );
    let cafe = config_with(CloseBehavior::Ask, true);
    assert_eq!(
        window_event_actions("main", WindowEvent::Destroyed, false, Some(&cafe), false),
        vec![ShellAction::ClearSessions, ShellAction::DestroyDebugConsole]
    );
    assert_eq!(
        window_event_actions("main", WindowEvent::Destroyed, false, None, false),
        vec![ShellAction::DestroyDebugConsole]
    );
}

#[test]
fn destroying_debug_console_turns_logging_off() {
    let mut c = AppConfig::default();
    c.debug_logging = true;
    assert_eq!(
        window_event_actions("debug-console", WindowEvent::Destroyed, false, Some(&c), false),
        vec![
            ShellAction::DisableDebugLogging,
            ShellAction::SaveConfig,
            ShellAction::Notify(ShellNotice::DebugWindowClosed)
        ]
    );
    c.debug_logging = false;
    assert_eq!(
        window_event_actions("debug-console", WindowEvent::Destroyed, false, Some(&c), false),
        vec![ShellAction::Notify(ShellNotice::DebugWindowClosed)]
    );
    assert!(window_event_actions("debug-console", WindowEvent::Destroyed, false, None, false)
        .is_empty());
}

#[test]
fn destroying_login_windows_notifies_cancellation() {
    assert_eq!(
        window_event_actions("gamepass-login", WindowEvent::Destroyed, false, None, false),
        vec![ShellAction::Notify(ShellNotice::GamepassLoginCancelled)]
    );
    assert_eq!(
        window_event_actions("recaptcha_window", WindowEvent::Destroyed, false, None, false),
        vec![ShellAction::Notify(ShellNotice::RecaptchaCancelled)]
    );
    assert!(window_event_actions("recaptcha_window", WindowEvent::Destroyed, false, None, true)
        .is_empty());
    assert_eq!(
        window_event_actions("web-login", WindowEvent::Destroyed, false, None, false),
        vec![ShellAction::Notify(ShellNotice::RegularLoginCancelled)]
    );
    assert!(window_event_actions("other", WindowEvent::Destroyed, false, None, false).is_empty());
}

#[test]
fn notice_names() {
    assert_eq!(notice_event_name(ShellNotice::AppCloseRequested), "app-close-requested");
    assert_eq!(notice_event_name(ShellNotice::DebugWindowClosed), "debug-window-closed");
    assert_eq!(notice_event_name(ShellNotice::GamepassLoginCancelled), "gamepass-login-cancelled");
    assert_eq!(notice_event_name(ShellNotice::RecaptchaCancelled), "recaptcha-cancelled");
    assert_eq!(notice_event_name(ShellNotice::RegularLoginCancelled), "regular-login-cancelled");
}

#[test]
fn position_recording_and_debug_toggle() {
    let mut c = AppConfig::default();
    assert_eq!(saved_position(&c), None);
    record_position(&mut c, -5, 300);
    assert_eq!(c.window_x, Some(-5));
    assert_eq!(c.window_y, Some(300));
    assert_eq!(saved_position(&c), Some((-5, 300)));
    c.window_y = None;
    assert_eq!(saved_position(&c), None);
    c.debug_logging = true;
    disable_debug_logging(&mut c);
    assert!(!c.debug_logging);
}

#[test]
fn saved_position_must_be_on_a_monitor() {
    let monitors = vec![
        MonitorArea { x: 0, y: 0, width: 1920, height: 1080 },
        MonitorArea { x: -1280, y: 0, width: 1280, height: 1024 },
    ];
    assert!(position_on_screen(100, 100, &monitors));
    assert!(position_on_screen(-1280, 1023, &monitors));
    assert!(!position_on_screen(1920, 10, &monitors));
    assert!(!position_on_screen(10, 1080, &monitors));
    assert!(!position_on_screen(-1281, 10, &monitors));
    assert!(!position_on_screen(0, 0, &Vec::new()));
}

#[test]
fn web_launch_tag_is_stripped() {
    let raw = vec!["--web-launch".to_string(), "a".to_string(), "b c".to_string()];
    let (args, web) = split_web_launch_args(raw);
    assert!(web);
    assert_eq!(args, vec!["a".to_string(), "b c".to_string()]);

    let raw = vec!["a".to_string(), "--web-launch".to_string()];
    let (args, web) = split_web_launch_args(raw.clone());
    assert!(!web);
    assert_eq!(args, raw);

    let (args, web) = split_web_launch_args(Vec::new());
    assert!(!web);
    assert!(args.is_empty());
}

fn with_language(language: Language) -> AppConfig {
    let mut c = AppConfig::default();
    c.language = language;
    c
}

#[test]
fn tray_labels_follow_language() {
    assert_eq!(tray_labels(Some(&with_language(Language::EnUS))), ("Show MapleLink", "Quit"));
    assert_eq!(tray_labels(Some(&with_language(Language::ZhCN))), ("显示主窗口", "退出"));
    assert_eq!(tray_labels(Some(&with_language(Language::ZhTW))), ("顯示主視窗", "結束"));
    assert_eq!(tray_labels(None), ("顯示主視窗", "結束"));
}

#[test]
fn tray_menu_ids() {
    assert_eq!(tray_menu_command("tray_show"), Some(TrayCommand::ShowMainWindow));
    assert_eq!(tray_menu_command("tray_quit"), Some(TrayCommand::Quit));
    assert_eq!(tray_menu_command("tray_other"), None);
    assert_eq!(tray_menu_command(""), None);
}

#[test]
fn webview_cleanup_once_per_build() {
    assert!(webview_cleanup_needed("1700000000", ""));
    assert!(webview_cleanup_needed("1700000000", "1690000000"));
    assert!(!webview_cleanup_needed("1700000000", "1700000000"));
    assert!(!webview_cleanup_needed("1700000000", "  1700000000\r\n"));
    assert!(!webview_cleanup_needed("", "anything"));
    assert!(!webview_cleanup_needed("", ""));
}

#[test]
fn scale_switch_is_added_once() {
    assert_eq!(
        browser_args_update(None, "--force-device-scale-factor=1.5"),
        Some("--force-device-scale-factor=1.5".to_string())
    );
    assert_eq!(
        browser_args_update(Some("--disable-gpu"), "--force-device-scale-factor=1.25"),
        Some("--disable-gpu --force-device-scale-factor=1.25".to_string())
    );
    assert_eq!(
        browser_args_update(
            Some("--disable-gpu --force-device-scale-factor=2"),
            "--force-device-scale-factor=1.25"
        ),
        None
    );
    assert_eq!(
        browser_args_update(Some(""), "--force-device-scale-factor=1"),
        Some(" --force-device-scale-factor=1".to_string())
    );
}

#[test]
fn updated_arguments_take_no_second_switch() {
    let once = browser_args_update(Some("--disable-gpu"), "--force-device-scale-factor=1.5").unwrap();
    assert_eq!(browser_args_update(Some(&once), "--force-device-scale-factor=2"), None);
    let first = browser_args_update(None, "--force-device-scale-factor=1.5").unwrap();
    assert_eq!(browser_args_update(Some(&first), "--force-device-scale-factor=2"), None);
}

#[test]
fn checked_screen_test_refuses_overflowing_edges() {
    let monitors = vec![MonitorArea { x: 0, y: 0, width: 1920, height: 1080 }];
    assert!(edges_fit(5, 5, &monitors));
    assert_eq!(position_on_screen_checked(5, 5, &monitors), Some(true));
    assert_eq!(position_on_screen_checked(-5, 5, &monitors), Some(false));
    let huge = vec![MonitorArea { x: 2147483000, y: 0, width: 1920, height: 1080 }];
    assert!(!edges_fit(2147483100, 5, &huge));
    assert_eq!(position_on_screen_checked(2147483100, 5, &huge), None);
    // Left of the monitor: its right edge is never computed.
    assert_eq!(position_on_screen_checked(0, 5, &huge), Some(false));
    // A first monitor that holds the point ends the scan.
    let both = vec![monitors[0], huge[0]];
    assert_eq!(position_on_screen_checked(2147483100, 5, &both), None);
    assert_eq!(position_on_screen_checked(5, 5, &both), Some(true));
}

#[test]
fn startup_decisions() {
    let mut loaded = AppConfig::default();
    loaded.cafe_mode = true;
    assert!(startup_config(Some(loaded)).cafe_mode);
    assert!(!startup_config(None).cafe_mode);
    let mut c = AppConfig::default();
    assert!(needs_game_path_detection(&c));
    set_detected_game_path(&mut c, "C:\\Maple\\MapleStory.exe".to_string());
    assert_eq!(c.game_path, "C:\\Maple\\MapleStory.exe");
    assert!(!needs_game_path_detection(&c));
    assert!(!includes_prereleases(&c));
    c.update_channel = UpdateChannel::PreRelease;
    assert!(includes_prereleases(&c));
    assert!(!text_scale_override_needed(100));
    assert!(text_scale_override_needed(125));
}
