use maplelink::config::{
    AccountViewMode, AppConfig, CloseBehavior, DefaultLoginView, FontSize, Language, Region, Theme,
    UpdateChannel,
};
use maplelink::config_parser::{parse_ini, serialize_ini};

#[test]
fn parse_full_valid_ini() {
    let ini = "\
[general]
region = HK
language = zh-TW
auto_update = true
auto_start = false
debug_logging = false

[game]
path = C:\\Nexon\\MapleStory\\MapleStory.exe
locale = zh-TW
skip_play_confirm = false

[appearance]
theme = dark

[window]
x = 100
y = 200
width = 600
height = 480
";
    let config = parse_ini(ini).unwrap();
    assert_eq!(config.region, Region::HK);
    assert_eq!(config.language, Language::ZhTW);
    assert!(config.auto_update);
    assert!(!config.auto_start);
    assert!(!config.debug_logging);
    assert_eq!(config.game_path, "C:\\Nexon\\MapleStory\\MapleStory.exe");
    assert_eq!(config.locale, "zh-TW");
    assert!(!config.skip_play_confirm);
    assert_eq!(config.theme, Theme::Dark);
    assert_eq!(config.window_x, Some(100));
    assert_eq!(config.window_y, Some(200));
    assert_eq!(config.window_width, Some(600));
    assert_eq!(config.window_height, Some(480));
}

#[test]
fn parse_empty_string_returns_defaults() {
    let config = parse_ini("").unwrap();
    assert_eq!(config, AppConfig::default());
}

#[test]
fn malformed_entries_use_defaults() {
    let ini = "\
[general]
region = INVALID
language = klingon
auto_update = maybe

[window]
x = not_a_number
";
    let config = parse_ini(ini).unwrap();
    let defaults = AppConfig::default();
    assert_eq!(config.region, defaults.region);
    assert_eq!(config.language, defaults.language);
    // malformed bool falls back to the field's default (auto_update defaults to true)
    assert_eq!(config.auto_update, defaults.auto_update);
    assert_eq!(config.window_x, None);
}

#[test]
fn serialize_then_parse_round_trip() {
    let written = AppConfig {
        game_path: "D:\\Games\\Maple.exe".into(),
        locale: "en-US".into(),
        theme: Theme::Light,
        language: Language::EnUS,
        auto_update: false,
        update_channel: UpdateChannel::PreRelease,
        skip_play_confirm: true,
        auto_start: true,
        window_x: Some(-50),
        window_y: Some(300),
        window_width: Some(1024),
        window_height: Some(768),
        region: Region::TW,
        debug_logging: true,
        gamepass_incognito: false,
        font_size: FontSize::Large,
        traditional_login: false,
        auto_kill_patcher: false,
        account_view_mode: AccountViewMode::List,
        auto_login: false,
        auto_launch_game: false,
        web_launch_auto_launch: false,
        web_launch_auto_paste: true,
        close_behavior: CloseBehavior::Tray,
        hide_account_names: true,
        beanfun_rename_dismissed: true,
        cafe_mode: true,
        default_login_view: DefaultLoginView::Qr,
    };
    let ini = serialize_ini(&written);
    let parsed = parse_ini(&ini).unwrap();
    assert_eq!(parsed, written);
}

#[test]
fn serialize_omits_none_window_fields() {
    let config = AppConfig::default();
    let ini = serialize_ini(&config);
    assert!(!ini.contains("x ="));
    assert!(!ini.contains("y ="));
    assert!(!ini.contains("width ="));
    assert!(!ini.contains("height ="));
}

#[test]
fn comments_and_blank_lines_are_ignored() {
    let ini = "\
# This is a comment
; Another comment

[general]
region = TW
";
    let config = parse_ini(ini).unwrap();
    assert_eq!(config.region, Region::TW);
}
