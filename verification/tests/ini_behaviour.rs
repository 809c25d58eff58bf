use maplelink::config::{
    AccountViewMode, AppConfig, CloseBehavior, DefaultLoginView, FontSize, Language, Region, Theme,
    UpdateChannel,
};
use maplelink::config_parser::{parse_ini, serialize_ini};

const DEFAULT_TEXT: &str = "[general]
region = HK
language = zh-TW
auto_update = true
auto_start = false
debug_logging = false
update_channel = release
gamepass_incognito = true
traditional_login = true
auto_kill_patcher = true
auto_login = false
auto_launch_game = false
close_behavior = ask
hide_account_names = false
beanfun_rename_dismissed = false
cafe_mode = false
default_login_view = normal

[game]
path = 
locale = zh-TW
skip_play_confirm = true
web_launch_auto_launch = true
web_launch_auto_paste = true

[appearance]
theme = system
font_size = medium
account_view_mode = card

[window]
";

#[test]
fn default_config_is_written_exactly() {
    assert_eq!(serialize_ini(&AppConfig::default()), DEFAULT_TEXT);
}

#[test]
fn window_lines_written_when_set() {
    let config = AppConfig {
        window_x: Some(i32::MIN),
        window_height: Some(u32::MAX),
        ..AppConfig::default()
    };
    let text = serialize_ini(&config);
    assert!(text.ends_with("[window]\nx = -2147483648\nheight = 4294967295\n"));
}

#[test]
fn round_trip_keeps_extreme_numbers_and_odd_paths() {
    let written = AppConfig {
        game_path: "C:\\Program Files\\a=b [x]\\Maple.exe".into(),
        locale: "ko KR".into(),
        window_x: Some(i32::MIN),
        window_y: Some(i32::MAX),
        window_width: Some(0),
        window_height: Some(u32::MAX),
        region: Region::TW,
        language: Language::ZhCN,
        update_channel: UpdateChannel::PreRelease,
        font_size: FontSize::ExtraLarge,
        close_behavior: CloseBehavior::Quit,
        theme: Theme::Dark,
        ..AppConfig::default()
    };
    let parsed = parse_ini(&serialize_ini(&written)).unwrap();
    assert_eq!(parsed, written);
}

#[test]
fn round_trip_of_defaults() {
    let parsed = parse_ini(&serialize_ini(&AppConfig::default())).unwrap();
    assert_eq!(parsed, AppConfig::default());
}

#[test]
fn keys_and_sections_ignore_letter_case_and_spacing() {
    let ini = "  [ GENERAL ]  \n  REGION   =   tw  \n[Appearance]\nTheme = LIGHT\nFont_Size = Extra-Large\n";
    let config = parse_ini(ini).unwrap();
    assert_eq!(config.region, Region::TW);
    assert_eq!(config.theme, Theme::Light);
    assert_eq!(config.font_size, FontSize::ExtraLarge);
}

#[test]
fn later_entry_for_same_key_wins() {
    let ini = "[general]\nregion = TW\nregion = HK\n[general]\nauto_start = yes\nauto_start = 0\n";
    let config = parse_ini(ini).unwrap();
    assert_eq!(config.region, Region::HK);
    assert!(!config.auto_start);
}

#[test]
fn entries_outside_sections_and_malformed_lines_are_skipped() {
    let ini = "region = TW\nthis line has no separator\n[general]\nlanguage = en-US\n[unknown]\nregion = TW\n";
    let config = parse_ini(ini).unwrap();
    assert_eq!(config.region, Region::HK);
    assert_eq!(config.language, Language::EnUS);
}

#[test]
fn language_must_match_exactly_in_the_file() {
    let config = parse_ini("[general]\nlanguage = EN-us\n").unwrap();
    assert_eq!(config.language, Language::ZhTW);
}

#[test]
fn windows_line_endings_are_accepted() {
    let ini = "[general]\r\nregion = TW\r\n[window]\r\nx = -7\r\n";
    let config = parse_ini(ini).unwrap();
    assert_eq!(config.region, Region::TW);
    assert_eq!(config.window_x, Some(-7));
}

#[test]
fn window_numbers_follow_integer_parsing() {
    let ini = "[window]\nx = +5\ny = 2147483648\nwidth = -1\nheight = 007\n";
    let config = parse_ini(ini).unwrap();
    assert_eq!(config.window_x, Some(5));
    assert_eq!(config.window_y, None);
    assert_eq!(config.window_width, None);
    assert_eq!(config.window_height, Some(7));
}

#[test]
fn update_channel_accepts_underscore_spelling() {
    let config = parse_ini("[general]\nupdate_channel = Pre_Release\n").unwrap();
    assert_eq!(config.update_channel, UpdateChannel::PreRelease);
    let config = parse_ini("[general]\nupdate_channel = nightly\n").unwrap();
    assert_eq!(config.update_channel, UpdateChannel::Release);
}

#[test]
fn flags_accept_all_spellings_and_fall_back_to_their_default() {
    let ini = "[general]\nauto_update = NO\nauto_start = Yes\ncafe_mode = 1\ngamepass_incognito = perhaps\ndebug_logging = maybe\n";
    let config = parse_ini(ini).unwrap();
    assert!(!config.auto_update);
    assert!(config.auto_start);
    assert!(config.cafe_mode);
    assert!(config.gamepass_incognito);
    assert!(!config.debug_logging);
}

#[test]
fn choice_values_fall_back() {
    let ini = "[general]\nclose_behavior = minimize\ndefault_login_view = QR\n[appearance]\naccount_view_mode = grid\nfont_size = huge\ntheme = neon\n";
    let config = parse_ini(ini).unwrap();
    assert_eq!(config.close_behavior, CloseBehavior::Ask);
    assert_eq!(config.default_login_view, DefaultLoginView::Qr);
    assert_eq!(config.account_view_mode, AccountViewMode::Card);
    assert_eq!(config.font_size, FontSize::Medium);
    assert_eq!(config.theme, Theme::System);
}

#[test]
fn values_keep_inner_equals_signs() {
    let config = parse_ini("[game]\npath = C:\\a=b\\game.exe  \n").unwrap();
    assert_eq!(config.game_path, "C:\\a=b\\game.exe");
}

#[test]
fn keys_are_lowercased_with_unicode_rules() {
    // U+212A KELVIN SIGN lower-cases to the ASCII letter k.
    let config = parse_ini("[general]\nauto_\u{212A}ill_patcher = false\n").unwrap();
    assert!(!config.auto_kill_patcher);
}

#[test]
fn region_is_upper_cased_before_matching() {
    let config = parse_ini("[general]\nregion = tw\n").unwrap();
    assert_eq!(config.region, Region::TW);
}

#[test]
fn choice_readers_ignore_case_where_they_should() {
    let c = parse_ini("[appearance]\nfont_size = EXTRA-LARGE\n[general]\nclose_behavior = TRAY\n").unwrap();
    assert_eq!(c.font_size, FontSize::ExtraLarge);
    assert_eq!(c.close_behavior, CloseBehavior::Tray);
    let c = parse_ini("[appearance]\nfont_size = extra_large\n[general]\nclose_behavior = Quit\nlanguage = EN-US\n").unwrap();
    assert_eq!(c.font_size, FontSize::Medium);
    assert_eq!(c.close_behavior, CloseBehavior::Quit);
    assert_eq!(c.language, Language::ZhTW);
    let c = parse_ini("[general]\nlanguage = zh-CN\nclose_behavior = ASK\n").unwrap();
    assert_eq!(c.language, Language::ZhCN);
    assert_eq!(c.close_behavior, CloseBehavior::Ask);
}
