use maplelink::config::{
    AccountViewMode, AppConfig, CloseBehavior, DefaultLoginView, FontSize, Language, Region, Theme,
    UpdateChannel,
};
use maplelink::config_field::apply_config_field;
use maplelink::error::ConfigError;

fn reason(r: Result<(), ConfigError>) -> String {
    match r {
        Err(ConfigError::ParseError { reason }) => reason,
        Ok(()) => panic!("expected an error"),
    }
}

#[test]
fn sets_each_kind_of_value() {
    let mut c = AppConfig::default();
    apply_config_field(&mut c, "game_path", "D:\\Maple\\MapleStory.exe").unwrap();
    apply_config_field(&mut c, "theme", "DARK").unwrap();
    apply_config_field(&mut c, "language", "en-US").unwrap();
    apply_config_field(&mut c, "region", "tw").unwrap();
    apply_config_field(&mut c, "update_channel", "pre_release").unwrap();
    apply_config_field(&mut c, "font_size", "small").unwrap();
    apply_config_field(&mut c, "window_x", "-20").unwrap();
    apply_config_field(&mut c, "window_width", "800").unwrap();
    apply_config_field(&mut c, "closeBehavior", "tray").unwrap();
    apply_config_field(&mut c, "default_login_view", "Qr").unwrap();
    apply_config_field(&mut c, "cafeMode", "yes").unwrap();
    assert_eq!(c.game_path, "D:\\Maple\\MapleStory.exe");
    assert_eq!(c.theme, Theme::Dark);
    assert_eq!(c.language, Language::EnUS);
    assert_eq!(c.region, Region::TW);
    assert_eq!(c.update_channel, UpdateChannel::PreRelease);
    assert_eq!(c.font_size, FontSize::Small);
    assert_eq!(c.window_x, Some(-20));
    assert_eq!(c.window_width, Some(800));
    assert_eq!(c.close_behavior, CloseBehavior::Tray);
    assert_eq!(c.default_login_view, DefaultLoginView::Qr);
    assert!(c.cafe_mode);
}

#[test]
fn language_spellings() {
    let mut c = AppConfig::default();
    apply_config_field(&mut c, "language", "zh_CN").unwrap();
    assert_eq!(c.language, Language::ZhCN);
    apply_config_field(&mut c, "language", "ZH-TW").unwrap();
    assert_eq!(c.language, Language::ZhTW);
    apply_config_field(&mut c, "language", "enus").unwrap();
    assert_eq!(c.language, Language::EnUS);
}

#[test]
fn window_values_can_be_cleared() {
    let mut c = AppConfig { window_x: Some(3), window_height: Some(9), ..AppConfig::default() };
    apply_config_field(&mut c, "window_x", "").unwrap();
    apply_config_field(&mut c, "window_height", "none").unwrap();
    assert_eq!(c.window_x, None);
    assert_eq!(c.window_height, None);
}

#[test]
fn account_view_mode_never_fails() {
    let mut c = AppConfig { account_view_mode: AccountViewMode::List, ..AppConfig::default() };
    apply_config_field(&mut c, "accountViewMode", "grid").unwrap();
    assert_eq!(c.account_view_mode, AccountViewMode::Card);
}

#[test]
fn reset_restores_defaults() {
    let mut c = AppConfig { cafe_mode: true, locale: "x".into(), ..AppConfig::default() };
    apply_config_field(&mut c, "__reset__", "").unwrap();
    assert_eq!(c, AppConfig::default());
}

#[test]
fn each_error_carries_its_reason_and_changes_nothing() {
    let mut c = AppConfig::default();
    assert_eq!(reason(apply_config_field(&mut c, "theme", "purple")), "unknown theme value: purple");
    assert_eq!(reason(apply_config_field(&mut c, "language", "fr")), "unknown language value: fr");
    assert_eq!(reason(apply_config_field(&mut c, "auto_update", "maybe")), "expected boolean, got: maybe");
    assert_eq!(reason(apply_config_field(&mut c, "region", "jp")), "unknown region value: jp");
    assert_eq!(
        reason(apply_config_field(&mut c, "update_channel", "beta")),
        "unknown update_channel value: beta"
    );
    assert_eq!(reason(apply_config_field(&mut c, "font_size", "tiny")), "unknown font_size value: tiny");
    assert_eq!(reason(apply_config_field(&mut c, "window_y", "abc")), "expected integer, got: abc");
    assert_eq!(
        reason(apply_config_field(&mut c, "window_width", "-1")),
        "expected unsigned integer, got: -1"
    );
    assert_eq!(
        reason(apply_config_field(&mut c, "close_behavior", "hide")),
        "unknown close_behavior value: hide"
    );
    assert_eq!(
        reason(apply_config_field(&mut c, "defaultLoginView", "web")),
        "unknown default_login_view value: web"
    );
    assert_eq!(reason(apply_config_field(&mut c, "volume", "3")), "unknown config key: volume");
    assert_eq!(c, AppConfig::default());
}

#[test]
fn keys_are_case_sensitive() {
    let mut c = AppConfig::default();
    assert_eq!(reason(apply_config_field(&mut c, "Theme", "dark")), "unknown config key: Theme");
}

#[test]
fn camel_and_snake_keys_agree() {
    let pairs = [
        ("accountViewMode", "account_view_mode", "list"),
        ("autoLogin", "auto_login", "true"),
        ("autoLaunchGame", "auto_launch_game", "1"),
        ("webLaunchAutoLaunch", "web_launch_auto_launch", "false"),
        ("webLaunchAutoPaste", "web_launch_auto_paste", "0"),
        ("closeBehavior", "close_behavior", "tray"),
        ("hideAccountNames", "hide_account_names", "true"),
        ("beanfunRenameDismissed", "beanfun_rename_dismissed", "true"),
        ("cafeMode", "cafe_mode", "true"),
        ("defaultLoginView", "default_login_view", "qr"),
        ("closeBehavior", "close_behavior", "sometimes"),
        ("cafeMode", "cafe_mode", "maybe"),
    ];
    for (camel, snake, value) in pairs {
        let mut a = AppConfig::default();
        let mut b = AppConfig::default();
        let ra = apply_config_field(&mut a, camel, value);
        let rb = apply_config_field(&mut b, snake, value);
        assert_eq!(ra.is_ok(), rb.is_ok(), "{camel} / {snake} = {value}");
        if let (Err(ConfigError::ParseError { reason: x }), Err(ConfigError::ParseError { reason: y })) = (ra, rb) {
            assert_eq!(x, y);
        }
        assert_eq!(a, b, "{camel} / {snake} = {value}");
    }
}
