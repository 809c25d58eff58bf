//! Changing one setting by key, as the settings screen does it: values are
//! checked strictly and a value or key that is not understood is an error.

use vstd::prelude::*;
use crate::config::{
    AccountViewMode, AppConfig, CloseBehavior, ConfigModel, DefaultLoginView, FontSize, Language,
    Region, Theme, UpdateChannel, default_config,
};
use crate::config_parser::ini_account_view_mode;
use crate::decimal::{parse_i32, parse_i32_spec, parse_u32, parse_u32_spec};
use crate::error::ConfigError;
use crate::text::{eq_lit, lower_text, remove_char, replace_char, to_lower, to_upper, upper_text};

verus! {

// ---------------------------------------------------------------------------
// Values accepted for each kind of setting
// ---------------------------------------------------------------------------

/// `true`/`1`/`yes` or `false`/`0`/`no` in any letter case.
pub open spec fn flag_value(v: Seq<char>) -> Result<bool, Seq<char>> {
    let l = lower_text(v);
    if l == "true"@ || l == "1"@ || l == "yes"@ {
        Ok(true)
    } else if l == "false"@ || l == "0"@ || l == "no"@ {
        Ok(false)
    } else {
        Err("expected boolean, got: "@ + v)
    }
}

pub open spec fn theme_value(v: Seq<char>) -> Result<Theme, Seq<char>> {
    let l = lower_text(v);
    if l == "system"@ {
        Ok(Theme::System)
    } else if l == "dark"@ {
        Ok(Theme::Dark)
    } else if l == "light"@ {
        Ok(Theme::Light)
    } else {
        Err("unknown theme value: "@ + v)
    }
}

/// Lower-cased with `-` removed: `enus`/`en_us`, `zhtw`/`zh_tw`, `zhcn`/`zh_cn`.
pub open spec fn language_value(v: Seq<char>) -> Result<Language, Seq<char>> {
    let l = remove_char(lower_text(v), '-');
    if l == "enus"@ || l == "en_us"@ {
        Ok(Language::EnUS)
    } else if l == "zhtw"@ || l == "zh_tw"@ {
        Ok(Language::ZhTW)
    } else if l == "zhcn"@ || l == "zh_cn"@ {
        Ok(Language::ZhCN)
    } else {
        Err("unknown language value: "@ + v)
    }
}

pub open spec fn region_value(v: Seq<char>) -> Result<Region, Seq<char>> {
    let u = upper_text(v);
    if u == "TW"@ {
        Ok(Region::TW)
    } else if u == "HK"@ {
        Ok(Region::HK)
    } else {
        Err("unknown region value: "@ + v)
    }
}

/// Lower-cased, with `_` read as `-`.
pub open spec fn update_channel_value(v: Seq<char>) -> Result<UpdateChannel, Seq<char>> {
    let l = replace_char(lower_text(v), '_', '-');
    if l == "release"@ {
        Ok(UpdateChannel::Release)
    } else if l == "pre-release"@ || l == "prerelease"@ {
        Ok(UpdateChannel::PreRelease)
    } else {
        Err("unknown update_channel value: "@ + v)
    }
}

pub open spec fn font_size_value(v: Seq<char>) -> Result<FontSize, Seq<char>> {
    let l = lower_text(v);
    if l == "small"@ {
        Ok(FontSize::Small)
    } else if l == "medium"@ {
        Ok(FontSize::Medium)
    } else if l == "large"@ {
        Ok(FontSize::Large)
    } else if l == "extra-large"@ {
        Ok(FontSize::ExtraLarge)
    } else {
        Err("unknown font_size value: "@ + v)
    }
}

/// Empty, `null` or `none` clear the setting; otherwise an `i32`.
pub open spec fn optional_i32_value(v: Seq<char>) -> Result<Option<i32>, Seq<char>> {
    if v.len() == 0 || v == "null"@ || v == "none"@ {
        Ok(None)
    } else {
        match parse_i32_spec(v) {
            Some(n) => Ok(Some(n)),
            None => Err("expected integer, got: "@ + v),
        }
    }
}

/// Empty, `null` or `none` clear the setting; otherwise a `u32`.
pub open spec fn optional_u32_value(v: Seq<char>) -> Result<Option<u32>, Seq<char>> {
    if v.len() == 0 || v == "null"@ || v == "none"@ {
        Ok(None)
    } else {
        match parse_u32_spec(v) {
            Some(n) => Ok(Some(n)),
            None => Err("expected unsigned integer, got: "@ + v),
        }
    }
}

pub open spec fn close_behavior_value(v: Seq<char>) -> Result<CloseBehavior, Seq<char>> {
    let l = lower_text(v);
    if l == "quit"@ {
        Ok(CloseBehavior::Quit)
    } else if l == "tray"@ {
        Ok(CloseBehavior::Tray)
    } else if l == "ask"@ {
        Ok(CloseBehavior::Ask)
    } else {
        Err("unknown close_behavior value: "@ + v)
    }
}

pub open spec fn default_login_view_value(v: Seq<char>) -> Result<DefaultLoginView, Seq<char>> {
    let l = lower_text(v);
    if l == "normal"@ {
        Ok(DefaultLoginView::Normal)
    } else if l == "qr"@ {
        Ok(DefaultLoginView::Qr)
    } else {
        Err("unknown default_login_view value: "@ + v)
    }
}

/// The setting a key names, with the value read for it (texts are taken
/// as given and carry no value here).
#[derive(Clone, Copy, Debug, PartialEq, Eq, Structural)]
pub enum FieldChange {
    GamePath,
    Locale,
    Theme(Theme),
    Language(Language),
    AutoUpdate(bool),
    SkipPlayConfirm(bool),
    AutoStart(bool),
    Region(Region),
    DebugLogging(bool),
    GamepassIncognito(bool),
    TraditionalLogin(bool),
    AutoKillPatcher(bool),
    UpdateChannel(UpdateChannel),
    FontSize(FontSize),
    WindowX(Option<i32>),
    WindowY(Option<i32>),
    WindowWidth(Option<u32>),
    WindowHeight(Option<u32>),
    AccountViewMode(AccountViewMode),
    AutoLogin(bool),
    AutoLaunchGame(bool),
    WebLaunchAutoLaunch(bool),
    WebLaunchAutoPaste(bool),
    CloseBehavior(CloseBehavior),
    HideAccountNames(bool),
    BeanfunRenameDismissed(bool),
    CafeMode(bool),
    DefaultLoginView(DefaultLoginView),
    /// Back to the factory settings.
    Reset,
}

/// What setting `key` to `v` asks for, or why it is refused.
pub open spec fn decode_field(key: Seq<char>, v: Seq<char>) -> Result<FieldChange, Seq<char>> {
    if key == "game_path"@ {
        Ok(FieldChange::GamePath)
    } else if key == "locale"@ {
        Ok(FieldChange::Locale)
    } else if key == "theme"@ {
        match theme_value(v) {
            Ok(x) => Ok(FieldChange::Theme(x)),
            Err(e) => Err(e),
        }
    } else if key == "language"@ {
        match language_value(v) {
            Ok(x) => Ok(FieldChange::Language(x)),
            Err(e) => Err(e),
        }
    } else if key == "auto_update"@ {
        match flag_value(v) {
            Ok(x) => Ok(FieldChange::AutoUpdate(x)),
            Err(e) => Err(e),
        }
    } else if key == "skip_play_confirm"@ {
        match flag_value(v) {
            Ok(x) => Ok(FieldChange::SkipPlayConfirm(x)),
            Err(e) => Err(e),
        }
    } else if key == "auto_start"@ {
        match flag_value(v) {
            Ok(x) => Ok(FieldChange::AutoStart(x)),
            Err(e) => Err(e),
        }
    } else if key == "region"@ {
        match region_value(v) {
            Ok(x) => Ok(FieldChange::Region(x)),
            Err(e) => Err(e),
        }
    } else if key == "debug_logging"@ {
        match flag_value(v) {
            Ok(x) => Ok(FieldChange::DebugLogging(x)),
            Err(e) => Err(e),
        }
    } else if key == "gamepass_incognito"@ {
        match flag_value(v) {
            Ok(x) => Ok(FieldChange::GamepassIncognito(x)),
            Err(e) => Err(e),
        }
    } else if key == "traditional_login"@ {
        match flag_value(v) {
            Ok(x) => Ok(FieldChange::TraditionalLogin(x)),
            Err(e) => Err(e),
        }
    } else if key == "auto_kill_patcher"@ {
        match flag_value(v) {
            Ok(x) => Ok(FieldChange::AutoKillPatcher(x)),
            Err(e) => Err(e),
        }
    } else if key == "update_channel"@ {
        match update_channel_value(v) {
            Ok(x) => Ok(FieldChange::UpdateChannel(x)),
            Err(e) => Err(e),
        }
    } else if key == "font_size"@ {
        match font_size_value(v) {
            Ok(x) => Ok(FieldChange::FontSize(x)),
            Err(e) => Err(e),
        }
    } else if key == "window_x"@ {
        match optional_i32_value(v) {
            Ok(x) => Ok(FieldChange::WindowX(x)),
            Err(e) => Err(e),
        }
    } else if key == "window_y"@ {
        match optional_i32_value(v) {
            Ok(x) => Ok(FieldChange::WindowY(x)),
            Err(e) => Err(e),
        }
    } else if key == "window_width"@ {
        match optional_u32_value(v) {
            Ok(x) => Ok(FieldChange::WindowWidth(x)),
            Err(e) => Err(e),
        }
    } else if key == "window_height"@ {
        match optional_u32_value(v) {
            Ok(x) => Ok(FieldChange::WindowHeight(x)),
            Err(e) => Err(e),
        }
    } else if key == "accountViewMode"@ || key == "account_view_mode"@ {
        Ok(FieldChange::AccountViewMode(ini_account_view_mode(v)))
    } else if key == "autoLogin"@ || key == "auto_login"@ {
        match flag_value(v) {
            Ok(x) => Ok(FieldChange::AutoLogin(x)),
            Err(e) => Err(e),
        }
    } else if key == "autoLaunchGame"@ || key == "auto_launch_game"@ {
        match flag_value(v) {
            Ok(x) => Ok(FieldChange::AutoLaunchGame(x)),
            Err(e) => Err(e),
        }
    } else if key == "webLaunchAutoLaunch"@ || key == "web_launch_auto_launch"@ {
        match flag_value(v) {
            Ok(x) => Ok(FieldChange::WebLaunchAutoLaunch(x)),
            Err(e) => Err(e),
        }
    } else if key == "webLaunchAutoPaste"@ || key == "web_launch_auto_paste"@ {
        match flag_value(v) {
            Ok(x) => Ok(FieldChange::WebLaunchAutoPaste(x)),
            Err(e) => Err(e),
        }
    } else if key == "closeBehavior"@ || key == "close_behavior"@ {
        match close_behavior_value(v) {
            Ok(x) => Ok(FieldChange::CloseBehavior(x)),
            Err(e) => Err(e),
        }
    } else if key == "hideAccountNames"@ || key == "hide_account_names"@ {
        match flag_value(v) {
            Ok(x) => Ok(FieldChange::HideAccountNames(x)),
            Err(e) => Err(e),
        }
    } else if key == "beanfunRenameDismissed"@ || key == "beanfun_rename_dismissed"@ {
        match flag_value(v) {
            Ok(x) => Ok(FieldChange::BeanfunRenameDismissed(x)),
            Err(e) => Err(e),
        }
    } else if key == "cafeMode"@ || key == "cafe_mode"@ {
        match flag_value(v) {
            Ok(x) => Ok(FieldChange::CafeMode(x)),
            Err(e) => Err(e),
        }
    } else if key == "defaultLoginView"@ || key == "default_login_view"@ {
        match default_login_view_value(v) {
            Ok(x) => Ok(FieldChange::DefaultLoginView(x)),
            Err(e) => Err(e),
        }
    } else if key == "__reset__"@ {
        Ok(FieldChange::Reset)
    } else {
        Err("unknown config key: "@ + key)
    }
}

// ---------------------------------------------------------------------------
// What a change holds for each setting
// ---------------------------------------------------------------------------

/// Whether the change is a reset.
#[verifier::opaque]
pub open spec fn is_reset(ch: FieldChange) -> bool {
    ch is Reset
}

fn is_reset_exec(ch: FieldChange) -> (r: bool)
    ensures
        r == is_reset(ch),
{
    reveal(is_reset);
    match ch {
        FieldChange::Reset => true,
        _ => false,
    }
}

/// Whether the change sets `game_path`.
#[verifier::opaque]
pub open spec fn sets_game_path(ch: FieldChange) -> bool {
    ch is GamePath
}

fn sets_game_path_exec(ch: FieldChange) -> (r: bool)
    ensures
        r == sets_game_path(ch),
{
    reveal(sets_game_path);
    match ch {
        FieldChange::GamePath => true,
        _ => false,
    }
}

/// Whether the change sets `locale`.
#[verifier::opaque]
pub open spec fn sets_locale(ch: FieldChange) -> bool {
    ch is Locale
}

fn sets_locale_exec(ch: FieldChange) -> (r: bool)
    ensures
        r == sets_locale(ch),
{
    reveal(sets_locale);
    match ch {
        FieldChange::Locale => true,
        _ => false,
    }
}

/// The new `theme`, when the change sets it.
#[verifier::opaque]
pub open spec fn new_theme(ch: FieldChange) -> Option<Theme> {
    match ch {
        FieldChange::Theme(x) => Some(x),
        _ => None,
    }
}

fn new_theme_exec(ch: FieldChange) -> (r: Option<Theme>)
    ensures
        r == new_theme(ch),
{
    reveal(new_theme);
    match ch {
        FieldChange::Theme(x) => Some(x),
        _ => None,
    }
}

/// The new `language`, when the change sets it.
#[verifier::opaque]
pub open spec fn new_language(ch: FieldChange) -> Option<Language> {
    match ch {
        FieldChange::Language(x) => Some(x),
        _ => None,
    }
}

fn new_language_exec(ch: FieldChange) -> (r: Option<Language>)
    ensures
        r == new_language(ch),
{
    reveal(new_language);
    match ch {
        FieldChange::Language(x) => Some(x),
        _ => None,
    }
}

/// The new `auto_update`, when the change sets it.
#[verifier::opaque]
pub open spec fn new_auto_update(ch: FieldChange) -> Option<bool> {
    match ch {
        FieldChange::AutoUpdate(x) => Some(x),
        _ => None,
    }
}

fn new_auto_update_exec(ch: FieldChange) -> (r: Option<bool>)
    ensures
        r == new_auto_update(ch),
{
    reveal(new_auto_update);
    match ch {
        FieldChange::AutoUpdate(x) => Some(x),
        _ => None,
    }
}

/// The new `update_channel`, when the change sets it.
#[verifier::opaque]
pub open spec fn new_update_channel(ch: FieldChange) -> Option<UpdateChannel> {
    match ch {
        FieldChange::UpdateChannel(x) => Some(x),
        _ => None,
    }
}

fn new_update_channel_exec(ch: FieldChange) -> (r: Option<UpdateChannel>)
    ensures
        r == new_update_channel(ch),
{
    reveal(new_update_channel);
    match ch {
        FieldChange::UpdateChannel(x) => Some(x),
        _ => None,
    }
}

/// The new `skip_play_confirm`, when the change sets it.
#[verifier::opaque]
pub open spec fn new_skip_play_confirm(ch: FieldChange) -> Option<bool> {
    match ch {
        FieldChange::SkipPlayConfirm(x) => Some(x),
        _ => None,
    }
}

fn new_skip_play_confirm_exec(ch: FieldChange) -> (r: Option<bool>)
    ensures
        r == new_skip_play_confirm(ch),
{
    reveal(new_skip_play_confirm);
    match ch {
        FieldChange::SkipPlayConfirm(x) => Some(x),
        _ => None,
    }
}

/// The new `auto_start`, when the change sets it.
#[verifier::opaque]
pub open spec fn new_auto_start(ch: FieldChange) -> Option<bool> {
    match ch {
        FieldChange::AutoStart(x) => Some(x),
        _ => None,
    }
}

fn new_auto_start_exec(ch: FieldChange) -> (r: Option<bool>)
    ensures
        r == new_auto_start(ch),
{
    reveal(new_auto_start);
    match ch {
        FieldChange::AutoStart(x) => Some(x),
        _ => None,
    }
}

/// The new `window_x`, when the change sets it.
#[verifier::opaque]
pub open spec fn new_window_x(ch: FieldChange) -> Option<Option<i32>> {
    match ch {
        FieldChange::WindowX(x) => Some(x),
        _ => None,
    }
}

fn new_window_x_exec(ch: FieldChange) -> (r: Option<Option<i32>>)
    ensures
        r == new_window_x(ch),
{
    reveal(new_window_x);
    match ch {
        FieldChange::WindowX(x) => Some(x),
        _ => None,
    }
}

/// The new `window_y`, when the change sets it.
#[verifier::opaque]
pub open spec fn new_window_y(ch: FieldChange) -> Option<Option<i32>> {
    match ch {
        FieldChange::WindowY(x) => Some(x),
        _ => None,
    }
}

fn new_window_y_exec(ch: FieldChange) -> (r: Option<Option<i32>>)
    ensures
        r == new_window_y(ch),
{
    reveal(new_window_y);
    match ch {
        FieldChange::WindowY(x) => Some(x),
        _ => None,
    }
}

/// The new `window_width`, when the change sets it.
#[verifier::opaque]
pub open spec fn new_window_width(ch: FieldChange) -> Option<Option<u32>> {
    match ch {
        FieldChange::WindowWidth(x) => Some(x),
        _ => None,
    }
}

fn new_window_width_exec(ch: FieldChange) -> (r: Option<Option<u32>>)
    ensures
        r == new_window_width(ch),
{
    reveal(new_window_width);
    match ch {
        FieldChange::WindowWidth(x) => Some(x),
        _ => None,
    }
}

/// The new `window_height`, when the change sets it.
#[verifier::opaque]
pub open spec fn new_window_height(ch: FieldChange) -> Option<Option<u32>> {
    match ch {
        FieldChange::WindowHeight(x) => Some(x),
        _ => None,
    }
}

fn new_window_height_exec(ch: FieldChange) -> (r: Option<Option<u32>>)
    ensures
        r == new_window_height(ch),
{
    reveal(new_window_height);
    match ch {
        FieldChange::WindowHeight(x) => Some(x),
        _ => None,
    }
}

/// The new `region`, when the change sets it.
#[verifier::opaque]
pub open spec fn new_region(ch: FieldChange) -> Option<Region> {
    match ch {
        FieldChange::Region(x) => Some(x),
        _ => None,
    }
}

fn new_region_exec(ch: FieldChange) -> (r: Option<Region>)
    ensures
        r == new_region(ch),
{
    reveal(new_region);
    match ch {
        FieldChange::Region(x) => Some(x),
        _ => None,
    }
}

/// The new `debug_logging`, when the change sets it.
#[verifier::opaque]
pub open spec fn new_debug_logging(ch: FieldChange) -> Option<bool> {
    match ch {
        FieldChange::DebugLogging(x) => Some(x),
        _ => None,
    }
}

fn new_debug_logging_exec(ch: FieldChange) -> (r: Option<bool>)
    ensures
        r == new_debug_logging(ch),
{
    reveal(new_debug_logging);
    match ch {
        FieldChange::DebugLogging(x) => Some(x),
        _ => None,
    }
}

/// The new `gamepass_incognito`, when the change sets it.
#[verifier::opaque]
pub open spec fn new_gamepass_incognito(ch: FieldChange) -> Option<bool> {
    match ch {
        FieldChange::GamepassIncognito(x) => Some(x),
        _ => None,
    }
}

fn new_gamepass_incognito_exec(ch: FieldChange) -> (r: Option<bool>)
    ensures
        r == new_gamepass_incognito(ch),
{
    reveal(new_gamepass_incognito);
    match ch {
        FieldChange::GamepassIncognito(x) => Some(x),
        _ => None,
    }
}

/// The new `font_size`, when the change sets it.
#[verifier::opaque]
pub open spec fn new_font_size(ch: FieldChange) -> Option<FontSize> {
    match ch {
        FieldChange::FontSize(x) => Some(x),
        _ => None,
    }
}

fn new_font_size_exec(ch: FieldChange) -> (r: Option<FontSize>)
    ensures
        r == new_font_size(ch),
{
    reveal(new_font_size);
    match ch {
        FieldChange::FontSize(x) => Some(x),
        _ => None,
    }
}

/// The new `traditional_login`, when the change sets it.
#[verifier::opaque]
pub open spec fn new_traditional_login(ch: FieldChange) -> Option<bool> {
    match ch {
        FieldChange::TraditionalLogin(x) => Some(x),
        _ => None,
    }
}

fn new_traditional_login_exec(ch: FieldChange) -> (r: Option<bool>)
    ensures
        r == new_traditional_login(ch),
{
    reveal(new_traditional_login);
    match ch {
        FieldChange::TraditionalLogin(x) => Some(x),
        _ => None,
    }
}

/// The new `auto_kill_patcher`, when the change sets it.
#[verifier::opaque]
pub open spec fn new_auto_kill_patcher(ch: FieldChange) -> Option<bool> {
    match ch {
        FieldChange::AutoKillPatcher(x) => Some(x),
        _ => None,
    }
}

fn new_auto_kill_patcher_exec(ch: FieldChange) -> (r: Option<bool>)
    ensures
        r == new_auto_kill_patcher(ch),
{
    reveal(new_auto_kill_patcher);
    match ch {
        FieldChange::AutoKillPatcher(x) => Some(x),
        _ => None,
    }
}

/// The new `account_view_mode`, when the change sets it.
#[verifier::opaque]
pub open spec fn new_account_view_mode(ch: FieldChange) -> Option<AccountViewMode> {
    match ch {
        FieldChange::AccountViewMode(x) => Some(x),
        _ => None,
    }
}

fn new_account_view_mode_exec(ch: FieldChange) -> (r: Option<AccountViewMode>)
    ensures
        r == new_account_view_mode(ch),
{
    reveal(new_account_view_mode);
    match ch {
        FieldChange::AccountViewMode(x) => Some(x),
        _ => None,
    }
}

/// The new `auto_login`, when the change sets it.
#[verifier::opaque]
pub open spec fn new_auto_login(ch: FieldChange) -> Option<bool> {
    match ch {
        FieldChange::AutoLogin(x) => Some(x),
        _ => None,
    }
}

fn new_auto_login_exec(ch: FieldChange) -> (r: Option<bool>)
    ensures
        r == new_auto_login(ch),
{
    reveal(new_auto_login);
    match ch {
        FieldChange::AutoLogin(x) => Some(x),
        _ => None,
    }
}

/// The new `auto_launch_game`, when the change sets it.
#[verifier::opaque]
pub open spec fn new_auto_launch_game(ch: FieldChange) -> Option<bool> {
    match ch {
        FieldChange::AutoLaunchGame(x) => Some(x),
        _ => None,
    }
}

fn new_auto_launch_game_exec(ch: FieldChange) -> (r: Option<bool>)
    ensures
        r == new_auto_launch_game(ch),
{
    reveal(new_auto_launch_game);
    match ch {
        FieldChange::AutoLaunchGame(x) => Some(x),
        _ => None,
    }
}

/// The new `web_launch_auto_launch`, when the change sets it.
#[verifier::opaque]
pub open spec fn new_web_launch_auto_launch(ch: FieldChange) -> Option<bool> {
    match ch {
        FieldChange::WebLaunchAutoLaunch(x) => Some(x),
        _ => None,
    }
}

fn new_web_launch_auto_launch_exec(ch: FieldChange) -> (r: Option<bool>)
    ensures
        r == new_web_launch_auto_launch(ch),
{
    reveal(new_web_launch_auto_launch);
    match ch {
        FieldChange::WebLaunchAutoLaunch(x) => Some(x),
        _ => None,
    }
}

/// The new `web_launch_auto_paste`, when the change sets it.
#[verifier::opaque]
pub open spec fn new_web_launch_auto_paste(ch: FieldChange) -> Option<bool> {
    match ch {
        FieldChange::WebLaunchAutoPaste(x) => Some(x),
        _ => None,
    }
}

fn new_web_launch_auto_paste_exec(ch: FieldChange) -> (r: Option<bool>)
    ensures
        r == new_web_launch_auto_paste(ch),
{
    reveal(new_web_launch_auto_paste);
    match ch {
        FieldChange::WebLaunchAutoPaste(x) => Some(x),
        _ => None,
    }
}

/// The new `close_behavior`, when the change sets it.
#[verifier::opaque]
pub open spec fn new_close_behavior(ch: FieldChange) -> Option<CloseBehavior> {
    match ch {
        FieldChange::CloseBehavior(x) => Some(x),
        _ => None,
    }
}

fn new_close_behavior_exec(ch: FieldChange) -> (r: Option<CloseBehavior>)
    ensures
        r == new_close_behavior(ch),
{
    reveal(new_close_behavior);
    match ch {
        FieldChange::CloseBehavior(x) => Some(x),
        _ => None,
    }
}

/// The new `hide_account_names`, when the change sets it.
#[verifier::opaque]
pub open spec fn new_hide_account_names(ch: FieldChange) -> Option<bool> {
    match ch {
        FieldChange::HideAccountNames(x) => Some(x),
        _ => None,
    }
}

fn new_hide_account_names_exec(ch: FieldChange) -> (r: Option<bool>)
    ensures
        r == new_hide_account_names(ch),
{
    reveal(new_hide_account_names);
    match ch {
        FieldChange::HideAccountNames(x) => Some(x),
        _ => None,
    }
}

/// The new `beanfun_rename_dismissed`, when the change sets it.
#[verifier::opaque]
pub open spec fn new_beanfun_rename_dismissed(ch: FieldChange) -> Option<bool> {
    match ch {
        FieldChange::BeanfunRenameDismissed(x) => Some(x),
        _ => None,
    }
}

fn new_beanfun_rename_dismissed_exec(ch: FieldChange) -> (r: Option<bool>)
    ensures
        r == new_beanfun_rename_dismissed(ch),
{
    reveal(new_beanfun_rename_dismissed);
    match ch {
        FieldChange::BeanfunRenameDismissed(x) => Some(x),
        _ => None,
    }
}

/// The new `cafe_mode`, when the change sets it.
#[verifier::opaque]
pub open spec fn new_cafe_mode(ch: FieldChange) -> Option<bool> {
    match ch {
        FieldChange::CafeMode(x) => Some(x),
        _ => None,
    }
}

fn new_cafe_mode_exec(ch: FieldChange) -> (r: Option<bool>)
    ensures
        r == new_cafe_mode(ch),
{
    reveal(new_cafe_mode);
    match ch {
        FieldChange::CafeMode(x) => Some(x),
        _ => None,
    }
}

/// The new `default_login_view`, when the change sets it.
#[verifier::opaque]
pub open spec fn new_default_login_view(ch: FieldChange) -> Option<DefaultLoginView> {
    match ch {
        FieldChange::DefaultLoginView(x) => Some(x),
        _ => None,
    }
}

fn new_default_login_view_exec(ch: FieldChange) -> (r: Option<DefaultLoginView>)
    ensures
        r == new_default_login_view(ch),
{
    reveal(new_default_login_view);
    match ch {
        FieldChange::DefaultLoginView(x) => Some(x),
        _ => None,
    }
}

/// The configuration after a change: the one setting it names takes its new
/// value (`v` itself for the texts), every other setting is kept; a reset
/// gives the factory settings.
pub open spec fn change_apply(c: ConfigModel, ch: FieldChange, v: Seq<char>) -> ConfigModel {
    if is_reset(ch) {
        default_config()
    } else {
        ConfigModel {
            game_path: if sets_game_path(ch) {
                v
            } else {
                c.game_path
            },
            locale: if sets_locale(ch) {
                v
            } else {
                c.locale
            },
            theme: match new_theme(ch) {
                Some(x) => x,
                None => c.theme,
            },
            language: match new_language(ch) {
                Some(x) => x,
                None => c.language,
            },
            auto_update: match new_auto_update(ch) {
                Some(x) => x,
                None => c.auto_update,
            },
            update_channel: match new_update_channel(ch) {
                Some(x) => x,
                None => c.update_channel,
            },
            skip_play_confirm: match new_skip_play_confirm(ch) {
                Some(x) => x,
                None => c.skip_play_confirm,
            },
            auto_start: match new_auto_start(ch) {
                Some(x) => x,
                None => c.auto_start,
            },
            window_x: match new_window_x(ch) {
                Some(x) => x,
                None => c.window_x,
            },
            window_y: match new_window_y(ch) {
                Some(x) => x,
                None => c.window_y,
            },
            window_width: match new_window_width(ch) {
                Some(x) => x,
                None => c.window_width,
            },
            window_height: match new_window_height(ch) {
                Some(x) => x,
                None => c.window_height,
            },
            region: match new_region(ch) {
                Some(x) => x,
                None => c.region,
            },
            debug_logging: match new_debug_logging(ch) {
                Some(x) => x,
                None => c.debug_logging,
            },
            gamepass_incognito: match new_gamepass_incognito(ch) {
                Some(x) => x,
                None => c.gamepass_incognito,
            },
            font_size: match new_font_size(ch) {
                Some(x) => x,
                None => c.font_size,
            },
            traditional_login: match new_traditional_login(ch) {
                Some(x) => x,
                None => c.traditional_login,
            },
            auto_kill_patcher: match new_auto_kill_patcher(ch) {
                Some(x) => x,
                None => c.auto_kill_patcher,
            },
            account_view_mode: match new_account_view_mode(ch) {
                Some(x) => x,
                None => c.account_view_mode,
            },
            auto_login: match new_auto_login(ch) {
                Some(x) => x,
                None => c.auto_login,
            },
            auto_launch_game: match new_auto_launch_game(ch) {
                Some(x) => x,
                None => c.auto_launch_game,
            },
            web_launch_auto_launch: match new_web_launch_auto_launch(ch) {
                Some(x) => x,
                None => c.web_launch_auto_launch,
            },
            web_launch_auto_paste: match new_web_launch_auto_paste(ch) {
                Some(x) => x,
                None => c.web_launch_auto_paste,
            },
            close_behavior: match new_close_behavior(ch) {
                Some(x) => x,
                None => c.close_behavior,
            },
            hide_account_names: match new_hide_account_names(ch) {
                Some(x) => x,
                None => c.hide_account_names,
            },
            beanfun_rename_dismissed: match new_beanfun_rename_dismissed(ch) {
                Some(x) => x,
                None => c.beanfun_rename_dismissed,
            },
            cafe_mode: match new_cafe_mode(ch) {
                Some(x) => x,
                None => c.cafe_mode,
            },
            default_login_view: match new_default_login_view(ch) {
                Some(x) => x,
                None => c.default_login_view,
            },
        }
    }
}

/// Effect of setting `key` to `v`: the configuration with that one setting
/// changed, or the reason why the key or value is refused. `__reset__`
/// restores the factory settings.
pub open spec fn field_update(c: ConfigModel, key: Seq<char>, v: Seq<char>) -> Result<ConfigModel, Seq<char>> {
    match decode_field(key, v) {
        Ok(ch) => Ok(change_apply(c, ch, v)),
        Err(e) => Err(e),
    }
}

/// The keys that have a camelCase and a snake_case spelling.
pub open spec fn key_aliases(camel: Seq<char>, snake: Seq<char>) -> bool {
    ||| (camel == "accountViewMode"@ && snake == "account_view_mode"@)
    ||| (camel == "autoLogin"@ && snake == "auto_login"@)
    ||| (camel == "autoLaunchGame"@ && snake == "auto_launch_game"@)
    ||| (camel == "webLaunchAutoLaunch"@ && snake == "web_launch_auto_launch"@)
    ||| (camel == "webLaunchAutoPaste"@ && snake == "web_launch_auto_paste"@)
    ||| (camel == "closeBehavior"@ && snake == "close_behavior"@)
    ||| (camel == "hideAccountNames"@ && snake == "hide_account_names"@)
    ||| (camel == "beanfunRenameDismissed"@ && snake == "beanfun_rename_dismissed"@)
    ||| (camel == "cafeMode"@ && snake == "cafe_mode"@)
    ||| (camel == "defaultLoginView"@ && snake == "default_login_view"@)
}

/// A setting's camelCase key and its snake_case key do the same thing: the
/// same change, or the same refusal, for every value.
pub proof fn lemma_key_aliases_agree(c: ConfigModel, camel: Seq<char>, snake: Seq<char>, v: Seq<char>)
    requires
        key_aliases(camel, snake),
    ensures
        field_update(c, camel, v) == field_update(c, snake, v),
{
    reveal_strlit("game_path");
    assert("game_path"@.len() == 9);
    reveal_strlit("locale");
    assert("locale"@.len() == 6);
    reveal_strlit("theme");
    assert("theme"@.len() == 5);
    reveal_strlit("language");
    assert("language"@.len() == 8);
    reveal_strlit("auto_update");
    assert("auto_update"@.len() == 11);
    reveal_strlit("skip_play_confirm");
    assert("skip_play_confirm"@.len() == 17);
    reveal_strlit("auto_start");
    assert("auto_start"@.len() == 10);
    reveal_strlit("region");
    assert("region"@.len() == 6);
    reveal_strlit("debug_logging");
    assert("debug_logging"@.len() == 13);
    reveal_strlit("gamepass_incognito");
    assert("gamepass_incognito"@.len() == 18);
    reveal_strlit("traditional_login");
    assert("traditional_login"@.len() == 17);
    reveal_strlit("auto_kill_patcher");
    assert("auto_kill_patcher"@.len() == 17);
    reveal_strlit("update_channel");
    assert("update_channel"@.len() == 14);
    reveal_strlit("font_size");
    assert("font_size"@.len() == 9);
    reveal_strlit("window_x");
    assert("window_x"@.len() == 8);
    reveal_strlit("window_y");
    assert("window_y"@.len() == 8);
    reveal_strlit("window_width");
    assert("window_width"@.len() == 12);
    reveal_strlit("window_height");
    assert("window_height"@.len() == 13);
    reveal_strlit("accountViewMode");
    assert("accountViewMode"@.len() == 15);
    reveal_strlit("account_view_mode");
    assert("account_view_mode"@.len() == 17);
    reveal_strlit("autoLogin");
    assert("autoLogin"@.len() == 9);
    reveal_strlit("auto_login");
    assert("auto_login"@.len() == 10);
    reveal_strlit("autoLaunchGame");
    assert("autoLaunchGame"@.len() == 14);
    reveal_strlit("auto_launch_game");
    assert("auto_launch_game"@.len() == 16);
    reveal_strlit("webLaunchAutoLaunch");
    assert("webLaunchAutoLaunch"@.len() == 19);
    reveal_strlit("web_launch_auto_launch");
    assert("web_launch_auto_launch"@.len() == 22);
    reveal_strlit("webLaunchAutoPaste");
    assert("webLaunchAutoPaste"@.len() == 18);
    reveal_strlit("web_launch_auto_paste");
    assert("web_launch_auto_paste"@.len() == 21);
    reveal_strlit("closeBehavior");
    assert("closeBehavior"@.len() == 13);
    reveal_strlit("close_behavior");
    assert("close_behavior"@.len() == 14);
    reveal_strlit("hideAccountNames");
    assert("hideAccountNames"@.len() == 16);
    reveal_strlit("hide_account_names");
    assert("hide_account_names"@.len() == 18);
    reveal_strlit("beanfunRenameDismissed");
    assert("beanfunRenameDismissed"@.len() == 22);
    reveal_strlit("beanfun_rename_dismissed");
    assert("beanfun_rename_dismissed"@.len() == 24);
    reveal_strlit("cafeMode");
    assert("cafeMode"@.len() == 8);
    reveal_strlit("cafe_mode");
    assert("cafe_mode"@.len() == 9);
    reveal_strlit("defaultLoginView");
    assert("defaultLoginView"@.len() == 16);
    reveal_strlit("default_login_view");
    assert("default_login_view"@.len() == 18);
    reveal_strlit("__reset__");
    assert("__reset__"@.len() == 9);
    assert("account_view_mode"@[0] != "skip_play_confirm"@[0]);
    assert("account_view_mode"@[0] != "traditional_login"@[0]);
    assert("account_view_mode"@[1] != "auto_kill_patcher"@[1]);
    assert("autoLogin"@[0] != "game_path"@[0]);
    assert("autoLogin"@[0] != "font_size"@[0]);
    assert("auto_login"@[5] != "auto_start"@[5]);
    assert("autoLaunchGame"@[0] != "update_channel"@[0]);
    assert("webLaunchAutoPaste"@[0] != "gamepass_incognito"@[0]);
    assert("closeBehavior"@[0] != "debug_logging"@[0]);
    assert("closeBehavior"@[0] != "window_height"@[0]);
    assert("close_behavior"@[0] != "update_channel"@[0]);
    assert("close_behavior"@[0] != "autoLaunchGame"@[0]);
    assert("hideAccountNames"@[0] != "auto_launch_game"@[0]);
    assert("hide_account_names"@[0] != "gamepass_incognito"@[0]);
    assert("hide_account_names"@[0] != "webLaunchAutoPaste"@[0]);
    assert("beanfunRenameDismissed"@[0] != "web_launch_auto_launch"@[0]);
    assert("cafeMode"@[0] != "language"@[0]);
    assert("cafeMode"@[0] != "window_x"@[0]);
    assert("cafeMode"@[0] != "window_y"@[0]);
    assert("cafe_mode"@[0] != "game_path"@[0]);
    assert("cafe_mode"@[0] != "font_size"@[0]);
    assert("cafe_mode"@[0] != "autoLogin"@[0]);
    assert("defaultLoginView"@[0] != "auto_launch_game"@[0]);
    assert("defaultLoginView"@[0] != "hideAccountNames"@[0]);
    assert("default_login_view"@[0] != "gamepass_incognito"@[0]);
    assert("default_login_view"@[0] != "webLaunchAutoPaste"@[0]);
    assert("default_login_view"@[0] != "hide_account_names"@[0]);
}

/// The reason carried by an error.
pub open spec fn error_text(e: ConfigError) -> Seq<char> {
    match e {
        ConfigError::ParseError { reason } => reason@,
    }
}

/// A result with its error replaced by the reason text.
pub open spec fn outcome<T>(r: Result<T, ConfigError>) -> Result<T, Seq<char>> {
    match r {
        Ok(t) => Ok(t),
        Err(e) => Err(error_text(e)),
    }
}

// ---------------------------------------------------------------------------
// Reading values
// ---------------------------------------------------------------------------

fn parse_error(prefix: &str, value: &str) -> (e: ConfigError)
    ensures
        error_text(e) == prefix@ + value@,
{
    let mut reason: String = prefix.to_owned();
    reason.append(value);
    ConfigError::ParseError { reason }
}

fn parse_bool(value: &str) -> (r: Result<bool, ConfigError>)
    ensures
        outcome(r) == flag_value(value@),
{
    let l = to_lower(value);
    if eq_lit(&l, "true") || eq_lit(&l, "1") || eq_lit(&l, "yes") {
        Ok(true)
    } else if eq_lit(&l, "false") || eq_lit(&l, "0") || eq_lit(&l, "no") {
        Ok(false)
    } else {
        Err(parse_error("expected boolean, got: ", value))
    }
}

fn parse_theme(value: &str) -> (r: Result<Theme, ConfigError>)
    ensures
        outcome(r) == theme_value(value@),
{
    let l = to_lower(value);
    if eq_lit(&l, "system") {
        Ok(Theme::System)
    } else if eq_lit(&l, "dark") {
        Ok(Theme::Dark)
    } else if eq_lit(&l, "light") {
        Ok(Theme::Light)
    } else {
        Err(parse_error("unknown theme value: ", value))
    }
}

fn parse_language(value: &str) -> (r: Result<Language, ConfigError>)
    ensures
        outcome(r) == language_value(value@),
{
    let l = to_lower(value);
    let l = crate::text::remove_in(&l, '-');
    if eq_lit(&l, "enus") || eq_lit(&l, "en_us") {
        Ok(Language::EnUS)
    } else if eq_lit(&l, "zhtw") || eq_lit(&l, "zh_tw") {
        Ok(Language::ZhTW)
    } else if eq_lit(&l, "zhcn") || eq_lit(&l, "zh_cn") {
        Ok(Language::ZhCN)
    } else {
        Err(parse_error("unknown language value: ", value))
    }
}

fn parse_region(value: &str) -> (r: Result<Region, ConfigError>)
    ensures
        outcome(r) == region_value(value@),
{
    let u = to_upper(value);
    if eq_lit(&u, "TW") {
        Ok(Region::TW)
    } else if eq_lit(&u, "HK") {
        Ok(Region::HK)
    } else {
        Err(parse_error("unknown region value: ", value))
    }
}

fn parse_update_channel(value: &str) -> (r: Result<UpdateChannel, ConfigError>)
    ensures
        outcome(r) == update_channel_value(value@),
{
    let l = to_lower(value);
    let l = crate::text::replace_in(&l, '_', '-');
    if eq_lit(&l, "release") {
        Ok(UpdateChannel::Release)
    } else if eq_lit(&l, "pre-release") || eq_lit(&l, "prerelease") {
        Ok(UpdateChannel::PreRelease)
    } else {
        Err(parse_error("unknown update_channel value: ", value))
    }
}

fn parse_font_size(value: &str) -> (r: Result<FontSize, ConfigError>)
    ensures
        outcome(r) == font_size_value(value@),
{
    let l = to_lower(value);
    if eq_lit(&l, "small") {
        Ok(FontSize::Small)
    } else if eq_lit(&l, "medium") {
        Ok(FontSize::Medium)
    } else if eq_lit(&l, "large") {
        Ok(FontSize::Large)
    } else if eq_lit(&l, "extra-large") {
        Ok(FontSize::ExtraLarge)
    } else {
        Err(parse_error("unknown font_size value: ", value))
    }
}

fn is_unset(value: &str) -> (r: bool)
    ensures
        r == (value@.len() == 0 || value@ == "null"@ || value@ == "none"@),
{
    let v: String = value.to_owned();
    value.is_empty() || eq_lit(&v, "null") || eq_lit(&v, "none")
}

fn parse_optional_i32(value: &str) -> (r: Result<Option<i32>, ConfigError>)
    ensures
        outcome(r) == optional_i32_value(value@),
{
    if is_unset(value) {
        return Ok(None);
    }
    match parse_i32(value) {
        Some(n) => Ok(Some(n)),
        None => Err(parse_error("expected integer, got: ", value)),
    }
}

fn parse_optional_u32(value: &str) -> (r: Result<Option<u32>, ConfigError>)
    ensures
        outcome(r) == optional_u32_value(value@),
{
    if is_unset(value) {
        return Ok(None);
    }
    match parse_u32(value) {
        Some(n) => Ok(Some(n)),
        None => Err(parse_error("expected unsigned integer, got: ", value)),
    }
}

fn parse_account_view_mode(value: &str) -> (r: AccountViewMode)
    ensures
        r == ini_account_view_mode(value@),
{
    reveal(ini_account_view_mode);
    let l = to_lower(value);
    if eq_lit(&l, "list") {
        AccountViewMode::List
    } else if eq_lit(&l, "card") {
        AccountViewMode::Card
    } else {
        AccountViewMode::Card
    }
}

fn parse_close_behavior(value: &str) -> (r: Result<CloseBehavior, ConfigError>)
    ensures
        outcome(r) == close_behavior_value(value@),
{
    let l = to_lower(value);
    if eq_lit(&l, "quit") {
        Ok(CloseBehavior::Quit)
    } else if eq_lit(&l, "tray") {
        Ok(CloseBehavior::Tray)
    } else if eq_lit(&l, "ask") {
        Ok(CloseBehavior::Ask)
    } else {
        Err(parse_error("unknown close_behavior value: ", value))
    }
}

fn parse_default_login_view(value: &str) -> (r: Result<DefaultLoginView, ConfigError>)
    ensures
        outcome(r) == default_login_view_value(value@),
{
    let l = to_lower(value);
    if eq_lit(&l, "normal") {
        Ok(DefaultLoginView::Normal)
    } else if eq_lit(&l, "qr") {
        Ok(DefaultLoginView::Qr)
    } else {
        Err(parse_error("unknown default_login_view value: ", value))
    }
}

// ---------------------------------------------------------------------------
// Field mapping
// ---------------------------------------------------------------------------

/// Reads which setting a key names and the value given for it.
#[verifier::spinoff_prover]
fn decode(key: &str, value: &str) -> (r: Result<FieldChange, ConfigError>)
    ensures
        outcome(r) == decode_field(key@, value@),
{
    let k: String = key.to_owned();
    if eq_lit(&k, "game_path") {
        return Ok(FieldChange::GamePath);
    }
    if eq_lit(&k, "locale") {
        return Ok(FieldChange::Locale);
    }
    if eq_lit(&k, "theme") {
        return match parse_theme(value) {
            Ok(x) => Ok(FieldChange::Theme(x)),
            Err(e) => Err(e),
        };
    }
    if eq_lit(&k, "language") {
        return match parse_language(value) {
            Ok(x) => Ok(FieldChange::Language(x)),
            Err(e) => Err(e),
        };
    }
    if eq_lit(&k, "auto_update") {
        return match parse_bool(value) {
            Ok(x) => Ok(FieldChange::AutoUpdate(x)),
            Err(e) => Err(e),
        };
    }
    if eq_lit(&k, "skip_play_confirm") {
        return match parse_bool(value) {
            Ok(x) => Ok(FieldChange::SkipPlayConfirm(x)),
            Err(e) => Err(e),
        };
    }
    if eq_lit(&k, "auto_start") {
        return match parse_bool(value) {
            Ok(x) => Ok(FieldChange::AutoStart(x)),
            Err(e) => Err(e),
        };
    }
    if eq_lit(&k, "region") {
        return match parse_region(value) {
            Ok(x) => Ok(FieldChange::Region(x)),
            Err(e) => Err(e),
        };
    }
    if eq_lit(&k, "debug_logging") {
        return match parse_bool(value) {
            Ok(x) => Ok(FieldChange::DebugLogging(x)),
            Err(e) => Err(e),
        };
    }
    if eq_lit(&k, "gamepass_incognito") {
        return match parse_bool(value) {
            Ok(x) => Ok(FieldChange::GamepassIncognito(x)),
            Err(e) => Err(e),
        };
    }
    if eq_lit(&k, "traditional_login") {
        return match parse_bool(value) {
            Ok(x) => Ok(FieldChange::TraditionalLogin(x)),
            Err(e) => Err(e),
        };
    }
    if eq_lit(&k, "auto_kill_patcher") {
        return match parse_bool(value) {
            Ok(x) => Ok(FieldChange::AutoKillPatcher(x)),
            Err(e) => Err(e),
        };
    }
    if eq_lit(&k, "update_channel") {
        return match parse_update_channel(value) {
            Ok(x) => Ok(FieldChange::UpdateChannel(x)),
            Err(e) => Err(e),
        };
    }
    if eq_lit(&k, "font_size") {
        return match parse_font_size(value) {
            Ok(x) => Ok(FieldChange::FontSize(x)),
            Err(e) => Err(e),
        };
    }
    if eq_lit(&k, "window_x") {
        return match parse_optional_i32(value) {
            Ok(x) => Ok(FieldChange::WindowX(x)),
            Err(e) => Err(e),
        };
    }
    if eq_lit(&k, "window_y") {
        return match parse_optional_i32(value) {
            Ok(x) => Ok(FieldChange::WindowY(x)),
            Err(e) => Err(e),
        };
    }
    if eq_lit(&k, "window_width") {
        return match parse_optional_u32(value) {
            Ok(x) => Ok(FieldChange::WindowWidth(x)),
            Err(e) => Err(e),
        };
    }
    if eq_lit(&k, "window_height") {
        return match parse_optional_u32(value) {
            Ok(x) => Ok(FieldChange::WindowHeight(x)),
            Err(e) => Err(e),
        };
    }
    if eq_lit(&k, "accountViewMode") || eq_lit(&k, "account_view_mode") {
        return Ok(FieldChange::AccountViewMode(parse_account_view_mode(value)));
    }
    if eq_lit(&k, "autoLogin") || eq_lit(&k, "auto_login") {
        return match parse_bool(value) {
            Ok(x) => Ok(FieldChange::AutoLogin(x)),
            Err(e) => Err(e),
        };
    }
    if eq_lit(&k, "autoLaunchGame") || eq_lit(&k, "auto_launch_game") {
        return match parse_bool(value) {
            Ok(x) => Ok(FieldChange::AutoLaunchGame(x)),
            Err(e) => Err(e),
        };
    }
    if eq_lit(&k, "webLaunchAutoLaunch") || eq_lit(&k, "web_launch_auto_launch") {
        return match parse_bool(value) {
            Ok(x) => Ok(FieldChange::WebLaunchAutoLaunch(x)),
            Err(e) => Err(e),
        };
    }
    if eq_lit(&k, "webLaunchAutoPaste") || eq_lit(&k, "web_launch_auto_paste") {
        return match parse_bool(value) {
            Ok(x) => Ok(FieldChange::WebLaunchAutoPaste(x)),
            Err(e) => Err(e),
        };
    }
    if eq_lit(&k, "closeBehavior") || eq_lit(&k, "close_behavior") {
        return match parse_close_behavior(value) {
            Ok(x) => Ok(FieldChange::CloseBehavior(x)),
            Err(e) => Err(e),
        };
    }
    if eq_lit(&k, "hideAccountNames") || eq_lit(&k, "hide_account_names") {
        return match parse_bool(value) {
            Ok(x) => Ok(FieldChange::HideAccountNames(x)),
            Err(e) => Err(e),
        };
    }
    if eq_lit(&k, "beanfunRenameDismissed") || eq_lit(&k, "beanfun_rename_dismissed") {
        return match parse_bool(value) {
            Ok(x) => Ok(FieldChange::BeanfunRenameDismissed(x)),
            Err(e) => Err(e),
        };
    }
    if eq_lit(&k, "cafeMode") || eq_lit(&k, "cafe_mode") {
        return match parse_bool(value) {
            Ok(x) => Ok(FieldChange::CafeMode(x)),
            Err(e) => Err(e),
        };
    }
    if eq_lit(&k, "defaultLoginView") || eq_lit(&k, "default_login_view") {
        return match parse_default_login_view(value) {
            Ok(x) => Ok(FieldChange::DefaultLoginView(x)),
            Err(e) => Err(e),
        };
    }
    if eq_lit(&k, "__reset__") {
        return Ok(FieldChange::Reset);
    }
    Err(parse_error("unknown config key: ", key))
}

/// `new` when `cond` holds, else `cur`.
fn pick<T>(cond: bool, new: T, cur: T) -> (r: T)
    ensures
        r == (if cond {
            new
        } else {
            cur
        }),
{
    if cond {
        new
    } else {
        cur
    }
}

/// Part 1 of [`change_apply`] for a change other than a reset.
spec fn change_part1(c: ConfigModel, ch: FieldChange, v: Seq<char>) -> ConfigModel {
    ConfigModel {
        game_path: if sets_game_path(ch) {
            v
        } else {
            c.game_path
        },
        locale: if sets_locale(ch) {
            v
        } else {
            c.locale
        },
        ..c
    }
}

/// Part 2 of [`change_apply`] for a change other than a reset.
spec fn change_part2(c: ConfigModel, ch: FieldChange, v: Seq<char>) -> ConfigModel {
    ConfigModel {
        theme: match new_theme(ch) {
            Some(x) => x,
            None => c.theme,
        },
        language: match new_language(ch) {
            Some(x) => x,
            None => c.language,
        },
        ..c
    }
}

/// Part 3 of [`change_apply`] for a change other than a reset.
spec fn change_part3(c: ConfigModel, ch: FieldChange, v: Seq<char>) -> ConfigModel {
    ConfigModel {
        auto_update: match new_auto_update(ch) {
            Some(x) => x,
            None => c.auto_update,
        },
        update_channel: match new_update_channel(ch) {
            Some(x) => x,
            None => c.update_channel,
        },
        ..c
    }
}

/// Part 4 of [`change_apply`] for a change other than a reset.
spec fn change_part4(c: ConfigModel, ch: FieldChange, v: Seq<char>) -> ConfigModel {
    ConfigModel {
        skip_play_confirm: match new_skip_play_confirm(ch) {
            Some(x) => x,
            None => c.skip_play_confirm,
        },
        auto_start: match new_auto_start(ch) {
            Some(x) => x,
            None => c.auto_start,
        },
        ..c
    }
}

/// Part 5 of [`change_apply`] for a change other than a reset.
spec fn change_part5(c: ConfigModel, ch: FieldChange, v: Seq<char>) -> ConfigModel {
    ConfigModel {
        window_x: match new_window_x(ch) {
            Some(x) => x,
            None => c.window_x,
        },
        window_y: match new_window_y(ch) {
            Some(x) => x,
            None => c.window_y,
        },
        ..c
    }
}

/// Part 6 of [`change_apply`] for a change other than a reset.
spec fn change_part6(c: ConfigModel, ch: FieldChange, v: Seq<char>) -> ConfigModel {
    ConfigModel {
        window_width: match new_window_width(ch) {
            Some(x) => x,
            None => c.window_width,
        },
        window_height: match new_window_height(ch) {
            Some(x) => x,
            None => c.window_height,
        },
        ..c
    }
}

/// Part 7 of [`change_apply`] for a change other than a reset.
spec fn change_part7(c: ConfigModel, ch: FieldChange, v: Seq<char>) -> ConfigModel {
    ConfigModel {
        region: match new_region(ch) {
            Some(x) => x,
            None => c.region,
        },
        debug_logging: match new_debug_logging(ch) {
            Some(x) => x,
            None => c.debug_logging,
        },
        ..c
    }
}

/// Part 8 of [`change_apply`] for a change other than a reset.
spec fn change_part8(c: ConfigModel, ch: FieldChange, v: Seq<char>) -> ConfigModel {
    ConfigModel {
        gamepass_incognito: match new_gamepass_incognito(ch) {
            Some(x) => x,
            None => c.gamepass_incognito,
        },
        font_size: match new_font_size(ch) {
            Some(x) => x,
            None => c.font_size,
        },
        ..c
    }
}

/// Part 9 of [`change_apply`] for a change other than a reset.
spec fn change_part9(c: ConfigModel, ch: FieldChange, v: Seq<char>) -> ConfigModel {
    ConfigModel {
        traditional_login: match new_traditional_login(ch) {
            Some(x) => x,
            None => c.traditional_login,
        },
        auto_kill_patcher: match new_auto_kill_patcher(ch) {
            Some(x) => x,
            None => c.auto_kill_patcher,
        },
        ..c
    }
}

/// Part 10 of [`change_apply`] for a change other than a reset.
spec fn change_part10(c: ConfigModel, ch: FieldChange, v: Seq<char>) -> ConfigModel {
    ConfigModel {
        account_view_mode: match new_account_view_mode(ch) {
            Some(x) => x,
            None => c.account_view_mode,
        },
        auto_login: match new_auto_login(ch) {
            Some(x) => x,
            None => c.auto_login,
        },
        ..c
    }
}

/// Part 11 of [`change_apply`] for a change other than a reset.
spec fn change_part11(c: ConfigModel, ch: FieldChange, v: Seq<char>) -> ConfigModel {
    ConfigModel {
        auto_launch_game: match new_auto_launch_game(ch) {
            Some(x) => x,
            None => c.auto_launch_game,
        },
        web_launch_auto_launch: match new_web_launch_auto_launch(ch) {
            Some(x) => x,
            None => c.web_launch_auto_launch,
        },
        ..c
    }
}

/// Part 12 of [`change_apply`] for a change other than a reset.
spec fn change_part12(c: ConfigModel, ch: FieldChange, v: Seq<char>) -> ConfigModel {
    ConfigModel {
        web_launch_auto_paste: match new_web_launch_auto_paste(ch) {
            Some(x) => x,
            None => c.web_launch_auto_paste,
        },
        close_behavior: match new_close_behavior(ch) {
            Some(x) => x,
            None => c.close_behavior,
        },
        ..c
    }
}

/// Part 13 of [`change_apply`] for a change other than a reset.
spec fn change_part13(c: ConfigModel, ch: FieldChange, v: Seq<char>) -> ConfigModel {
    ConfigModel {
        hide_account_names: match new_hide_account_names(ch) {
            Some(x) => x,
            None => c.hide_account_names,
        },
        beanfun_rename_dismissed: match new_beanfun_rename_dismissed(ch) {
            Some(x) => x,
            None => c.beanfun_rename_dismissed,
        },
        ..c
    }
}

/// Part 14 of [`change_apply`] for a change other than a reset.
spec fn change_part14(c: ConfigModel, ch: FieldChange, v: Seq<char>) -> ConfigModel {
    ConfigModel {
        cafe_mode: match new_cafe_mode(ch) {
            Some(x) => x,
            None => c.cafe_mode,
        },
        default_login_view: match new_default_login_view(ch) {
            Some(x) => x,
            None => c.default_login_view,
        },
        ..c
    }
}


#[verifier::spinoff_prover]
fn change_part1_exec(config: &mut AppConfig, ch: FieldChange, value: &str)
    ensures
        final(config)@ == change_part1(old(config)@, ch, value@),
{
    let game_path = pick(sets_game_path_exec(ch), value.to_owned(), config.game_path.clone());
    let locale = pick(sets_locale_exec(ch), value.to_owned(), config.locale.clone());
    config.game_path = game_path;
    config.locale = locale;
}

#[verifier::spinoff_prover]
fn change_part2_exec(config: &mut AppConfig, ch: FieldChange, value: &str)
    ensures
        final(config)@ == change_part2(old(config)@, ch, value@),
{
    let theme = match new_theme_exec(ch) {
        Some(x) => x,
        None => config.theme,
    };
    let language = match new_language_exec(ch) {
        Some(x) => x,
        None => config.language,
    };
    config.theme = theme;
    config.language = language;
}

#[verifier::spinoff_prover]
fn change_part3_exec(config: &mut AppConfig, ch: FieldChange, value: &str)
    ensures
        final(config)@ == change_part3(old(config)@, ch, value@),
{
    let auto_update = match new_auto_update_exec(ch) {
        Some(x) => x,
        None => config.auto_update,
    };
    let update_channel = match new_update_channel_exec(ch) {
        Some(x) => x,
        None => config.update_channel,
    };
    config.auto_update = auto_update;
    config.update_channel = update_channel;
}

#[verifier::spinoff_prover]
fn change_part4_exec(config: &mut AppConfig, ch: FieldChange, value: &str)
    ensures
        final(config)@ == change_part4(old(config)@, ch, value@),
{
    let skip_play_confirm = match new_skip_play_confirm_exec(ch) {
        Some(x) => x,
        None => config.skip_play_confirm,
    };
    let auto_start = match new_auto_start_exec(ch) {
        Some(x) => x,
        None => config.auto_start,
    };
    config.skip_play_confirm = skip_play_confirm;
    config.auto_start = auto_start;
}

#[verifier::spinoff_prover]
fn change_part5_exec(config: &mut AppConfig, ch: FieldChange, value: &str)
    ensures
        final(config)@ == change_part5(old(config)@, ch, value@),
{
    let window_x = match new_window_x_exec(ch) {
        Some(x) => x,
        None => config.window_x,
    };
    let window_y = match new_window_y_exec(ch) {
        Some(x) => x,
        None => config.window_y,
    };
    config.window_x = window_x;
    config.window_y = window_y;
}

#[verifier::spinoff_prover]
fn change_part6_exec(config: &mut AppConfig, ch: FieldChange, value: &str)
    ensures
        final(config)@ == change_part6(old(config)@, ch, value@),
{
    let window_width = match new_window_width_exec(ch) {
        Some(x) => x,
        None => config.window_width,
    };
    let window_height = match new_window_height_exec(ch) {
        Some(x) => x,
        None => config.window_height,
    };
    config.window_width = window_width;
    config.window_height = window_height;
}

#[verifier::spinoff_prover]
fn change_part7_exec(config: &mut AppConfig, ch: FieldChange, value: &str)
    ensures
        final(config)@ == change_part7(old(config)@, ch, value@),
{
    let region = match new_region_exec(ch) {
        Some(x) => x,
        None => config.region,
    };
    let debug_logging = match new_debug_logging_exec(ch) {
        Some(x) => x,
        None => config.debug_logging,
    };
    config.region = region;
    config.debug_logging = debug_logging;
}

#[verifier::spinoff_prover]
fn change_part8_exec(config: &mut AppConfig, ch: FieldChange, value: &str)
    ensures
        final(config)@ == change_part8(old(config)@, ch, value@),
{
    let gamepass_incognito = match new_gamepass_incognito_exec(ch) {
        Some(x) => x,
        None => config.gamepass_incognito,
    };
    let font_size = match new_font_size_exec(ch) {
        Some(x) => x,
        None => config.font_size,
    };
    config.gamepass_incognito = gamepass_incognito;
    config.font_size = font_size;
}

#[verifier::spinoff_prover]
fn change_part9_exec(config: &mut AppConfig, ch: FieldChange, value: &str)
    ensures
        final(config)@ == change_part9(old(config)@, ch, value@),
{
    let traditional_login = match new_traditional_login_exec(ch) {
        Some(x) => x,
        None => config.traditional_login,
    };
    let auto_kill_patcher = match new_auto_kill_patcher_exec(ch) {
        Some(x) => x,
        None => config.auto_kill_patcher,
    };
    config.traditional_login = traditional_login;
    config.auto_kill_patcher = auto_kill_patcher;
}

#[verifier::spinoff_prover]
fn change_part10_exec(config: &mut AppConfig, ch: FieldChange, value: &str)
    ensures
        final(config)@ == change_part10(old(config)@, ch, value@),
{
    let account_view_mode = match new_account_view_mode_exec(ch) {
        Some(x) => x,
        None => config.account_view_mode,
    };
    let auto_login = match new_auto_login_exec(ch) {
        Some(x) => x,
        None => config.auto_login,
    };
    config.account_view_mode = account_view_mode;
    config.auto_login = auto_login;
}

#[verifier::spinoff_prover]
fn change_part11_exec(config: &mut AppConfig, ch: FieldChange, value: &str)
    ensures
        final(config)@ == change_part11(old(config)@, ch, value@),
{
    let auto_launch_game = match new_auto_launch_game_exec(ch) {
        Some(x) => x,
        None => config.auto_launch_game,
    };
    let web_launch_auto_launch = match new_web_launch_auto_launch_exec(ch) {
        Some(x) => x,
        None => config.web_launch_auto_launch,
    };
    config.auto_launch_game = auto_launch_game;
    config.web_launch_auto_launch = web_launch_auto_launch;
}

#[verifier::spinoff_prover]
fn change_part12_exec(config: &mut AppConfig, ch: FieldChange, value: &str)
    ensures
        final(config)@ == change_part12(old(config)@, ch, value@),
{
    let web_launch_auto_paste = match new_web_launch_auto_paste_exec(ch) {
        Some(x) => x,
        None => config.web_launch_auto_paste,
    };
    let close_behavior = match new_close_behavior_exec(ch) {
        Some(x) => x,
        None => config.close_behavior,
    };
    config.web_launch_auto_paste = web_launch_auto_paste;
    config.close_behavior = close_behavior;
}

#[verifier::spinoff_prover]
fn change_part13_exec(config: &mut AppConfig, ch: FieldChange, value: &str)
    ensures
        final(config)@ == change_part13(old(config)@, ch, value@),
{
    let hide_account_names = match new_hide_account_names_exec(ch) {
        Some(x) => x,
        None => config.hide_account_names,
    };
    let beanfun_rename_dismissed = match new_beanfun_rename_dismissed_exec(ch) {
        Some(x) => x,
        None => config.beanfun_rename_dismissed,
    };
    config.hide_account_names = hide_account_names;
    config.beanfun_rename_dismissed = beanfun_rename_dismissed;
}

#[verifier::spinoff_prover]
fn change_part14_exec(config: &mut AppConfig, ch: FieldChange, value: &str)
    ensures
        final(config)@ == change_part14(old(config)@, ch, value@),
{
    let cafe_mode = match new_cafe_mode_exec(ch) {
        Some(x) => x,
        None => config.cafe_mode,
    };
    let default_login_view = match new_default_login_view_exec(ch) {
        Some(x) => x,
        None => config.default_login_view,
    };
    config.cafe_mode = cafe_mode;
    config.default_login_view = default_login_view;
}

proof fn lemma_change_parts(c: ConfigModel, ch: FieldChange, v: Seq<char>)
    requires
        !is_reset(ch),
    ensures
        change_apply(c, ch, v) == change_part14(change_part13(change_part12(change_part11(change_part10(change_part9(change_part8(change_part7(change_part6(change_part5(change_part4(change_part3(change_part2(change_part1(c, ch, v), ch, v), ch, v), ch, v), ch, v), ch, v), ch, v), ch, v), ch, v), ch, v), ch, v), ch, v), ch, v), ch, v),
{
}

/// Applies a decoded change.
fn apply_change(config: &mut AppConfig, ch: FieldChange, value: &str)
    ensures
        final(config)@ == change_apply(old(config)@, ch, value@),
{
    if is_reset_exec(ch) {
        *config = AppConfig::default();
        return;
    }
    proof {
        lemma_change_parts(config@, ch, value@);
    }
    change_part1_exec(config, ch, value);
    change_part2_exec(config, ch, value);
    change_part3_exec(config, ch, value);
    change_part4_exec(config, ch, value);
    change_part5_exec(config, ch, value);
    change_part6_exec(config, ch, value);
    change_part7_exec(config, ch, value);
    change_part8_exec(config, ch, value);
    change_part9_exec(config, ch, value);
    change_part10_exec(config, ch, value);
    change_part11_exec(config, ch, value);
    change_part12_exec(config, ch, value);
    change_part13_exec(config, ch, value);
    change_part14_exec(config, ch, value);
}

/// Map a flat key + string value onto the corresponding [`AppConfig`] field.
///
/// On success the configuration is the one [`field_update`] describes; on an
/// error it is left unchanged and the error carries the reason.
pub fn apply_config_field(config: &mut AppConfig, key: &str, value: &str) -> (r: Result<(), ConfigError>)
    ensures
        match r {
            Ok(()) => field_update(old(config)@, key@, value@) == Ok::<ConfigModel, Seq<char>>(final(config)@),
            Err(e) => field_update(old(config)@, key@, value@) == Err::<ConfigModel, Seq<char>>(error_text(e))
                && final(config)@ == old(config)@,
        },
{
    match decode(key, value) {
        Ok(ch) => {
            apply_change(config, ch, value);
            Ok(())
        },
        Err(e) => Err(e),
    }
}

} // verus!
