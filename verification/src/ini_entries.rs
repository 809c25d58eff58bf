//! What each entry of the INI file sets, and how each kind of value is
//! read.

use vstd::prelude::*;
use crate::config::{
    AccountViewMode, CloseBehavior, ConfigModel, DefaultLoginView, FontSize, Language, Region,
    Theme, UpdateChannel,
};
use crate::config_parser::{
    ini_account_view_mode, ini_apply, ini_bool, ini_close_behavior, ini_default_login_view,
    ini_font_size, ini_language, ini_region, ini_theme, ini_update_channel, names_entry,
};
use crate::decimal::{parse_i32_spec, parse_u32_spec};
use crate::text::{lower_text, replace_char, upper_text};

verus! {

/// A flag reads `true`, `1` or `yes` as on and `false`, `0` or `no` as off,
/// in any letter case; any other text gives the default it is read with.
pub proof fn lemma_reads_flag(v: Seq<char>, d: bool)
    ensures
        lower_text(v) == "true"@ || lower_text(v) == "1"@ || lower_text(v) == "yes"@ ==> ini_bool(v, d) == true,
        lower_text(v) == "false"@ || lower_text(v) == "0"@ || lower_text(v) == "no"@ ==> ini_bool(v, d) == false,
        !(lower_text(v) == "true"@ || lower_text(v) == "1"@ || lower_text(v) == "yes"@ || lower_text(v) == "false"@ || lower_text(v) == "0"@ || lower_text(v) == "no"@) ==> ini_bool(v, d) == d,
{
    reveal(ini_bool);
    reveal_strlit("0");
    assert("0"@.len() == 1);
    reveal_strlit("1");
    assert("1"@.len() == 1);
    reveal_strlit("false");
    assert("false"@.len() == 5);
    reveal_strlit("no");
    assert("no"@.len() == 2);
    reveal_strlit("true");
    assert("true"@.len() == 4);
    reveal_strlit("yes");
    assert("yes"@.len() == 3);
    assert("0"@[0] != "1"@[0]);
}

/// A region reads `TW` or `HK` in any letter case; any other text gives `HK`.
pub proof fn lemma_reads_region(v: Seq<char>)
    ensures
        upper_text(v) == "TW"@ ==> ini_region(v) == Region::TW,
        upper_text(v) != "TW"@ ==> ini_region(v) == Region::HK,
{
    reveal(ini_region);
    reveal_strlit("HK");
    assert("HK"@.len() == 2);
    reveal_strlit("TW");
    assert("TW"@.len() == 2);
    assert("HK"@[0] != "TW"@[0]);
}

/// A theme reads `system`, `dark` or `light` in any letter case, each as its
/// own theme; any other text gives `system`.
pub proof fn lemma_reads_theme(v: Seq<char>)
    ensures
        lower_text(v) == "dark"@ ==> ini_theme(v) == Theme::Dark,
        lower_text(v) == "light"@ ==> ini_theme(v) == Theme::Light,
        lower_text(v) != "dark"@ && lower_text(v) != "light"@ ==> ini_theme(v) == Theme::System,
{
    reveal(ini_theme);
    reveal_strlit("dark");
    assert("dark"@.len() == 4);
    reveal_strlit("light");
    assert("light"@.len() == 5);
    reveal_strlit("system");
    assert("system"@.len() == 6);
}

/// An update channel reads `pre-release`, `pre_release` or `prerelease` in any
/// letter case as the pre-release channel; any other text gives `release`.
pub proof fn lemma_reads_update_channel(v: Seq<char>)
    ensures
        replace_char(lower_text(v), '_', '-') == "pre-release"@ || replace_char(lower_text(v), '_', '-') == "prerelease"@ ==> ini_update_channel(v) == UpdateChannel::PreRelease,
        !(replace_char(lower_text(v), '_', '-') == "pre-release"@ || replace_char(lower_text(v), '_', '-') == "prerelease"@) ==> ini_update_channel(v) == UpdateChannel::Release,
{
    reveal(ini_update_channel);
    reveal_strlit("pre-release");
    assert("pre-release"@.len() == 11);
    reveal_strlit("prerelease");
    assert("prerelease"@.len() == 10);
    reveal_strlit("release");
    assert("release"@.len() == 7);
}

/// An account view mode reads `list` in any letter case as the list; any
/// other text gives the cards.
pub proof fn lemma_reads_account_view_mode(v: Seq<char>)
    ensures
        lower_text(v) == "list"@ ==> ini_account_view_mode(v) == AccountViewMode::List,
        lower_text(v) != "list"@ ==> ini_account_view_mode(v) == AccountViewMode::Card,
{
    reveal(ini_account_view_mode);
    reveal_strlit("card");
    assert("card"@.len() == 4);
    reveal_strlit("list");
    assert("list"@.len() == 4);
    assert("card"@[0] != "list"@[0]);
}

/// A default login view reads `qr` in any letter case as the QR view; any
/// other text gives the normal view.
pub proof fn lemma_reads_default_login_view(v: Seq<char>)
    ensures
        lower_text(v) == "qr"@ ==> ini_default_login_view(v) == DefaultLoginView::Qr,
        lower_text(v) != "qr"@ ==> ini_default_login_view(v) == DefaultLoginView::Normal,
{
    reveal(ini_default_login_view);
    reveal_strlit("normal");
    assert("normal"@.len() == 6);
    reveal_strlit("qr");
    assert("qr"@.len() == 2);
}

/// A font size reads `small`, `large` and `extra-large` in any letter case as
/// those sizes; any other text gives `medium`.
pub proof fn lemma_reads_font_size(v: Seq<char>)
    ensures
        lower_text(v) == "small"@ ==> ini_font_size(v) == FontSize::Small,
        lower_text(v) == "large"@ ==> ini_font_size(v) == FontSize::Large,
        lower_text(v) == "extra-large"@ ==> ini_font_size(v) == FontSize::ExtraLarge,
        !(lower_text(v) == "small"@ || lower_text(v) == "large"@ || lower_text(v) == "extra-large"@) ==> ini_font_size(v) == FontSize::Medium,
{
    reveal(ini_font_size);
    reveal_strlit("extra-large");
    assert("extra-large"@.len() == 11);
    reveal_strlit("large");
    assert("large"@.len() == 5);
    reveal_strlit("medium");
    assert("medium"@.len() == 6);
    reveal_strlit("small");
    assert("small"@.len() == 5);
    assert("large"@[0] != "small"@[0]);
}

/// A close behaviour reads `quit` and `tray` in any letter case as those
/// behaviours; any other text gives `ask`.
pub proof fn lemma_reads_close_behavior(v: Seq<char>)
    ensures
        lower_text(v) == "quit"@ ==> ini_close_behavior(v) == CloseBehavior::Quit,
        lower_text(v) == "tray"@ ==> ini_close_behavior(v) == CloseBehavior::Tray,
        !(lower_text(v) == "quit"@ || lower_text(v) == "tray"@) ==> ini_close_behavior(v) == CloseBehavior::Ask,
{
    reveal(ini_close_behavior);
    reveal_strlit("ask");
    assert("ask"@.len() == 3);
    reveal_strlit("quit");
    assert("quit"@.len() == 4);
    reveal_strlit("tray");
    assert("tray"@.len() == 4);
    assert("tray"@[0] != "quit"@[0]);
}

/// A language reads exactly `en-US` as English and `zh-CN` as Simplified
/// Chinese; any other text gives Traditional Chinese.
pub proof fn lemma_reads_language(v: Seq<char>)
    ensures
        v == "en-US"@ ==> ini_language(v) == Language::EnUS,
        v == "zh-CN"@ ==> ini_language(v) == Language::ZhCN,
        v != "en-US"@ && v != "zh-CN"@ ==> ini_language(v) == Language::ZhTW,
{
    reveal(ini_language);
    reveal_strlit("en-US");
    assert("en-US"@.len() == 5);
    reveal_strlit("zh-CN");
    assert("zh-CN"@.len() == 5);
    reveal_strlit("zh-TW");
    assert("zh-TW"@.len() == 5);
    assert("zh-TW"@[0] != "en-US"@[0]);
    assert("zh-CN"@[0] != "en-US"@[0]);
    assert("zh-CN"@[3] != "zh-TW"@[3]);
}

/// `path` in `[game]` sets `game_path` and nothing else.
#[verifier::spinoff_prover]
pub proof fn lemma_entry_game_path(c: ConfigModel, v: Seq<char>)
    ensures
        ini_apply(c, "game"@, "path"@, v) == (ConfigModel { game_path: v, ..c }),
{
    reveal(ini_apply);
    reveal(names_entry);
    reveal_strlit("account_view_mode");
    assert("account_view_mode"@.len() == 17);
    reveal_strlit("appearance");
    assert("appearance"@.len() == 10);
    reveal_strlit("auto_kill_patcher");
    assert("auto_kill_patcher"@.len() == 17);
    reveal_strlit("auto_launch_game");
    assert("auto_launch_game"@.len() == 16);
    reveal_strlit("auto_login");
    assert("auto_login"@.len() == 10);
    reveal_strlit("auto_start");
    assert("auto_start"@.len() == 10);
    reveal_strlit("auto_update");
    assert("auto_update"@.len() == 11);
    reveal_strlit("beanfun_rename_dismissed");
    assert("beanfun_rename_dismissed"@.len() == 24);
    reveal_strlit("cafe_mode");
    assert("cafe_mode"@.len() == 9);
    reveal_strlit("close_behavior");
    assert("close_behavior"@.len() == 14);
    reveal_strlit("debug_logging");
    assert("debug_logging"@.len() == 13);
    reveal_strlit("default_login_view");
    assert("default_login_view"@.len() == 18);
    reveal_strlit("font_size");
    assert("font_size"@.len() == 9);
    reveal_strlit("game");
    assert("game"@.len() == 4);
    reveal_strlit("gamepass_incognito");
    assert("gamepass_incognito"@.len() == 18);
    reveal_strlit("general");
    assert("general"@.len() == 7);
    reveal_strlit("height");
    assert("height"@.len() == 6);
    reveal_strlit("hide_account_names");
    assert("hide_account_names"@.len() == 18);
    reveal_strlit("language");
    assert("language"@.len() == 8);
    reveal_strlit("locale");
    assert("locale"@.len() == 6);
    reveal_strlit("path");
    assert("path"@.len() == 4);
    reveal_strlit("region");
    assert("region"@.len() == 6);
    reveal_strlit("skip_play_confirm");
    assert("skip_play_confirm"@.len() == 17);
    reveal_strlit("theme");
    assert("theme"@.len() == 5);
    reveal_strlit("traditional_login");
    assert("traditional_login"@.len() == 17);
    reveal_strlit("update_channel");
    assert("update_channel"@.len() == 14);
    reveal_strlit("web_launch_auto_launch");
    assert("web_launch_auto_launch"@.len() == 22);
    reveal_strlit("web_launch_auto_paste");
    assert("web_launch_auto_paste"@.len() == 21);
    reveal_strlit("width");
    assert("width"@.len() == 5);
    reveal_strlit("window");
    assert("window"@.len() == 6);
    reveal_strlit("x");
    assert("x"@.len() == 1);
    reveal_strlit("y");
    assert("y"@.len() == 1);
}

/// `locale` in `[game]` sets `locale` and nothing else.
#[verifier::spinoff_prover]
pub proof fn lemma_entry_locale(c: ConfigModel, v: Seq<char>)
    ensures
        ini_apply(c, "game"@, "locale"@, v) == (ConfigModel { locale: v, ..c }),
{
    reveal(ini_apply);
    reveal(names_entry);
    reveal_strlit("account_view_mode");
    assert("account_view_mode"@.len() == 17);
    reveal_strlit("appearance");
    assert("appearance"@.len() == 10);
    reveal_strlit("auto_kill_patcher");
    assert("auto_kill_patcher"@.len() == 17);
    reveal_strlit("auto_launch_game");
    assert("auto_launch_game"@.len() == 16);
    reveal_strlit("auto_login");
    assert("auto_login"@.len() == 10);
    reveal_strlit("auto_start");
    assert("auto_start"@.len() == 10);
    reveal_strlit("auto_update");
    assert("auto_update"@.len() == 11);
    reveal_strlit("beanfun_rename_dismissed");
    assert("beanfun_rename_dismissed"@.len() == 24);
    reveal_strlit("cafe_mode");
    assert("cafe_mode"@.len() == 9);
    reveal_strlit("close_behavior");
    assert("close_behavior"@.len() == 14);
    reveal_strlit("debug_logging");
    assert("debug_logging"@.len() == 13);
    reveal_strlit("default_login_view");
    assert("default_login_view"@.len() == 18);
    reveal_strlit("font_size");
    assert("font_size"@.len() == 9);
    reveal_strlit("game");
    assert("game"@.len() == 4);
    reveal_strlit("gamepass_incognito");
    assert("gamepass_incognito"@.len() == 18);
    reveal_strlit("general");
    assert("general"@.len() == 7);
    reveal_strlit("height");
    assert("height"@.len() == 6);
    reveal_strlit("hide_account_names");
    assert("hide_account_names"@.len() == 18);
    reveal_strlit("language");
    assert("language"@.len() == 8);
    reveal_strlit("locale");
    assert("locale"@.len() == 6);
    reveal_strlit("path");
    assert("path"@.len() == 4);
    reveal_strlit("region");
    assert("region"@.len() == 6);
    reveal_strlit("skip_play_confirm");
    assert("skip_play_confirm"@.len() == 17);
    reveal_strlit("theme");
    assert("theme"@.len() == 5);
    reveal_strlit("traditional_login");
    assert("traditional_login"@.len() == 17);
    reveal_strlit("update_channel");
    assert("update_channel"@.len() == 14);
    reveal_strlit("web_launch_auto_launch");
    assert("web_launch_auto_launch"@.len() == 22);
    reveal_strlit("web_launch_auto_paste");
    assert("web_launch_auto_paste"@.len() == 21);
    reveal_strlit("width");
    assert("width"@.len() == 5);
    reveal_strlit("window");
    assert("window"@.len() == 6);
    reveal_strlit("x");
    assert("x"@.len() == 1);
    reveal_strlit("y");
    assert("y"@.len() == 1);
}

/// `theme` in `[appearance]` sets `theme` and nothing else.
#[verifier::spinoff_prover]
pub proof fn lemma_entry_theme(c: ConfigModel, v: Seq<char>)
    ensures
        ini_apply(c, "appearance"@, "theme"@, v) == (ConfigModel { theme: ini_theme(v), ..c }),
{
    reveal(ini_apply);
    reveal(names_entry);
    reveal_strlit("account_view_mode");
    assert("account_view_mode"@.len() == 17);
    reveal_strlit("appearance");
    assert("appearance"@.len() == 10);
    reveal_strlit("auto_kill_patcher");
    assert("auto_kill_patcher"@.len() == 17);
    reveal_strlit("auto_launch_game");
    assert("auto_launch_game"@.len() == 16);
    reveal_strlit("auto_login");
    assert("auto_login"@.len() == 10);
    reveal_strlit("auto_start");
    assert("auto_start"@.len() == 10);
    reveal_strlit("auto_update");
    assert("auto_update"@.len() == 11);
    reveal_strlit("beanfun_rename_dismissed");
    assert("beanfun_rename_dismissed"@.len() == 24);
    reveal_strlit("cafe_mode");
    assert("cafe_mode"@.len() == 9);
    reveal_strlit("close_behavior");
    assert("close_behavior"@.len() == 14);
    reveal_strlit("debug_logging");
    assert("debug_logging"@.len() == 13);
    reveal_strlit("default_login_view");
    assert("default_login_view"@.len() == 18);
    reveal_strlit("font_size");
    assert("font_size"@.len() == 9);
    reveal_strlit("game");
    assert("game"@.len() == 4);
    reveal_strlit("gamepass_incognito");
    assert("gamepass_incognito"@.len() == 18);
    reveal_strlit("general");
    assert("general"@.len() == 7);
    reveal_strlit("height");
    assert("height"@.len() == 6);
    reveal_strlit("hide_account_names");
    assert("hide_account_names"@.len() == 18);
    reveal_strlit("language");
    assert("language"@.len() == 8);
    reveal_strlit("locale");
    assert("locale"@.len() == 6);
    reveal_strlit("path");
    assert("path"@.len() == 4);
    reveal_strlit("region");
    assert("region"@.len() == 6);
    reveal_strlit("skip_play_confirm");
    assert("skip_play_confirm"@.len() == 17);
    reveal_strlit("theme");
    assert("theme"@.len() == 5);
    reveal_strlit("traditional_login");
    assert("traditional_login"@.len() == 17);
    reveal_strlit("update_channel");
    assert("update_channel"@.len() == 14);
    reveal_strlit("web_launch_auto_launch");
    assert("web_launch_auto_launch"@.len() == 22);
    reveal_strlit("web_launch_auto_paste");
    assert("web_launch_auto_paste"@.len() == 21);
    reveal_strlit("width");
    assert("width"@.len() == 5);
    reveal_strlit("window");
    assert("window"@.len() == 6);
    reveal_strlit("x");
    assert("x"@.len() == 1);
    reveal_strlit("y");
    assert("y"@.len() == 1);
}

/// `language` in `[general]` sets `language` and nothing else.
#[verifier::spinoff_prover]
pub proof fn lemma_entry_language(c: ConfigModel, v: Seq<char>)
    ensures
        ini_apply(c, "general"@, "language"@, v) == (ConfigModel { language: ini_language(v), ..c }),
{
    reveal(ini_apply);
    reveal(names_entry);
    reveal_strlit("account_view_mode");
    assert("account_view_mode"@.len() == 17);
    reveal_strlit("appearance");
    assert("appearance"@.len() == 10);
    reveal_strlit("auto_kill_patcher");
    assert("auto_kill_patcher"@.len() == 17);
    reveal_strlit("auto_launch_game");
    assert("auto_launch_game"@.len() == 16);
    reveal_strlit("auto_login");
    assert("auto_login"@.len() == 10);
    reveal_strlit("auto_start");
    assert("auto_start"@.len() == 10);
    reveal_strlit("auto_update");
    assert("auto_update"@.len() == 11);
    reveal_strlit("beanfun_rename_dismissed");
    assert("beanfun_rename_dismissed"@.len() == 24);
    reveal_strlit("cafe_mode");
    assert("cafe_mode"@.len() == 9);
    reveal_strlit("close_behavior");
    assert("close_behavior"@.len() == 14);
    reveal_strlit("debug_logging");
    assert("debug_logging"@.len() == 13);
    reveal_strlit("default_login_view");
    assert("default_login_view"@.len() == 18);
    reveal_strlit("font_size");
    assert("font_size"@.len() == 9);
    reveal_strlit("game");
    assert("game"@.len() == 4);
    reveal_strlit("gamepass_incognito");
    assert("gamepass_incognito"@.len() == 18);
    reveal_strlit("general");
    assert("general"@.len() == 7);
    reveal_strlit("height");
    assert("height"@.len() == 6);
    reveal_strlit("hide_account_names");
    assert("hide_account_names"@.len() == 18);
    reveal_strlit("language");
    assert("language"@.len() == 8);
    reveal_strlit("locale");
    assert("locale"@.len() == 6);
    reveal_strlit("path");
    assert("path"@.len() == 4);
    reveal_strlit("region");
    assert("region"@.len() == 6);
    reveal_strlit("skip_play_confirm");
    assert("skip_play_confirm"@.len() == 17);
    reveal_strlit("theme");
    assert("theme"@.len() == 5);
    reveal_strlit("traditional_login");
    assert("traditional_login"@.len() == 17);
    reveal_strlit("update_channel");
    assert("update_channel"@.len() == 14);
    reveal_strlit("web_launch_auto_launch");
    assert("web_launch_auto_launch"@.len() == 22);
    reveal_strlit("web_launch_auto_paste");
    assert("web_launch_auto_paste"@.len() == 21);
    reveal_strlit("width");
    assert("width"@.len() == 5);
    reveal_strlit("window");
    assert("window"@.len() == 6);
    reveal_strlit("x");
    assert("x"@.len() == 1);
    reveal_strlit("y");
    assert("y"@.len() == 1);
}

/// `auto_update` in `[general]` sets `auto_update` and nothing else.
#[verifier::spinoff_prover]
pub proof fn lemma_entry_auto_update(c: ConfigModel, v: Seq<char>)
    ensures
        ini_apply(c, "general"@, "auto_update"@, v) == (ConfigModel { auto_update: ini_bool(v, true), ..c }),
{
    reveal(ini_apply);
    reveal(names_entry);
    reveal_strlit("account_view_mode");
    assert("account_view_mode"@.len() == 17);
    reveal_strlit("appearance");
    assert("appearance"@.len() == 10);
    reveal_strlit("auto_kill_patcher");
    assert("auto_kill_patcher"@.len() == 17);
    reveal_strlit("auto_launch_game");
    assert("auto_launch_game"@.len() == 16);
    reveal_strlit("auto_login");
    assert("auto_login"@.len() == 10);
    reveal_strlit("auto_start");
    assert("auto_start"@.len() == 10);
    reveal_strlit("auto_update");
    assert("auto_update"@.len() == 11);
    reveal_strlit("beanfun_rename_dismissed");
    assert("beanfun_rename_dismissed"@.len() == 24);
    reveal_strlit("cafe_mode");
    assert("cafe_mode"@.len() == 9);
    reveal_strlit("close_behavior");
    assert("close_behavior"@.len() == 14);
    reveal_strlit("debug_logging");
    assert("debug_logging"@.len() == 13);
    reveal_strlit("default_login_view");
    assert("default_login_view"@.len() == 18);
    reveal_strlit("font_size");
    assert("font_size"@.len() == 9);
    reveal_strlit("game");
    assert("game"@.len() == 4);
    reveal_strlit("gamepass_incognito");
    assert("gamepass_incognito"@.len() == 18);
    reveal_strlit("general");
    assert("general"@.len() == 7);
    reveal_strlit("height");
    assert("height"@.len() == 6);
    reveal_strlit("hide_account_names");
    assert("hide_account_names"@.len() == 18);
    reveal_strlit("language");
    assert("language"@.len() == 8);
    reveal_strlit("locale");
    assert("locale"@.len() == 6);
    reveal_strlit("path");
    assert("path"@.len() == 4);
    reveal_strlit("region");
    assert("region"@.len() == 6);
    reveal_strlit("skip_play_confirm");
    assert("skip_play_confirm"@.len() == 17);
    reveal_strlit("theme");
    assert("theme"@.len() == 5);
    reveal_strlit("traditional_login");
    assert("traditional_login"@.len() == 17);
    reveal_strlit("update_channel");
    assert("update_channel"@.len() == 14);
    reveal_strlit("web_launch_auto_launch");
    assert("web_launch_auto_launch"@.len() == 22);
    reveal_strlit("web_launch_auto_paste");
    assert("web_launch_auto_paste"@.len() == 21);
    reveal_strlit("width");
    assert("width"@.len() == 5);
    reveal_strlit("window");
    assert("window"@.len() == 6);
    reveal_strlit("x");
    assert("x"@.len() == 1);
    reveal_strlit("y");
    assert("y"@.len() == 1);
}

/// `update_channel` in `[general]` sets `update_channel` and nothing else.
#[verifier::spinoff_prover]
pub proof fn lemma_entry_update_channel(c: ConfigModel, v: Seq<char>)
    ensures
        ini_apply(c, "general"@, "update_channel"@, v) == (ConfigModel { update_channel: ini_update_channel(v), ..c }),
{
    reveal(ini_apply);
    reveal(names_entry);
    reveal_strlit("account_view_mode");
    assert("account_view_mode"@.len() == 17);
    reveal_strlit("appearance");
    assert("appearance"@.len() == 10);
    reveal_strlit("auto_kill_patcher");
    assert("auto_kill_patcher"@.len() == 17);
    reveal_strlit("auto_launch_game");
    assert("auto_launch_game"@.len() == 16);
    reveal_strlit("auto_login");
    assert("auto_login"@.len() == 10);
    reveal_strlit("auto_start");
    assert("auto_start"@.len() == 10);
    reveal_strlit("auto_update");
    assert("auto_update"@.len() == 11);
    reveal_strlit("beanfun_rename_dismissed");
    assert("beanfun_rename_dismissed"@.len() == 24);
    reveal_strlit("cafe_mode");
    assert("cafe_mode"@.len() == 9);
    reveal_strlit("close_behavior");
    assert("close_behavior"@.len() == 14);
    reveal_strlit("debug_logging");
    assert("debug_logging"@.len() == 13);
    reveal_strlit("default_login_view");
    assert("default_login_view"@.len() == 18);
    reveal_strlit("font_size");
    assert("font_size"@.len() == 9);
    reveal_strlit("game");
    assert("game"@.len() == 4);
    reveal_strlit("gamepass_incognito");
    assert("gamepass_incognito"@.len() == 18);
    reveal_strlit("general");
    assert("general"@.len() == 7);
    reveal_strlit("height");
    assert("height"@.len() == 6);
    reveal_strlit("hide_account_names");
    assert("hide_account_names"@.len() == 18);
    reveal_strlit("language");
    assert("language"@.len() == 8);
    reveal_strlit("locale");
    assert("locale"@.len() == 6);
    reveal_strlit("path");
    assert("path"@.len() == 4);
    reveal_strlit("region");
    assert("region"@.len() == 6);
    reveal_strlit("skip_play_confirm");
    assert("skip_play_confirm"@.len() == 17);
    reveal_strlit("theme");
    assert("theme"@.len() == 5);
    reveal_strlit("traditional_login");
    assert("traditional_login"@.len() == 17);
    reveal_strlit("update_channel");
    assert("update_channel"@.len() == 14);
    reveal_strlit("web_launch_auto_launch");
    assert("web_launch_auto_launch"@.len() == 22);
    reveal_strlit("web_launch_auto_paste");
    assert("web_launch_auto_paste"@.len() == 21);
    reveal_strlit("width");
    assert("width"@.len() == 5);
    reveal_strlit("window");
    assert("window"@.len() == 6);
    reveal_strlit("x");
    assert("x"@.len() == 1);
    reveal_strlit("y");
    assert("y"@.len() == 1);
    assert("update_channel"@[0] != "close_behavior"@[0]);
}

/// `skip_play_confirm` in `[game]` sets `skip_play_confirm` and nothing else.
#[verifier::spinoff_prover]
pub proof fn lemma_entry_skip_play_confirm(c: ConfigModel, v: Seq<char>)
    ensures
        ini_apply(c, "game"@, "skip_play_confirm"@, v) == (ConfigModel { skip_play_confirm: ini_bool(v, true), ..c }),
{
    reveal(ini_apply);
    reveal(names_entry);
    reveal_strlit("account_view_mode");
    assert("account_view_mode"@.len() == 17);
    reveal_strlit("appearance");
    assert("appearance"@.len() == 10);
    reveal_strlit("auto_kill_patcher");
    assert("auto_kill_patcher"@.len() == 17);
    reveal_strlit("auto_launch_game");
    assert("auto_launch_game"@.len() == 16);
    reveal_strlit("auto_login");
    assert("auto_login"@.len() == 10);
    reveal_strlit("auto_start");
    assert("auto_start"@.len() == 10);
    reveal_strlit("auto_update");
    assert("auto_update"@.len() == 11);
    reveal_strlit("beanfun_rename_dismissed");
    assert("beanfun_rename_dismissed"@.len() == 24);
    reveal_strlit("cafe_mode");
    assert("cafe_mode"@.len() == 9);
    reveal_strlit("close_behavior");
    assert("close_behavior"@.len() == 14);
    reveal_strlit("debug_logging");
    assert("debug_logging"@.len() == 13);
    reveal_strlit("default_login_view");
    assert("default_login_view"@.len() == 18);
    reveal_strlit("font_size");
    assert("font_size"@.len() == 9);
    reveal_strlit("game");
    assert("game"@.len() == 4);
    reveal_strlit("gamepass_incognito");
    assert("gamepass_incognito"@.len() == 18);
    reveal_strlit("general");
    assert("general"@.len() == 7);
    reveal_strlit("height");
    assert("height"@.len() == 6);
    reveal_strlit("hide_account_names");
    assert("hide_account_names"@.len() == 18);
    reveal_strlit("language");
    assert("language"@.len() == 8);
    reveal_strlit("locale");
    assert("locale"@.len() == 6);
    reveal_strlit("path");
    assert("path"@.len() == 4);
    reveal_strlit("region");
    assert("region"@.len() == 6);
    reveal_strlit("skip_play_confirm");
    assert("skip_play_confirm"@.len() == 17);
    reveal_strlit("theme");
    assert("theme"@.len() == 5);
    reveal_strlit("traditional_login");
    assert("traditional_login"@.len() == 17);
    reveal_strlit("update_channel");
    assert("update_channel"@.len() == 14);
    reveal_strlit("web_launch_auto_launch");
    assert("web_launch_auto_launch"@.len() == 22);
    reveal_strlit("web_launch_auto_paste");
    assert("web_launch_auto_paste"@.len() == 21);
    reveal_strlit("width");
    assert("width"@.len() == 5);
    reveal_strlit("window");
    assert("window"@.len() == 6);
    reveal_strlit("x");
    assert("x"@.len() == 1);
    reveal_strlit("y");
    assert("y"@.len() == 1);
}

/// `auto_start` in `[general]` sets `auto_start` and nothing else.
#[verifier::spinoff_prover]
pub proof fn lemma_entry_auto_start(c: ConfigModel, v: Seq<char>)
    ensures
        ini_apply(c, "general"@, "auto_start"@, v) == (ConfigModel { auto_start: ini_bool(v, false), ..c }),
{
    reveal(ini_apply);
    reveal(names_entry);
    reveal_strlit("account_view_mode");
    assert("account_view_mode"@.len() == 17);
    reveal_strlit("appearance");
    assert("appearance"@.len() == 10);
    reveal_strlit("auto_kill_patcher");
    assert("auto_kill_patcher"@.len() == 17);
    reveal_strlit("auto_launch_game");
    assert("auto_launch_game"@.len() == 16);
    reveal_strlit("auto_login");
    assert("auto_login"@.len() == 10);
    reveal_strlit("auto_start");
    assert("auto_start"@.len() == 10);
    reveal_strlit("auto_update");
    assert("auto_update"@.len() == 11);
    reveal_strlit("beanfun_rename_dismissed");
    assert("beanfun_rename_dismissed"@.len() == 24);
    reveal_strlit("cafe_mode");
    assert("cafe_mode"@.len() == 9);
    reveal_strlit("close_behavior");
    assert("close_behavior"@.len() == 14);
    reveal_strlit("debug_logging");
    assert("debug_logging"@.len() == 13);
    reveal_strlit("default_login_view");
    assert("default_login_view"@.len() == 18);
    reveal_strlit("font_size");
    assert("font_size"@.len() == 9);
    reveal_strlit("game");
    assert("game"@.len() == 4);
    reveal_strlit("gamepass_incognito");
    assert("gamepass_incognito"@.len() == 18);
    reveal_strlit("general");
    assert("general"@.len() == 7);
    reveal_strlit("height");
    assert("height"@.len() == 6);
    reveal_strlit("hide_account_names");
    assert("hide_account_names"@.len() == 18);
    reveal_strlit("language");
    assert("language"@.len() == 8);
    reveal_strlit("locale");
    assert("locale"@.len() == 6);
    reveal_strlit("path");
    assert("path"@.len() == 4);
    reveal_strlit("region");
    assert("region"@.len() == 6);
    reveal_strlit("skip_play_confirm");
    assert("skip_play_confirm"@.len() == 17);
    reveal_strlit("theme");
    assert("theme"@.len() == 5);
    reveal_strlit("traditional_login");
    assert("traditional_login"@.len() == 17);
    reveal_strlit("update_channel");
    assert("update_channel"@.len() == 14);
    reveal_strlit("web_launch_auto_launch");
    assert("web_launch_auto_launch"@.len() == 22);
    reveal_strlit("web_launch_auto_paste");
    assert("web_launch_auto_paste"@.len() == 21);
    reveal_strlit("width");
    assert("width"@.len() == 5);
    reveal_strlit("window");
    assert("window"@.len() == 6);
    reveal_strlit("x");
    assert("x"@.len() == 1);
    reveal_strlit("y");
    assert("y"@.len() == 1);
    assert("auto_start"@[5] != "auto_login"@[5]);
}

/// `x` in `[window]` sets `window_x` and nothing else.
#[verifier::spinoff_prover]
pub proof fn lemma_entry_window_x(c: ConfigModel, v: Seq<char>)
    ensures
        ini_apply(c, "window"@, "x"@, v) == (ConfigModel { window_x: parse_i32_spec(v), ..c }),
{
    reveal(ini_apply);
    reveal(names_entry);
    reveal_strlit("account_view_mode");
    assert("account_view_mode"@.len() == 17);
    reveal_strlit("appearance");
    assert("appearance"@.len() == 10);
    reveal_strlit("auto_kill_patcher");
    assert("auto_kill_patcher"@.len() == 17);
    reveal_strlit("auto_launch_game");
    assert("auto_launch_game"@.len() == 16);
    reveal_strlit("auto_login");
    assert("auto_login"@.len() == 10);
    reveal_strlit("auto_start");
    assert("auto_start"@.len() == 10);
    reveal_strlit("auto_update");
    assert("auto_update"@.len() == 11);
    reveal_strlit("beanfun_rename_dismissed");
    assert("beanfun_rename_dismissed"@.len() == 24);
    reveal_strlit("cafe_mode");
    assert("cafe_mode"@.len() == 9);
    reveal_strlit("close_behavior");
    assert("close_behavior"@.len() == 14);
    reveal_strlit("debug_logging");
    assert("debug_logging"@.len() == 13);
    reveal_strlit("default_login_view");
    assert("default_login_view"@.len() == 18);
    reveal_strlit("font_size");
    assert("font_size"@.len() == 9);
    reveal_strlit("game");
    assert("game"@.len() == 4);
    reveal_strlit("gamepass_incognito");
    assert("gamepass_incognito"@.len() == 18);
    reveal_strlit("general");
    assert("general"@.len() == 7);
    reveal_strlit("height");
    assert("height"@.len() == 6);
    reveal_strlit("hide_account_names");
    assert("hide_account_names"@.len() == 18);
    reveal_strlit("language");
    assert("language"@.len() == 8);
    reveal_strlit("locale");
    assert("locale"@.len() == 6);
    reveal_strlit("path");
    assert("path"@.len() == 4);
    reveal_strlit("region");
    assert("region"@.len() == 6);
    reveal_strlit("skip_play_confirm");
    assert("skip_play_confirm"@.len() == 17);
    reveal_strlit("theme");
    assert("theme"@.len() == 5);
    reveal_strlit("traditional_login");
    assert("traditional_login"@.len() == 17);
    reveal_strlit("update_channel");
    assert("update_channel"@.len() == 14);
    reveal_strlit("web_launch_auto_launch");
    assert("web_launch_auto_launch"@.len() == 22);
    reveal_strlit("web_launch_auto_paste");
    assert("web_launch_auto_paste"@.len() == 21);
    reveal_strlit("width");
    assert("width"@.len() == 5);
    reveal_strlit("window");
    assert("window"@.len() == 6);
    reveal_strlit("x");
    assert("x"@.len() == 1);
    reveal_strlit("y");
    assert("y"@.len() == 1);
    assert("x"@[0] != "y"@[0]);
}

/// `y` in `[window]` sets `window_y` and nothing else.
#[verifier::spinoff_prover]
pub proof fn lemma_entry_window_y(c: ConfigModel, v: Seq<char>)
    ensures
        ini_apply(c, "window"@, "y"@, v) == (ConfigModel { window_y: parse_i32_spec(v), ..c }),
{
    reveal(ini_apply);
    reveal(names_entry);
    reveal_strlit("account_view_mode");
    assert("account_view_mode"@.len() == 17);
    reveal_strlit("appearance");
    assert("appearance"@.len() == 10);
    reveal_strlit("auto_kill_patcher");
    assert("auto_kill_patcher"@.len() == 17);
    reveal_strlit("auto_launch_game");
    assert("auto_launch_game"@.len() == 16);
    reveal_strlit("auto_login");
    assert("auto_login"@.len() == 10);
    reveal_strlit("auto_start");
    assert("auto_start"@.len() == 10);
    reveal_strlit("auto_update");
    assert("auto_update"@.len() == 11);
    reveal_strlit("beanfun_rename_dismissed");
    assert("beanfun_rename_dismissed"@.len() == 24);
    reveal_strlit("cafe_mode");
    assert("cafe_mode"@.len() == 9);
    reveal_strlit("close_behavior");
    assert("close_behavior"@.len() == 14);
    reveal_strlit("debug_logging");
    assert("debug_logging"@.len() == 13);
    reveal_strlit("default_login_view");
    assert("default_login_view"@.len() == 18);
    reveal_strlit("font_size");
    assert("font_size"@.len() == 9);
    reveal_strlit("game");
    assert("game"@.len() == 4);
    reveal_strlit("gamepass_incognito");
    assert("gamepass_incognito"@.len() == 18);
    reveal_strlit("general");
    assert("general"@.len() == 7);
    reveal_strlit("height");
    assert("height"@.len() == 6);
    reveal_strlit("hide_account_names");
    assert("hide_account_names"@.len() == 18);
    reveal_strlit("language");
    assert("language"@.len() == 8);
    reveal_strlit("locale");
    assert("locale"@.len() == 6);
    reveal_strlit("path");
    assert("path"@.len() == 4);
    reveal_strlit("region");
    assert("region"@.len() == 6);
    reveal_strlit("skip_play_confirm");
    assert("skip_play_confirm"@.len() == 17);
    reveal_strlit("theme");
    assert("theme"@.len() == 5);
    reveal_strlit("traditional_login");
    assert("traditional_login"@.len() == 17);
    reveal_strlit("update_channel");
    assert("update_channel"@.len() == 14);
    reveal_strlit("web_launch_auto_launch");
    assert("web_launch_auto_launch"@.len() == 22);
    reveal_strlit("web_launch_auto_paste");
    assert("web_launch_auto_paste"@.len() == 21);
    reveal_strlit("width");
    assert("width"@.len() == 5);
    reveal_strlit("window");
    assert("window"@.len() == 6);
    reveal_strlit("x");
    assert("x"@.len() == 1);
    reveal_strlit("y");
    assert("y"@.len() == 1);
    assert("y"@[0] != "x"@[0]);
}

/// `width` in `[window]` sets `window_width` and nothing else.
#[verifier::spinoff_prover]
pub proof fn lemma_entry_window_width(c: ConfigModel, v: Seq<char>)
    ensures
        ini_apply(c, "window"@, "width"@, v) == (ConfigModel { window_width: parse_u32_spec(v), ..c }),
{
    reveal(ini_apply);
    reveal(names_entry);
    reveal_strlit("account_view_mode");
    assert("account_view_mode"@.len() == 17);
    reveal_strlit("appearance");
    assert("appearance"@.len() == 10);
    reveal_strlit("auto_kill_patcher");
    assert("auto_kill_patcher"@.len() == 17);
    reveal_strlit("auto_launch_game");
    assert("auto_launch_game"@.len() == 16);
    reveal_strlit("auto_login");
    assert("auto_login"@.len() == 10);
    reveal_strlit("auto_start");
    assert("auto_start"@.len() == 10);
    reveal_strlit("auto_update");
    assert("auto_update"@.len() == 11);
    reveal_strlit("beanfun_rename_dismissed");
    assert("beanfun_rename_dismissed"@.len() == 24);
    reveal_strlit("cafe_mode");
    assert("cafe_mode"@.len() == 9);
    reveal_strlit("close_behavior");
    assert("close_behavior"@.len() == 14);
    reveal_strlit("debug_logging");
    assert("debug_logging"@.len() == 13);
    reveal_strlit("default_login_view");
    assert("default_login_view"@.len() == 18);
    reveal_strlit("font_size");
    assert("font_size"@.len() == 9);
    reveal_strlit("game");
    assert("game"@.len() == 4);
    reveal_strlit("gamepass_incognito");
    assert("gamepass_incognito"@.len() == 18);
    reveal_strlit("general");
    assert("general"@.len() == 7);
    reveal_strlit("height");
    assert("height"@.len() == 6);
    reveal_strlit("hide_account_names");
    assert("hide_account_names"@.len() == 18);
    reveal_strlit("language");
    assert("language"@.len() == 8);
    reveal_strlit("locale");
    assert("locale"@.len() == 6);
    reveal_strlit("path");
    assert("path"@.len() == 4);
    reveal_strlit("region");
    assert("region"@.len() == 6);
    reveal_strlit("skip_play_confirm");
    assert("skip_play_confirm"@.len() == 17);
    reveal_strlit("theme");
    assert("theme"@.len() == 5);
    reveal_strlit("traditional_login");
    assert("traditional_login"@.len() == 17);
    reveal_strlit("update_channel");
    assert("update_channel"@.len() == 14);
    reveal_strlit("web_launch_auto_launch");
    assert("web_launch_auto_launch"@.len() == 22);
    reveal_strlit("web_launch_auto_paste");
    assert("web_launch_auto_paste"@.len() == 21);
    reveal_strlit("width");
    assert("width"@.len() == 5);
    reveal_strlit("window");
    assert("window"@.len() == 6);
    reveal_strlit("x");
    assert("x"@.len() == 1);
    reveal_strlit("y");
    assert("y"@.len() == 1);
}

/// `height` in `[window]` sets `window_height` and nothing else.
#[verifier::spinoff_prover]
pub proof fn lemma_entry_window_height(c: ConfigModel, v: Seq<char>)
    ensures
        ini_apply(c, "window"@, "height"@, v) == (ConfigModel { window_height: parse_u32_spec(v), ..c }),
{
    reveal(ini_apply);
    reveal(names_entry);
    reveal_strlit("account_view_mode");
    assert("account_view_mode"@.len() == 17);
    reveal_strlit("appearance");
    assert("appearance"@.len() == 10);
    reveal_strlit("auto_kill_patcher");
    assert("auto_kill_patcher"@.len() == 17);
    reveal_strlit("auto_launch_game");
    assert("auto_launch_game"@.len() == 16);
    reveal_strlit("auto_login");
    assert("auto_login"@.len() == 10);
    reveal_strlit("auto_start");
    assert("auto_start"@.len() == 10);
    reveal_strlit("auto_update");
    assert("auto_update"@.len() == 11);
    reveal_strlit("beanfun_rename_dismissed");
    assert("beanfun_rename_dismissed"@.len() == 24);
    reveal_strlit("cafe_mode");
    assert("cafe_mode"@.len() == 9);
    reveal_strlit("close_behavior");
    assert("close_behavior"@.len() == 14);
    reveal_strlit("debug_logging");
    assert("debug_logging"@.len() == 13);
    reveal_strlit("default_login_view");
    assert("default_login_view"@.len() == 18);
    reveal_strlit("font_size");
    assert("font_size"@.len() == 9);
    reveal_strlit("game");
    assert("game"@.len() == 4);
    reveal_strlit("gamepass_incognito");
    assert("gamepass_incognito"@.len() == 18);
    reveal_strlit("general");
    assert("general"@.len() == 7);
    reveal_strlit("height");
    assert("height"@.len() == 6);
    reveal_strlit("hide_account_names");
    assert("hide_account_names"@.len() == 18);
    reveal_strlit("language");
    assert("language"@.len() == 8);
    reveal_strlit("locale");
    assert("locale"@.len() == 6);
    reveal_strlit("path");
    assert("path"@.len() == 4);
    reveal_strlit("region");
    assert("region"@.len() == 6);
    reveal_strlit("skip_play_confirm");
    assert("skip_play_confirm"@.len() == 17);
    reveal_strlit("theme");
    assert("theme"@.len() == 5);
    reveal_strlit("traditional_login");
    assert("traditional_login"@.len() == 17);
    reveal_strlit("update_channel");
    assert("update_channel"@.len() == 14);
    reveal_strlit("web_launch_auto_launch");
    assert("web_launch_auto_launch"@.len() == 22);
    reveal_strlit("web_launch_auto_paste");
    assert("web_launch_auto_paste"@.len() == 21);
    reveal_strlit("width");
    assert("width"@.len() == 5);
    reveal_strlit("window");
    assert("window"@.len() == 6);
    reveal_strlit("x");
    assert("x"@.len() == 1);
    reveal_strlit("y");
    assert("y"@.len() == 1);
}

/// `region` in `[general]` sets `region` and nothing else.
#[verifier::spinoff_prover]
pub proof fn lemma_entry_region(c: ConfigModel, v: Seq<char>)
    ensures
        ini_apply(c, "general"@, "region"@, v) == (ConfigModel { region: ini_region(v), ..c }),
{
    reveal(ini_apply);
    reveal(names_entry);
    reveal_strlit("account_view_mode");
    assert("account_view_mode"@.len() == 17);
    reveal_strlit("appearance");
    assert("appearance"@.len() == 10);
    reveal_strlit("auto_kill_patcher");
    assert("auto_kill_patcher"@.len() == 17);
    reveal_strlit("auto_launch_game");
    assert("auto_launch_game"@.len() == 16);
    reveal_strlit("auto_login");
    assert("auto_login"@.len() == 10);
    reveal_strlit("auto_start");
    assert("auto_start"@.len() == 10);
    reveal_strlit("auto_update");
    assert("auto_update"@.len() == 11);
    reveal_strlit("beanfun_rename_dismissed");
    assert("beanfun_rename_dismissed"@.len() == 24);
    reveal_strlit("cafe_mode");
    assert("cafe_mode"@.len() == 9);
    reveal_strlit("close_behavior");
    assert("close_behavior"@.len() == 14);
    reveal_strlit("debug_logging");
    assert("debug_logging"@.len() == 13);
    reveal_strlit("default_login_view");
    assert("default_login_view"@.len() == 18);
    reveal_strlit("font_size");
    assert("font_size"@.len() == 9);
    reveal_strlit("game");
    assert("game"@.len() == 4);
    reveal_strlit("gamepass_incognito");
    assert("gamepass_incognito"@.len() == 18);
    reveal_strlit("general");
    assert("general"@.len() == 7);
    reveal_strlit("height");
    assert("height"@.len() == 6);
    reveal_strlit("hide_account_names");
    assert("hide_account_names"@.len() == 18);
    reveal_strlit("language");
    assert("language"@.len() == 8);
    reveal_strlit("locale");
    assert("locale"@.len() == 6);
    reveal_strlit("path");
    assert("path"@.len() == 4);
    reveal_strlit("region");
    assert("region"@.len() == 6);
    reveal_strlit("skip_play_confirm");
    assert("skip_play_confirm"@.len() == 17);
    reveal_strlit("theme");
    assert("theme"@.len() == 5);
    reveal_strlit("traditional_login");
    assert("traditional_login"@.len() == 17);
    reveal_strlit("update_channel");
    assert("update_channel"@.len() == 14);
    reveal_strlit("web_launch_auto_launch");
    assert("web_launch_auto_launch"@.len() == 22);
    reveal_strlit("web_launch_auto_paste");
    assert("web_launch_auto_paste"@.len() == 21);
    reveal_strlit("width");
    assert("width"@.len() == 5);
    reveal_strlit("window");
    assert("window"@.len() == 6);
    reveal_strlit("x");
    assert("x"@.len() == 1);
    reveal_strlit("y");
    assert("y"@.len() == 1);
}

/// `debug_logging` in `[general]` sets `debug_logging` and nothing else.
#[verifier::spinoff_prover]
pub proof fn lemma_entry_debug_logging(c: ConfigModel, v: Seq<char>)
    ensures
        ini_apply(c, "general"@, "debug_logging"@, v) == (ConfigModel { debug_logging: ini_bool(v, false), ..c }),
{
    reveal(ini_apply);
    reveal(names_entry);
    reveal_strlit("account_view_mode");
    assert("account_view_mode"@.len() == 17);
    reveal_strlit("appearance");
    assert("appearance"@.len() == 10);
    reveal_strlit("auto_kill_patcher");
    assert("auto_kill_patcher"@.len() == 17);
    reveal_strlit("auto_launch_game");
    assert("auto_launch_game"@.len() == 16);
    reveal_strlit("auto_login");
    assert("auto_login"@.len() == 10);
    reveal_strlit("auto_start");
    assert("auto_start"@.len() == 10);
    reveal_strlit("auto_update");
    assert("auto_update"@.len() == 11);
    reveal_strlit("beanfun_rename_dismissed");
    assert("beanfun_rename_dismissed"@.len() == 24);
    reveal_strlit("cafe_mode");
    assert("cafe_mode"@.len() == 9);
    reveal_strlit("close_behavior");
    assert("close_behavior"@.len() == 14);
    reveal_strlit("debug_logging");
    assert("debug_logging"@.len() == 13);
    reveal_strlit("default_login_view");
    assert("default_login_view"@.len() == 18);
    reveal_strlit("font_size");
    assert("font_size"@.len() == 9);
    reveal_strlit("game");
    assert("game"@.len() == 4);
    reveal_strlit("gamepass_incognito");
    assert("gamepass_incognito"@.len() == 18);
    reveal_strlit("general");
    assert("general"@.len() == 7);
    reveal_strlit("height");
    assert("height"@.len() == 6);
    reveal_strlit("hide_account_names");
    assert("hide_account_names"@.len() == 18);
    reveal_strlit("language");
    assert("language"@.len() == 8);
    reveal_strlit("locale");
    assert("locale"@.len() == 6);
    reveal_strlit("path");
    assert("path"@.len() == 4);
    reveal_strlit("region");
    assert("region"@.len() == 6);
    reveal_strlit("skip_play_confirm");
    assert("skip_play_confirm"@.len() == 17);
    reveal_strlit("theme");
    assert("theme"@.len() == 5);
    reveal_strlit("traditional_login");
    assert("traditional_login"@.len() == 17);
    reveal_strlit("update_channel");
    assert("update_channel"@.len() == 14);
    reveal_strlit("web_launch_auto_launch");
    assert("web_launch_auto_launch"@.len() == 22);
    reveal_strlit("web_launch_auto_paste");
    assert("web_launch_auto_paste"@.len() == 21);
    reveal_strlit("width");
    assert("width"@.len() == 5);
    reveal_strlit("window");
    assert("window"@.len() == 6);
    reveal_strlit("x");
    assert("x"@.len() == 1);
    reveal_strlit("y");
    assert("y"@.len() == 1);
}

/// `gamepass_incognito` in `[general]` sets `gamepass_incognito` and nothing else.
#[verifier::spinoff_prover]
pub proof fn lemma_entry_gamepass_incognito(c: ConfigModel, v: Seq<char>)
    ensures
        ini_apply(c, "general"@, "gamepass_incognito"@, v) == (ConfigModel { gamepass_incognito: ini_bool(v, true), ..c }),
{
    reveal(ini_apply);
    reveal(names_entry);
    reveal_strlit("account_view_mode");
    assert("account_view_mode"@.len() == 17);
    reveal_strlit("appearance");
    assert("appearance"@.len() == 10);
    reveal_strlit("auto_kill_patcher");
    assert("auto_kill_patcher"@.len() == 17);
    reveal_strlit("auto_launch_game");
    assert("auto_launch_game"@.len() == 16);
    reveal_strlit("auto_login");
    assert("auto_login"@.len() == 10);
    reveal_strlit("auto_start");
    assert("auto_start"@.len() == 10);
    reveal_strlit("auto_update");
    assert("auto_update"@.len() == 11);
    reveal_strlit("beanfun_rename_dismissed");
    assert("beanfun_rename_dismissed"@.len() == 24);
    reveal_strlit("cafe_mode");
    assert("cafe_mode"@.len() == 9);
    reveal_strlit("close_behavior");
    assert("close_behavior"@.len() == 14);
    reveal_strlit("debug_logging");
    assert("debug_logging"@.len() == 13);
    reveal_strlit("default_login_view");
    assert("default_login_view"@.len() == 18);
    reveal_strlit("font_size");
    assert("font_size"@.len() == 9);
    reveal_strlit("game");
    assert("game"@.len() == 4);
    reveal_strlit("gamepass_incognito");
    assert("gamepass_incognito"@.len() == 18);
    reveal_strlit("general");
    assert("general"@.len() == 7);
    reveal_strlit("height");
    assert("height"@.len() == 6);
    reveal_strlit("hide_account_names");
    assert("hide_account_names"@.len() == 18);
    reveal_strlit("language");
    assert("language"@.len() == 8);
    reveal_strlit("locale");
    assert("locale"@.len() == 6);
    reveal_strlit("path");
    assert("path"@.len() == 4);
    reveal_strlit("region");
    assert("region"@.len() == 6);
    reveal_strlit("skip_play_confirm");
    assert("skip_play_confirm"@.len() == 17);
    reveal_strlit("theme");
    assert("theme"@.len() == 5);
    reveal_strlit("traditional_login");
    assert("traditional_login"@.len() == 17);
    reveal_strlit("update_channel");
    assert("update_channel"@.len() == 14);
    reveal_strlit("web_launch_auto_launch");
    assert("web_launch_auto_launch"@.len() == 22);
    reveal_strlit("web_launch_auto_paste");
    assert("web_launch_auto_paste"@.len() == 21);
    reveal_strlit("width");
    assert("width"@.len() == 5);
    reveal_strlit("window");
    assert("window"@.len() == 6);
    reveal_strlit("x");
    assert("x"@.len() == 1);
    reveal_strlit("y");
    assert("y"@.len() == 1);
    assert("gamepass_incognito"@[0] != "hide_account_names"@[0]);
    assert("gamepass_incognito"@[0] != "default_login_view"@[0]);
}

/// `font_size` in `[appearance]` sets `font_size` and nothing else.
#[verifier::spinoff_prover]
pub proof fn lemma_entry_font_size(c: ConfigModel, v: Seq<char>)
    ensures
        ini_apply(c, "appearance"@, "font_size"@, v) == (ConfigModel { font_size: ini_font_size(v), ..c }),
{
    reveal(ini_apply);
    reveal(names_entry);
    reveal_strlit("account_view_mode");
    assert("account_view_mode"@.len() == 17);
    reveal_strlit("appearance");
    assert("appearance"@.len() == 10);
    reveal_strlit("auto_kill_patcher");
    assert("auto_kill_patcher"@.len() == 17);
    reveal_strlit("auto_launch_game");
    assert("auto_launch_game"@.len() == 16);
    reveal_strlit("auto_login");
    assert("auto_login"@.len() == 10);
    reveal_strlit("auto_start");
    assert("auto_start"@.len() == 10);
    reveal_strlit("auto_update");
    assert("auto_update"@.len() == 11);
    reveal_strlit("beanfun_rename_dismissed");
    assert("beanfun_rename_dismissed"@.len() == 24);
    reveal_strlit("cafe_mode");
    assert("cafe_mode"@.len() == 9);
    reveal_strlit("close_behavior");
    assert("close_behavior"@.len() == 14);
    reveal_strlit("debug_logging");
    assert("debug_logging"@.len() == 13);
    reveal_strlit("default_login_view");
    assert("default_login_view"@.len() == 18);
    reveal_strlit("font_size");
    assert("font_size"@.len() == 9);
    reveal_strlit("game");
    assert("game"@.len() == 4);
    reveal_strlit("gamepass_incognito");
    assert("gamepass_incognito"@.len() == 18);
    reveal_strlit("general");
    assert("general"@.len() == 7);
    reveal_strlit("height");
    assert("height"@.len() == 6);
    reveal_strlit("hide_account_names");
    assert("hide_account_names"@.len() == 18);
    reveal_strlit("language");
    assert("language"@.len() == 8);
    reveal_strlit("locale");
    assert("locale"@.len() == 6);
    reveal_strlit("path");
    assert("path"@.len() == 4);
    reveal_strlit("region");
    assert("region"@.len() == 6);
    reveal_strlit("skip_play_confirm");
    assert("skip_play_confirm"@.len() == 17);
    reveal_strlit("theme");
    assert("theme"@.len() == 5);
    reveal_strlit("traditional_login");
    assert("traditional_login"@.len() == 17);
    reveal_strlit("update_channel");
    assert("update_channel"@.len() == 14);
    reveal_strlit("web_launch_auto_launch");
    assert("web_launch_auto_launch"@.len() == 22);
    reveal_strlit("web_launch_auto_paste");
    assert("web_launch_auto_paste"@.len() == 21);
    reveal_strlit("width");
    assert("width"@.len() == 5);
    reveal_strlit("window");
    assert("window"@.len() == 6);
    reveal_strlit("x");
    assert("x"@.len() == 1);
    reveal_strlit("y");
    assert("y"@.len() == 1);
}

/// `traditional_login` in `[general]` sets `traditional_login` and nothing else.
#[verifier::spinoff_prover]
pub proof fn lemma_entry_traditional_login(c: ConfigModel, v: Seq<char>)
    ensures
        ini_apply(c, "general"@, "traditional_login"@, v) == (ConfigModel { traditional_login: ini_bool(v, true), ..c }),
{
    reveal(ini_apply);
    reveal(names_entry);
    reveal_strlit("account_view_mode");
    assert("account_view_mode"@.len() == 17);
    reveal_strlit("appearance");
    assert("appearance"@.len() == 10);
    reveal_strlit("auto_kill_patcher");
    assert("auto_kill_patcher"@.len() == 17);
    reveal_strlit("auto_launch_game");
    assert("auto_launch_game"@.len() == 16);
    reveal_strlit("auto_login");
    assert("auto_login"@.len() == 10);
    reveal_strlit("auto_start");
    assert("auto_start"@.len() == 10);
    reveal_strlit("auto_update");
    assert("auto_update"@.len() == 11);
    reveal_strlit("beanfun_rename_dismissed");
    assert("beanfun_rename_dismissed"@.len() == 24);
    reveal_strlit("cafe_mode");
    assert("cafe_mode"@.len() == 9);
    reveal_strlit("close_behavior");
    assert("close_behavior"@.len() == 14);
    reveal_strlit("debug_logging");
    assert("debug_logging"@.len() == 13);
    reveal_strlit("default_login_view");
    assert("default_login_view"@.len() == 18);
    reveal_strlit("font_size");
    assert("font_size"@.len() == 9);
    reveal_strlit("game");
    assert("game"@.len() == 4);
    reveal_strlit("gamepass_incognito");
    assert("gamepass_incognito"@.len() == 18);
    reveal_strlit("general");
    assert("general"@.len() == 7);
    reveal_strlit("height");
    assert("height"@.len() == 6);
    reveal_strlit("hide_account_names");
    assert("hide_account_names"@.len() == 18);
    reveal_strlit("language");
    assert("language"@.len() == 8);
    reveal_strlit("locale");
    assert("locale"@.len() == 6);
    reveal_strlit("path");
    assert("path"@.len() == 4);
    reveal_strlit("region");
    assert("region"@.len() == 6);
    reveal_strlit("skip_play_confirm");
    assert("skip_play_confirm"@.len() == 17);
    reveal_strlit("theme");
    assert("theme"@.len() == 5);
    reveal_strlit("traditional_login");
    assert("traditional_login"@.len() == 17);
    reveal_strlit("update_channel");
    assert("update_channel"@.len() == 14);
    reveal_strlit("web_launch_auto_launch");
    assert("web_launch_auto_launch"@.len() == 22);
    reveal_strlit("web_launch_auto_paste");
    assert("web_launch_auto_paste"@.len() == 21);
    reveal_strlit("width");
    assert("width"@.len() == 5);
    reveal_strlit("window");
    assert("window"@.len() == 6);
    reveal_strlit("x");
    assert("x"@.len() == 1);
    reveal_strlit("y");
    assert("y"@.len() == 1);
    assert("traditional_login"@[0] != "auto_kill_patcher"@[0]);
}

/// `auto_kill_patcher` in `[general]` sets `auto_kill_patcher` and nothing else.
#[verifier::spinoff_prover]
pub proof fn lemma_entry_auto_kill_patcher(c: ConfigModel, v: Seq<char>)
    ensures
        ini_apply(c, "general"@, "auto_kill_patcher"@, v) == (ConfigModel { auto_kill_patcher: ini_bool(v, true), ..c }),
{
    reveal(ini_apply);
    reveal(names_entry);
    reveal_strlit("account_view_mode");
    assert("account_view_mode"@.len() == 17);
    reveal_strlit("appearance");
    assert("appearance"@.len() == 10);
    reveal_strlit("auto_kill_patcher");
    assert("auto_kill_patcher"@.len() == 17);
    reveal_strlit("auto_launch_game");
    assert("auto_launch_game"@.len() == 16);
    reveal_strlit("auto_login");
    assert("auto_login"@.len() == 10);
    reveal_strlit("auto_start");
    assert("auto_start"@.len() == 10);
    reveal_strlit("auto_update");
    assert("auto_update"@.len() == 11);
    reveal_strlit("beanfun_rename_dismissed");
    assert("beanfun_rename_dismissed"@.len() == 24);
    reveal_strlit("cafe_mode");
    assert("cafe_mode"@.len() == 9);
    reveal_strlit("close_behavior");
    assert("close_behavior"@.len() == 14);
    reveal_strlit("debug_logging");
    assert("debug_logging"@.len() == 13);
    reveal_strlit("default_login_view");
    assert("default_login_view"@.len() == 18);
    reveal_strlit("font_size");
    assert("font_size"@.len() == 9);
    reveal_strlit("game");
    assert("game"@.len() == 4);
    reveal_strlit("gamepass_incognito");
    assert("gamepass_incognito"@.len() == 18);
    reveal_strlit("general");
    assert("general"@.len() == 7);
    reveal_strlit("height");
    assert("height"@.len() == 6);
    reveal_strlit("hide_account_names");
    assert("hide_account_names"@.len() == 18);
    reveal_strlit("language");
    assert("language"@.len() == 8);
    reveal_strlit("locale");
    assert("locale"@.len() == 6);
    reveal_strlit("path");
    assert("path"@.len() == 4);
    reveal_strlit("region");
    assert("region"@.len() == 6);
    reveal_strlit("skip_play_confirm");
    assert("skip_play_confirm"@.len() == 17);
    reveal_strlit("theme");
    assert("theme"@.len() == 5);
    reveal_strlit("traditional_login");
    assert("traditional_login"@.len() == 17);
    reveal_strlit("update_channel");
    assert("update_channel"@.len() == 14);
    reveal_strlit("web_launch_auto_launch");
    assert("web_launch_auto_launch"@.len() == 22);
    reveal_strlit("web_launch_auto_paste");
    assert("web_launch_auto_paste"@.len() == 21);
    reveal_strlit("width");
    assert("width"@.len() == 5);
    reveal_strlit("window");
    assert("window"@.len() == 6);
    reveal_strlit("x");
    assert("x"@.len() == 1);
    reveal_strlit("y");
    assert("y"@.len() == 1);
    assert("auto_kill_patcher"@[0] != "traditional_login"@[0]);
}

/// `account_view_mode` in `[appearance]` sets `account_view_mode` and nothing else.
#[verifier::spinoff_prover]
pub proof fn lemma_entry_account_view_mode(c: ConfigModel, v: Seq<char>)
    ensures
        ini_apply(c, "appearance"@, "account_view_mode"@, v) == (ConfigModel { account_view_mode: ini_account_view_mode(v), ..c }),
{
    reveal(ini_apply);
    reveal(names_entry);
    reveal_strlit("account_view_mode");
    assert("account_view_mode"@.len() == 17);
    reveal_strlit("appearance");
    assert("appearance"@.len() == 10);
    reveal_strlit("auto_kill_patcher");
    assert("auto_kill_patcher"@.len() == 17);
    reveal_strlit("auto_launch_game");
    assert("auto_launch_game"@.len() == 16);
    reveal_strlit("auto_login");
    assert("auto_login"@.len() == 10);
    reveal_strlit("auto_start");
    assert("auto_start"@.len() == 10);
    reveal_strlit("auto_update");
    assert("auto_update"@.len() == 11);
    reveal_strlit("beanfun_rename_dismissed");
    assert("beanfun_rename_dismissed"@.len() == 24);
    reveal_strlit("cafe_mode");
    assert("cafe_mode"@.len() == 9);
    reveal_strlit("close_behavior");
    assert("close_behavior"@.len() == 14);
    reveal_strlit("debug_logging");
    assert("debug_logging"@.len() == 13);
    reveal_strlit("default_login_view");
    assert("default_login_view"@.len() == 18);
    reveal_strlit("font_size");
    assert("font_size"@.len() == 9);
    reveal_strlit("game");
    assert("game"@.len() == 4);
    reveal_strlit("gamepass_incognito");
    assert("gamepass_incognito"@.len() == 18);
    reveal_strlit("general");
    assert("general"@.len() == 7);
    reveal_strlit("height");
    assert("height"@.len() == 6);
    reveal_strlit("hide_account_names");
    assert("hide_account_names"@.len() == 18);
    reveal_strlit("language");
    assert("language"@.len() == 8);
    reveal_strlit("locale");
    assert("locale"@.len() == 6);
    reveal_strlit("path");
    assert("path"@.len() == 4);
    reveal_strlit("region");
    assert("region"@.len() == 6);
    reveal_strlit("skip_play_confirm");
    assert("skip_play_confirm"@.len() == 17);
    reveal_strlit("theme");
    assert("theme"@.len() == 5);
    reveal_strlit("traditional_login");
    assert("traditional_login"@.len() == 17);
    reveal_strlit("update_channel");
    assert("update_channel"@.len() == 14);
    reveal_strlit("web_launch_auto_launch");
    assert("web_launch_auto_launch"@.len() == 22);
    reveal_strlit("web_launch_auto_paste");
    assert("web_launch_auto_paste"@.len() == 21);
    reveal_strlit("width");
    assert("width"@.len() == 5);
    reveal_strlit("window");
    assert("window"@.len() == 6);
    reveal_strlit("x");
    assert("x"@.len() == 1);
    reveal_strlit("y");
    assert("y"@.len() == 1);
}

/// `auto_login` in `[general]` sets `auto_login` and nothing else.
#[verifier::spinoff_prover]
pub proof fn lemma_entry_auto_login(c: ConfigModel, v: Seq<char>)
    ensures
        ini_apply(c, "general"@, "auto_login"@, v) == (ConfigModel { auto_login: ini_bool(v, false), ..c }),
{
    reveal(ini_apply);
    reveal(names_entry);
    reveal_strlit("account_view_mode");
    assert("account_view_mode"@.len() == 17);
    reveal_strlit("appearance");
    assert("appearance"@.len() == 10);
    reveal_strlit("auto_kill_patcher");
    assert("auto_kill_patcher"@.len() == 17);
    reveal_strlit("auto_launch_game");
    assert("auto_launch_game"@.len() == 16);
    reveal_strlit("auto_login");
    assert("auto_login"@.len() == 10);
    reveal_strlit("auto_start");
    assert("auto_start"@.len() == 10);
    reveal_strlit("auto_update");
    assert("auto_update"@.len() == 11);
    reveal_strlit("beanfun_rename_dismissed");
    assert("beanfun_rename_dismissed"@.len() == 24);
    reveal_strlit("cafe_mode");
    assert("cafe_mode"@.len() == 9);
    reveal_strlit("close_behavior");
    assert("close_behavior"@.len() == 14);
    reveal_strlit("debug_logging");
    assert("debug_logging"@.len() == 13);
    reveal_strlit("default_login_view");
    assert("default_login_view"@.len() == 18);
    reveal_strlit("font_size");
    assert("font_size"@.len() == 9);
    reveal_strlit("game");
    assert("game"@.len() == 4);
    reveal_strlit("gamepass_incognito");
    assert("gamepass_incognito"@.len() == 18);
    reveal_strlit("general");
    assert("general"@.len() == 7);
    reveal_strlit("height");
    assert("height"@.len() == 6);
    reveal_strlit("hide_account_names");
    assert("hide_account_names"@.len() == 18);
    reveal_strlit("language");
    assert("language"@.len() == 8);
    reveal_strlit("locale");
    assert("locale"@.len() == 6);
    reveal_strlit("path");
    assert("path"@.len() == 4);
    reveal_strlit("region");
    assert("region"@.len() == 6);
    reveal_strlit("skip_play_confirm");
    assert("skip_play_confirm"@.len() == 17);
    reveal_strlit("theme");
    assert("theme"@.len() == 5);
    reveal_strlit("traditional_login");
    assert("traditional_login"@.len() == 17);
    reveal_strlit("update_channel");
    assert("update_channel"@.len() == 14);
    reveal_strlit("web_launch_auto_launch");
    assert("web_launch_auto_launch"@.len() == 22);
    reveal_strlit("web_launch_auto_paste");
    assert("web_launch_auto_paste"@.len() == 21);
    reveal_strlit("width");
    assert("width"@.len() == 5);
    reveal_strlit("window");
    assert("window"@.len() == 6);
    reveal_strlit("x");
    assert("x"@.len() == 1);
    reveal_strlit("y");
    assert("y"@.len() == 1);
    assert("auto_login"@[5] != "auto_start"@[5]);
}

/// `auto_launch_game` in `[general]` sets `auto_launch_game` and nothing else.
#[verifier::spinoff_prover]
pub proof fn lemma_entry_auto_launch_game(c: ConfigModel, v: Seq<char>)
    ensures
        ini_apply(c, "general"@, "auto_launch_game"@, v) == (ConfigModel { auto_launch_game: ini_bool(v, false), ..c }),
{
    reveal(ini_apply);
    reveal(names_entry);
    reveal_strlit("account_view_mode");
    assert("account_view_mode"@.len() == 17);
    reveal_strlit("appearance");
    assert("appearance"@.len() == 10);
    reveal_strlit("auto_kill_patcher");
    assert("auto_kill_patcher"@.len() == 17);
    reveal_strlit("auto_launch_game");
    assert("auto_launch_game"@.len() == 16);
    reveal_strlit("auto_login");
    assert("auto_login"@.len() == 10);
    reveal_strlit("auto_start");
    assert("auto_start"@.len() == 10);
    reveal_strlit("auto_update");
    assert("auto_update"@.len() == 11);
    reveal_strlit("beanfun_rename_dismissed");
    assert("beanfun_rename_dismissed"@.len() == 24);
    reveal_strlit("cafe_mode");
    assert("cafe_mode"@.len() == 9);
    reveal_strlit("close_behavior");
    assert("close_behavior"@.len() == 14);
    reveal_strlit("debug_logging");
    assert("debug_logging"@.len() == 13);
    reveal_strlit("default_login_view");
    assert("default_login_view"@.len() == 18);
    reveal_strlit("font_size");
    assert("font_size"@.len() == 9);
    reveal_strlit("game");
    assert("game"@.len() == 4);
    reveal_strlit("gamepass_incognito");
    assert("gamepass_incognito"@.len() == 18);
    reveal_strlit("general");
    assert("general"@.len() == 7);
    reveal_strlit("height");
    assert("height"@.len() == 6);
    reveal_strlit("hide_account_names");
    assert("hide_account_names"@.len() == 18);
    reveal_strlit("language");
    assert("language"@.len() == 8);
    reveal_strlit("locale");
    assert("locale"@.len() == 6);
    reveal_strlit("path");
    assert("path"@.len() == 4);
    reveal_strlit("region");
    assert("region"@.len() == 6);
    reveal_strlit("skip_play_confirm");
    assert("skip_play_confirm"@.len() == 17);
    reveal_strlit("theme");
    assert("theme"@.len() == 5);
    reveal_strlit("traditional_login");
    assert("traditional_login"@.len() == 17);
    reveal_strlit("update_channel");
    assert("update_channel"@.len() == 14);
    reveal_strlit("web_launch_auto_launch");
    assert("web_launch_auto_launch"@.len() == 22);
    reveal_strlit("web_launch_auto_paste");
    assert("web_launch_auto_paste"@.len() == 21);
    reveal_strlit("width");
    assert("width"@.len() == 5);
    reveal_strlit("window");
    assert("window"@.len() == 6);
    reveal_strlit("x");
    assert("x"@.len() == 1);
    reveal_strlit("y");
    assert("y"@.len() == 1);
}

/// `web_launch_auto_launch` in `[game]` sets `web_launch_auto_launch` and nothing else.
#[verifier::spinoff_prover]
pub proof fn lemma_entry_web_launch_auto_launch(c: ConfigModel, v: Seq<char>)
    ensures
        ini_apply(c, "game"@, "web_launch_auto_launch"@, v) == (ConfigModel { web_launch_auto_launch: ini_bool(v, true), ..c }),
{
    reveal(ini_apply);
    reveal(names_entry);
    reveal_strlit("account_view_mode");
    assert("account_view_mode"@.len() == 17);
    reveal_strlit("appearance");
    assert("appearance"@.len() == 10);
    reveal_strlit("auto_kill_patcher");
    assert("auto_kill_patcher"@.len() == 17);
    reveal_strlit("auto_launch_game");
    assert("auto_launch_game"@.len() == 16);
    reveal_strlit("auto_login");
    assert("auto_login"@.len() == 10);
    reveal_strlit("auto_start");
    assert("auto_start"@.len() == 10);
    reveal_strlit("auto_update");
    assert("auto_update"@.len() == 11);
    reveal_strlit("beanfun_rename_dismissed");
    assert("beanfun_rename_dismissed"@.len() == 24);
    reveal_strlit("cafe_mode");
    assert("cafe_mode"@.len() == 9);
    reveal_strlit("close_behavior");
    assert("close_behavior"@.len() == 14);
    reveal_strlit("debug_logging");
    assert("debug_logging"@.len() == 13);
    reveal_strlit("default_login_view");
    assert("default_login_view"@.len() == 18);
    reveal_strlit("font_size");
    assert("font_size"@.len() == 9);
    reveal_strlit("game");
    assert("game"@.len() == 4);
    reveal_strlit("gamepass_incognito");
    assert("gamepass_incognito"@.len() == 18);
    reveal_strlit("general");
    assert("general"@.len() == 7);
    reveal_strlit("height");
    assert("height"@.len() == 6);
    reveal_strlit("hide_account_names");
    assert("hide_account_names"@.len() == 18);
    reveal_strlit("language");
    assert("language"@.len() == 8);
    reveal_strlit("locale");
    assert("locale"@.len() == 6);
    reveal_strlit("path");
    assert("path"@.len() == 4);
    reveal_strlit("region");
    assert("region"@.len() == 6);
    reveal_strlit("skip_play_confirm");
    assert("skip_play_confirm"@.len() == 17);
    reveal_strlit("theme");
    assert("theme"@.len() == 5);
    reveal_strlit("traditional_login");
    assert("traditional_login"@.len() == 17);
    reveal_strlit("update_channel");
    assert("update_channel"@.len() == 14);
    reveal_strlit("web_launch_auto_launch");
    assert("web_launch_auto_launch"@.len() == 22);
    reveal_strlit("web_launch_auto_paste");
    assert("web_launch_auto_paste"@.len() == 21);
    reveal_strlit("width");
    assert("width"@.len() == 5);
    reveal_strlit("window");
    assert("window"@.len() == 6);
    reveal_strlit("x");
    assert("x"@.len() == 1);
    reveal_strlit("y");
    assert("y"@.len() == 1);
}

/// `web_launch_auto_paste` in `[game]` sets `web_launch_auto_paste` and nothing else.
#[verifier::spinoff_prover]
pub proof fn lemma_entry_web_launch_auto_paste(c: ConfigModel, v: Seq<char>)
    ensures
        ini_apply(c, "game"@, "web_launch_auto_paste"@, v) == (ConfigModel { web_launch_auto_paste: ini_bool(v, true), ..c }),
{
    reveal(ini_apply);
    reveal(names_entry);
    reveal_strlit("account_view_mode");
    assert("account_view_mode"@.len() == 17);
    reveal_strlit("appearance");
    assert("appearance"@.len() == 10);
    reveal_strlit("auto_kill_patcher");
    assert("auto_kill_patcher"@.len() == 17);
    reveal_strlit("auto_launch_game");
    assert("auto_launch_game"@.len() == 16);
    reveal_strlit("auto_login");
    assert("auto_login"@.len() == 10);
    reveal_strlit("auto_start");
    assert("auto_start"@.len() == 10);
    reveal_strlit("auto_update");
    assert("auto_update"@.len() == 11);
    reveal_strlit("beanfun_rename_dismissed");
    assert("beanfun_rename_dismissed"@.len() == 24);
    reveal_strlit("cafe_mode");
    assert("cafe_mode"@.len() == 9);
    reveal_strlit("close_behavior");
    assert("close_behavior"@.len() == 14);
    reveal_strlit("debug_logging");
    assert("debug_logging"@.len() == 13);
    reveal_strlit("default_login_view");
    assert("default_login_view"@.len() == 18);
    reveal_strlit("font_size");
    assert("font_size"@.len() == 9);
    reveal_strlit("game");
    assert("game"@.len() == 4);
    reveal_strlit("gamepass_incognito");
    assert("gamepass_incognito"@.len() == 18);
    reveal_strlit("general");
    assert("general"@.len() == 7);
    reveal_strlit("height");
    assert("height"@.len() == 6);
    reveal_strlit("hide_account_names");
    assert("hide_account_names"@.len() == 18);
    reveal_strlit("language");
    assert("language"@.len() == 8);
    reveal_strlit("locale");
    assert("locale"@.len() == 6);
    reveal_strlit("path");
    assert("path"@.len() == 4);
    reveal_strlit("region");
    assert("region"@.len() == 6);
    reveal_strlit("skip_play_confirm");
    assert("skip_play_confirm"@.len() == 17);
    reveal_strlit("theme");
    assert("theme"@.len() == 5);
    reveal_strlit("traditional_login");
    assert("traditional_login"@.len() == 17);
    reveal_strlit("update_channel");
    assert("update_channel"@.len() == 14);
    reveal_strlit("web_launch_auto_launch");
    assert("web_launch_auto_launch"@.len() == 22);
    reveal_strlit("web_launch_auto_paste");
    assert("web_launch_auto_paste"@.len() == 21);
    reveal_strlit("width");
    assert("width"@.len() == 5);
    reveal_strlit("window");
    assert("window"@.len() == 6);
    reveal_strlit("x");
    assert("x"@.len() == 1);
    reveal_strlit("y");
    assert("y"@.len() == 1);
}

/// `close_behavior` in `[general]` sets `close_behavior` and nothing else.
#[verifier::spinoff_prover]
pub proof fn lemma_entry_close_behavior(c: ConfigModel, v: Seq<char>)
    ensures
        ini_apply(c, "general"@, "close_behavior"@, v) == (ConfigModel { close_behavior: ini_close_behavior(v), ..c }),
{
    reveal(ini_apply);
    reveal(names_entry);
    reveal_strlit("account_view_mode");
    assert("account_view_mode"@.len() == 17);
    reveal_strlit("appearance");
    assert("appearance"@.len() == 10);
    reveal_strlit("auto_kill_patcher");
    assert("auto_kill_patcher"@.len() == 17);
    reveal_strlit("auto_launch_game");
    assert("auto_launch_game"@.len() == 16);
    reveal_strlit("auto_login");
    assert("auto_login"@.len() == 10);
    reveal_strlit("auto_start");
    assert("auto_start"@.len() == 10);
    reveal_strlit("auto_update");
    assert("auto_update"@.len() == 11);
    reveal_strlit("beanfun_rename_dismissed");
    assert("beanfun_rename_dismissed"@.len() == 24);
    reveal_strlit("cafe_mode");
    assert("cafe_mode"@.len() == 9);
    reveal_strlit("close_behavior");
    assert("close_behavior"@.len() == 14);
    reveal_strlit("debug_logging");
    assert("debug_logging"@.len() == 13);
    reveal_strlit("default_login_view");
    assert("default_login_view"@.len() == 18);
    reveal_strlit("font_size");
    assert("font_size"@.len() == 9);
    reveal_strlit("game");
    assert("game"@.len() == 4);
    reveal_strlit("gamepass_incognito");
    assert("gamepass_incognito"@.len() == 18);
    reveal_strlit("general");
    assert("general"@.len() == 7);
    reveal_strlit("height");
    assert("height"@.len() == 6);
    reveal_strlit("hide_account_names");
    assert("hide_account_names"@.len() == 18);
    reveal_strlit("language");
    assert("language"@.len() == 8);
    reveal_strlit("locale");
    assert("locale"@.len() == 6);
    reveal_strlit("path");
    assert("path"@.len() == 4);
    reveal_strlit("region");
    assert("region"@.len() == 6);
    reveal_strlit("skip_play_confirm");
    assert("skip_play_confirm"@.len() == 17);
    reveal_strlit("theme");
    assert("theme"@.len() == 5);
    reveal_strlit("traditional_login");
    assert("traditional_login"@.len() == 17);
    reveal_strlit("update_channel");
    assert("update_channel"@.len() == 14);
    reveal_strlit("web_launch_auto_launch");
    assert("web_launch_auto_launch"@.len() == 22);
    reveal_strlit("web_launch_auto_paste");
    assert("web_launch_auto_paste"@.len() == 21);
    reveal_strlit("width");
    assert("width"@.len() == 5);
    reveal_strlit("window");
    assert("window"@.len() == 6);
    reveal_strlit("x");
    assert("x"@.len() == 1);
    reveal_strlit("y");
    assert("y"@.len() == 1);
    assert("close_behavior"@[0] != "update_channel"@[0]);
}

/// `hide_account_names` in `[general]` sets `hide_account_names` and nothing else.
#[verifier::spinoff_prover]
pub proof fn lemma_entry_hide_account_names(c: ConfigModel, v: Seq<char>)
    ensures
        ini_apply(c, "general"@, "hide_account_names"@, v) == (ConfigModel { hide_account_names: ini_bool(v, false), ..c }),
{
    reveal(ini_apply);
    reveal(names_entry);
    reveal_strlit("account_view_mode");
    assert("account_view_mode"@.len() == 17);
    reveal_strlit("appearance");
    assert("appearance"@.len() == 10);
    reveal_strlit("auto_kill_patcher");
    assert("auto_kill_patcher"@.len() == 17);
    reveal_strlit("auto_launch_game");
    assert("auto_launch_game"@.len() == 16);
    reveal_strlit("auto_login");
    assert("auto_login"@.len() == 10);
    reveal_strlit("auto_start");
    assert("auto_start"@.len() == 10);
    reveal_strlit("auto_update");
    assert("auto_update"@.len() == 11);
    reveal_strlit("beanfun_rename_dismissed");
    assert("beanfun_rename_dismissed"@.len() == 24);
    reveal_strlit("cafe_mode");
    assert("cafe_mode"@.len() == 9);
    reveal_strlit("close_behavior");
    assert("close_behavior"@.len() == 14);
    reveal_strlit("debug_logging");
    assert("debug_logging"@.len() == 13);
    reveal_strlit("default_login_view");
    assert("default_login_view"@.len() == 18);
    reveal_strlit("font_size");
    assert("font_size"@.len() == 9);
    reveal_strlit("game");
    assert("game"@.len() == 4);
    reveal_strlit("gamepass_incognito");
    assert("gamepass_incognito"@.len() == 18);
    reveal_strlit("general");
    assert("general"@.len() == 7);
    reveal_strlit("height");
    assert("height"@.len() == 6);
    reveal_strlit("hide_account_names");
    assert("hide_account_names"@.len() == 18);
    reveal_strlit("language");
    assert("language"@.len() == 8);
    reveal_strlit("locale");
    assert("locale"@.len() == 6);
    reveal_strlit("path");
    assert("path"@.len() == 4);
    reveal_strlit("region");
    assert("region"@.len() == 6);
    reveal_strlit("skip_play_confirm");
    assert("skip_play_confirm"@.len() == 17);
    reveal_strlit("theme");
    assert("theme"@.len() == 5);
    reveal_strlit("traditional_login");
    assert("traditional_login"@.len() == 17);
    reveal_strlit("update_channel");
    assert("update_channel"@.len() == 14);
    reveal_strlit("web_launch_auto_launch");
    assert("web_launch_auto_launch"@.len() == 22);
    reveal_strlit("web_launch_auto_paste");
    assert("web_launch_auto_paste"@.len() == 21);
    reveal_strlit("width");
    assert("width"@.len() == 5);
    reveal_strlit("window");
    assert("window"@.len() == 6);
    reveal_strlit("x");
    assert("x"@.len() == 1);
    reveal_strlit("y");
    assert("y"@.len() == 1);
    assert("hide_account_names"@[0] != "gamepass_incognito"@[0]);
    assert("hide_account_names"@[0] != "default_login_view"@[0]);
}

/// `beanfun_rename_dismissed` in `[general]` sets `beanfun_rename_dismissed` and nothing else.
#[verifier::spinoff_prover]
pub proof fn lemma_entry_beanfun_rename_dismissed(c: ConfigModel, v: Seq<char>)
    ensures
        ini_apply(c, "general"@, "beanfun_rename_dismissed"@, v) == (ConfigModel { beanfun_rename_dismissed: ini_bool(v, false), ..c }),
{
    reveal(ini_apply);
    reveal(names_entry);
    reveal_strlit("account_view_mode");
    assert("account_view_mode"@.len() == 17);
    reveal_strlit("appearance");
    assert("appearance"@.len() == 10);
    reveal_strlit("auto_kill_patcher");
    assert("auto_kill_patcher"@.len() == 17);
    reveal_strlit("auto_launch_game");
    assert("auto_launch_game"@.len() == 16);
    reveal_strlit("auto_login");
    assert("auto_login"@.len() == 10);
    reveal_strlit("auto_start");
    assert("auto_start"@.len() == 10);
    reveal_strlit("auto_update");
    assert("auto_update"@.len() == 11);
    reveal_strlit("beanfun_rename_dismissed");
    assert("beanfun_rename_dismissed"@.len() == 24);
    reveal_strlit("cafe_mode");
    assert("cafe_mode"@.len() == 9);
    reveal_strlit("close_behavior");
    assert("close_behavior"@.len() == 14);
    reveal_strlit("debug_logging");
    assert("debug_logging"@.len() == 13);
    reveal_strlit("default_login_view");
    assert("default_login_view"@.len() == 18);
    reveal_strlit("font_size");
    assert("font_size"@.len() == 9);
    reveal_strlit("game");
    assert("game"@.len() == 4);
    reveal_strlit("gamepass_incognito");
    assert("gamepass_incognito"@.len() == 18);
    reveal_strlit("general");
    assert("general"@.len() == 7);
    reveal_strlit("height");
    assert("height"@.len() == 6);
    reveal_strlit("hide_account_names");
    assert("hide_account_names"@.len() == 18);
    reveal_strlit("language");
    assert("language"@.len() == 8);
    reveal_strlit("locale");
    assert("locale"@.len() == 6);
    reveal_strlit("path");
    assert("path"@.len() == 4);
    reveal_strlit("region");
    assert("region"@.len() == 6);
    reveal_strlit("skip_play_confirm");
    assert("skip_play_confirm"@.len() == 17);
    reveal_strlit("theme");
    assert("theme"@.len() == 5);
    reveal_strlit("traditional_login");
    assert("traditional_login"@.len() == 17);
    reveal_strlit("update_channel");
    assert("update_channel"@.len() == 14);
    reveal_strlit("web_launch_auto_launch");
    assert("web_launch_auto_launch"@.len() == 22);
    reveal_strlit("web_launch_auto_paste");
    assert("web_launch_auto_paste"@.len() == 21);
    reveal_strlit("width");
    assert("width"@.len() == 5);
    reveal_strlit("window");
    assert("window"@.len() == 6);
    reveal_strlit("x");
    assert("x"@.len() == 1);
    reveal_strlit("y");
    assert("y"@.len() == 1);
}

/// `cafe_mode` in `[general]` sets `cafe_mode` and nothing else.
#[verifier::spinoff_prover]
pub proof fn lemma_entry_cafe_mode(c: ConfigModel, v: Seq<char>)
    ensures
        ini_apply(c, "general"@, "cafe_mode"@, v) == (ConfigModel { cafe_mode: ini_bool(v, false), ..c }),
{
    reveal(ini_apply);
    reveal(names_entry);
    reveal_strlit("account_view_mode");
    assert("account_view_mode"@.len() == 17);
    reveal_strlit("appearance");
    assert("appearance"@.len() == 10);
    reveal_strlit("auto_kill_patcher");
    assert("auto_kill_patcher"@.len() == 17);
    reveal_strlit("auto_launch_game");
    assert("auto_launch_game"@.len() == 16);
    reveal_strlit("auto_login");
    assert("auto_login"@.len() == 10);
    reveal_strlit("auto_start");
    assert("auto_start"@.len() == 10);
    reveal_strlit("auto_update");
    assert("auto_update"@.len() == 11);
    reveal_strlit("beanfun_rename_dismissed");
    assert("beanfun_rename_dismissed"@.len() == 24);
    reveal_strlit("cafe_mode");
    assert("cafe_mode"@.len() == 9);
    reveal_strlit("close_behavior");
    assert("close_behavior"@.len() == 14);
    reveal_strlit("debug_logging");
    assert("debug_logging"@.len() == 13);
    reveal_strlit("default_login_view");
    assert("default_login_view"@.len() == 18);
    reveal_strlit("font_size");
    assert("font_size"@.len() == 9);
    reveal_strlit("game");
    assert("game"@.len() == 4);
    reveal_strlit("gamepass_incognito");
    assert("gamepass_incognito"@.len() == 18);
    reveal_strlit("general");
    assert("general"@.len() == 7);
    reveal_strlit("height");
    assert("height"@.len() == 6);
    reveal_strlit("hide_account_names");
    assert("hide_account_names"@.len() == 18);
    reveal_strlit("language");
    assert("language"@.len() == 8);
    reveal_strlit("locale");
    assert("locale"@.len() == 6);
    reveal_strlit("path");
    assert("path"@.len() == 4);
    reveal_strlit("region");
    assert("region"@.len() == 6);
    reveal_strlit("skip_play_confirm");
    assert("skip_play_confirm"@.len() == 17);
    reveal_strlit("theme");
    assert("theme"@.len() == 5);
    reveal_strlit("traditional_login");
    assert("traditional_login"@.len() == 17);
    reveal_strlit("update_channel");
    assert("update_channel"@.len() == 14);
    reveal_strlit("web_launch_auto_launch");
    assert("web_launch_auto_launch"@.len() == 22);
    reveal_strlit("web_launch_auto_paste");
    assert("web_launch_auto_paste"@.len() == 21);
    reveal_strlit("width");
    assert("width"@.len() == 5);
    reveal_strlit("window");
    assert("window"@.len() == 6);
    reveal_strlit("x");
    assert("x"@.len() == 1);
    reveal_strlit("y");
    assert("y"@.len() == 1);
}

/// `default_login_view` in `[general]` sets `default_login_view` and nothing else.
#[verifier::spinoff_prover]
pub proof fn lemma_entry_default_login_view(c: ConfigModel, v: Seq<char>)
    ensures
        ini_apply(c, "general"@, "default_login_view"@, v) == (ConfigModel { default_login_view: ini_default_login_view(v), ..c }),
{
    reveal(ini_apply);
    reveal(names_entry);
    reveal_strlit("account_view_mode");
    assert("account_view_mode"@.len() == 17);
    reveal_strlit("appearance");
    assert("appearance"@.len() == 10);
    reveal_strlit("auto_kill_patcher");
    assert("auto_kill_patcher"@.len() == 17);
    reveal_strlit("auto_launch_game");
    assert("auto_launch_game"@.len() == 16);
    reveal_strlit("auto_login");
    assert("auto_login"@.len() == 10);
    reveal_strlit("auto_start");
    assert("auto_start"@.len() == 10);
    reveal_strlit("auto_update");
    assert("auto_update"@.len() == 11);
    reveal_strlit("beanfun_rename_dismissed");
    assert("beanfun_rename_dismissed"@.len() == 24);
    reveal_strlit("cafe_mode");
    assert("cafe_mode"@.len() == 9);
    reveal_strlit("close_behavior");
    assert("close_behavior"@.len() == 14);
    reveal_strlit("debug_logging");
    assert("debug_logging"@.len() == 13);
    reveal_strlit("default_login_view");
    assert("default_login_view"@.len() == 18);
    reveal_strlit("font_size");
    assert("font_size"@.len() == 9);
    reveal_strlit("game");
    assert("game"@.len() == 4);
    reveal_strlit("gamepass_incognito");
    assert("gamepass_incognito"@.len() == 18);
    reveal_strlit("general");
    assert("general"@.len() == 7);
    reveal_strlit("height");
    assert("height"@.len() == 6);
    reveal_strlit("hide_account_names");
    assert("hide_account_names"@.len() == 18);
    reveal_strlit("language");
    assert("language"@.len() == 8);
    reveal_strlit("locale");
    assert("locale"@.len() == 6);
    reveal_strlit("path");
    assert("path"@.len() == 4);
    reveal_strlit("region");
    assert("region"@.len() == 6);
    reveal_strlit("skip_play_confirm");
    assert("skip_play_confirm"@.len() == 17);
    reveal_strlit("theme");
    assert("theme"@.len() == 5);
    reveal_strlit("traditional_login");
    assert("traditional_login"@.len() == 17);
    reveal_strlit("update_channel");
    assert("update_channel"@.len() == 14);
    reveal_strlit("web_launch_auto_launch");
    assert("web_launch_auto_launch"@.len() == 22);
    reveal_strlit("web_launch_auto_paste");
    assert("web_launch_auto_paste"@.len() == 21);
    reveal_strlit("width");
    assert("width"@.len() == 5);
    reveal_strlit("window");
    assert("window"@.len() == 6);
    reveal_strlit("x");
    assert("x"@.len() == 1);
    reveal_strlit("y");
    assert("y"@.len() == 1);
    assert("default_login_view"@[0] != "gamepass_incognito"@[0]);
    assert("default_login_view"@[0] != "hide_account_names"@[0]);
}

/// An entry that names no setting (an unknown key, or a known key under
/// another section) changes nothing.
#[verifier::spinoff_prover]
#[verifier::rlimit(80)]
pub proof fn lemma_unknown_entry(c: ConfigModel, section: Seq<char>, key: Seq<char>, v: Seq<char>)
    requires
        !((section == "game"@ && key == "path"@) || (section == "game"@ && key == "locale"@) || (section == "appearance"@ && key == "theme"@) || (section == "general"@ && key == "language"@) || (section == "general"@ && key == "auto_update"@) || (section == "general"@ && key == "update_channel"@) || (section == "game"@ && key == "skip_play_confirm"@) || (section == "general"@ && key == "auto_start"@) || (section == "window"@ && key == "x"@) || (section == "window"@ && key == "y"@) || (section == "window"@ && key == "width"@) || (section == "window"@ && key == "height"@) || (section == "general"@ && key == "region"@) || (section == "general"@ && key == "debug_logging"@) || (section == "general"@ && key == "gamepass_incognito"@) || (section == "appearance"@ && key == "font_size"@) || (section == "general"@ && key == "traditional_login"@) || (section == "general"@ && key == "auto_kill_patcher"@) || (section == "appearance"@ && key == "account_view_mode"@) || (section == "general"@ && key == "auto_login"@) || (section == "general"@ && key == "auto_launch_game"@) || (section == "game"@ && key == "web_launch_auto_launch"@) || (section == "game"@ && key == "web_launch_auto_paste"@) || (section == "general"@ && key == "close_behavior"@) || (section == "general"@ && key == "hide_account_names"@) || (section == "general"@ && key == "beanfun_rename_dismissed"@) || (section == "general"@ && key == "cafe_mode"@) || (section == "general"@ && key == "default_login_view"@)),
    ensures
        ini_apply(c, section, key, v) == c,
{
    reveal(ini_apply);
    reveal(names_entry);
}

} // verus!
