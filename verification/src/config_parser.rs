//! INI reader and writer for [`AppConfig`].
//!
//! Handles four INI sections: `[general]`, `[game]`, `[appearance]`, `[window]`.
//! Malformed entries fall back to the default values: a line that cannot be
//! read is skipped, and a value that cannot be read gives the field's default.

use vstd::prelude::*;
use crate::config::{
    AccountViewMode, AppConfig, CloseBehavior, ConfigModel, DefaultLoginView, FontSize, Language,
    Region, Theme, UpdateChannel, default_config,
};
use crate::decimal::{int_text, parse_i32, parse_i32_spec, parse_u32, parse_u32_spec};
use crate::error::ConfigError;
use crate::text::{
    chars_of, eq_lit, find_char, find_in_range, lower_text, replace_char, string_of_range, to_lower,
    to_upper, trim, trim_range, upper_text,
};

verus! {

// ---------------------------------------------------------------------------
// Reading single values
// ---------------------------------------------------------------------------

/// A flag value: `true`/`1`/`yes` or `false`/`0`/`no` in any letter case,
/// anything else gives `default`.
#[verifier::opaque]
pub open spec fn ini_bool(v: Seq<char>, default: bool) -> bool {
    let l = lower_text(v);
    if l == "true"@ || l == "1"@ || l == "yes"@ {
        true
    } else if l == "false"@ || l == "0"@ || l == "no"@ {
        false
    } else {
        default
    }
}

/// `TW` or `HK` in any letter case; anything else gives the default region.
#[verifier::opaque]
pub open spec fn ini_region(v: Seq<char>) -> Region {
    let u = upper_text(v);
    if u == "TW"@ {
        Region::TW
    } else if u == "HK"@ {
        Region::HK
    } else {
        default_config().region
    }
}

/// `en-US`, `zh-TW` or `zh-CN` exactly; anything else gives the default language.
#[verifier::opaque]
pub open spec fn ini_language(v: Seq<char>) -> Language {
    if v == "en-US"@ {
        Language::EnUS
    } else if v == "zh-TW"@ {
        Language::ZhTW
    } else if v == "zh-CN"@ {
        Language::ZhCN
    } else {
        default_config().language
    }
}

#[verifier::opaque]
pub open spec fn ini_theme(v: Seq<char>) -> Theme {
    let l = lower_text(v);
    if l == "system"@ {
        Theme::System
    } else if l == "dark"@ {
        Theme::Dark
    } else if l == "light"@ {
        Theme::Light
    } else {
        default_config().theme
    }
}

/// Lower-cased, with `_` read as `-`: `release`, `pre-release` or `prerelease`.
#[verifier::opaque]
pub open spec fn ini_update_channel(v: Seq<char>) -> UpdateChannel {
    let l = replace_char(lower_text(v), '_', '-');
    if l == "release"@ {
        UpdateChannel::Release
    } else if l == "pre-release"@ || l == "prerelease"@ {
        UpdateChannel::PreRelease
    } else {
        default_config().update_channel
    }
}

#[verifier::opaque]
pub open spec fn ini_font_size(v: Seq<char>) -> FontSize {
    let l = lower_text(v);
    if l == "small"@ {
        FontSize::Small
    } else if l == "medium"@ {
        FontSize::Medium
    } else if l == "large"@ {
        FontSize::Large
    } else if l == "extra-large"@ {
        FontSize::ExtraLarge
    } else {
        FontSize::Medium
    }
}

/// `list` or `card` in any letter case; anything else gives `card`.
#[verifier::opaque]
pub open spec fn ini_account_view_mode(v: Seq<char>) -> AccountViewMode {
    let l = lower_text(v);
    if l == "list"@ {
        AccountViewMode::List
    } else if l == "card"@ {
        AccountViewMode::Card
    } else {
        AccountViewMode::Card
    }
}

#[verifier::opaque]
pub open spec fn ini_close_behavior(v: Seq<char>) -> CloseBehavior {
    let l = lower_text(v);
    if l == "quit"@ {
        CloseBehavior::Quit
    } else if l == "tray"@ {
        CloseBehavior::Tray
    } else {
        CloseBehavior::Ask
    }
}

/// `normal` or `qr` in any letter case; anything else gives `normal`.
#[verifier::opaque]
pub open spec fn ini_default_login_view(v: Seq<char>) -> DefaultLoginView {
    let l = lower_text(v);
    if l == "normal"@ {
        DefaultLoginView::Normal
    } else if l == "qr"@ {
        DefaultLoginView::Qr
    } else {
        DefaultLoginView::Normal
    }
}

// ---------------------------------------------------------------------------
// Reading a whole file
// ---------------------------------------------------------------------------

/// Whether an entry read under `section` with `key` is entry `k` of section `s`.
#[verifier::opaque]
pub open spec fn names_entry(section: Seq<char>, key: Seq<char>, s: Seq<char>, k: Seq<char>) -> bool {
    section == s && key == k
}

/// Effect of one `key = v` entry read under `section`: the field that the
/// section and key name takes the value read from `v`, every other field is
/// kept; an unknown section or key changes nothing.
#[verifier::opaque]
pub open spec fn ini_apply(c: ConfigModel, section: Seq<char>, key: Seq<char>, v: Seq<char>) -> ConfigModel {
    ConfigModel {
        game_path: if names_entry(section, key, "game"@, "path"@) {
            v
        } else {
            c.game_path
        },
        locale: if names_entry(section, key, "game"@, "locale"@) {
            v
        } else {
            c.locale
        },
        theme: if names_entry(section, key, "appearance"@, "theme"@) {
            ini_theme(v)
        } else {
            c.theme
        },
        language: if names_entry(section, key, "general"@, "language"@) {
            ini_language(v)
        } else {
            c.language
        },
        auto_update: if names_entry(section, key, "general"@, "auto_update"@) {
            ini_bool(v, default_config().auto_update)
        } else {
            c.auto_update
        },
        update_channel: if names_entry(section, key, "general"@, "update_channel"@) {
            ini_update_channel(v)
        } else {
            c.update_channel
        },
        skip_play_confirm: if names_entry(section, key, "game"@, "skip_play_confirm"@) {
            ini_bool(v, default_config().skip_play_confirm)
        } else {
            c.skip_play_confirm
        },
        auto_start: if names_entry(section, key, "general"@, "auto_start"@) {
            ini_bool(v, default_config().auto_start)
        } else {
            c.auto_start
        },
        window_x: if names_entry(section, key, "window"@, "x"@) {
            parse_i32_spec(v)
        } else {
            c.window_x
        },
        window_y: if names_entry(section, key, "window"@, "y"@) {
            parse_i32_spec(v)
        } else {
            c.window_y
        },
        window_width: if names_entry(section, key, "window"@, "width"@) {
            parse_u32_spec(v)
        } else {
            c.window_width
        },
        window_height: if names_entry(section, key, "window"@, "height"@) {
            parse_u32_spec(v)
        } else {
            c.window_height
        },
        region: if names_entry(section, key, "general"@, "region"@) {
            ini_region(v)
        } else {
            c.region
        },
        debug_logging: if names_entry(section, key, "general"@, "debug_logging"@) {
            ini_bool(v, default_config().debug_logging)
        } else {
            c.debug_logging
        },
        gamepass_incognito: if names_entry(section, key, "general"@, "gamepass_incognito"@) {
            ini_bool(v, default_config().gamepass_incognito)
        } else {
            c.gamepass_incognito
        },
        font_size: if names_entry(section, key, "appearance"@, "font_size"@) {
            ini_font_size(v)
        } else {
            c.font_size
        },
        traditional_login: if names_entry(section, key, "general"@, "traditional_login"@) {
            ini_bool(v, default_config().traditional_login)
        } else {
            c.traditional_login
        },
        auto_kill_patcher: if names_entry(section, key, "general"@, "auto_kill_patcher"@) {
            ini_bool(v, default_config().auto_kill_patcher)
        } else {
            c.auto_kill_patcher
        },
        account_view_mode: if names_entry(section, key, "appearance"@, "account_view_mode"@) {
            ini_account_view_mode(v)
        } else {
            c.account_view_mode
        },
        auto_login: if names_entry(section, key, "general"@, "auto_login"@) {
            ini_bool(v, default_config().auto_login)
        } else {
            c.auto_login
        },
        auto_launch_game: if names_entry(section, key, "general"@, "auto_launch_game"@) {
            ini_bool(v, default_config().auto_launch_game)
        } else {
            c.auto_launch_game
        },
        web_launch_auto_launch: if names_entry(section, key, "game"@, "web_launch_auto_launch"@) {
            ini_bool(v, default_config().web_launch_auto_launch)
        } else {
            c.web_launch_auto_launch
        },
        web_launch_auto_paste: if names_entry(section, key, "game"@, "web_launch_auto_paste"@) {
            ini_bool(v, default_config().web_launch_auto_paste)
        } else {
            c.web_launch_auto_paste
        },
        close_behavior: if names_entry(section, key, "general"@, "close_behavior"@) {
            ini_close_behavior(v)
        } else {
            c.close_behavior
        },
        hide_account_names: if names_entry(section, key, "general"@, "hide_account_names"@) {
            ini_bool(v, default_config().hide_account_names)
        } else {
            c.hide_account_names
        },
        beanfun_rename_dismissed: if names_entry(section, key, "general"@, "beanfun_rename_dismissed"@) {
            ini_bool(v, default_config().beanfun_rename_dismissed)
        } else {
            c.beanfun_rename_dismissed
        },
        cafe_mode: if names_entry(section, key, "general"@, "cafe_mode"@) {
            ini_bool(v, default_config().cafe_mode)
        } else {
            c.cafe_mode
        },
        default_login_view: if names_entry(section, key, "general"@, "default_login_view"@) {
            ini_default_login_view(v)
        } else {
            c.default_login_view
        },
    }
}

/// Part 1 of [`ini_apply`].
spec fn ini_apply_part1(c: ConfigModel, section: Seq<char>, key: Seq<char>, v: Seq<char>) -> ConfigModel {
    ConfigModel {
        game_path: if names_entry(section, key, "game"@, "path"@) {
            v
        } else {
            c.game_path
        },
        locale: if names_entry(section, key, "game"@, "locale"@) {
            v
        } else {
            c.locale
        },
        ..c
    }
}

/// Part 2 of [`ini_apply`].
spec fn ini_apply_part2(c: ConfigModel, section: Seq<char>, key: Seq<char>, v: Seq<char>) -> ConfigModel {
    ConfigModel {
        theme: if names_entry(section, key, "appearance"@, "theme"@) {
            ini_theme(v)
        } else {
            c.theme
        },
        language: if names_entry(section, key, "general"@, "language"@) {
            ini_language(v)
        } else {
            c.language
        },
        ..c
    }
}

/// Part 3 of [`ini_apply`].
spec fn ini_apply_part3(c: ConfigModel, section: Seq<char>, key: Seq<char>, v: Seq<char>) -> ConfigModel {
    ConfigModel {
        auto_update: if names_entry(section, key, "general"@, "auto_update"@) {
            ini_bool(v, default_config().auto_update)
        } else {
            c.auto_update
        },
        update_channel: if names_entry(section, key, "general"@, "update_channel"@) {
            ini_update_channel(v)
        } else {
            c.update_channel
        },
        ..c
    }
}

/// Part 4 of [`ini_apply`].
spec fn ini_apply_part4(c: ConfigModel, section: Seq<char>, key: Seq<char>, v: Seq<char>) -> ConfigModel {
    ConfigModel {
        skip_play_confirm: if names_entry(section, key, "game"@, "skip_play_confirm"@) {
            ini_bool(v, default_config().skip_play_confirm)
        } else {
            c.skip_play_confirm
        },
        auto_start: if names_entry(section, key, "general"@, "auto_start"@) {
            ini_bool(v, default_config().auto_start)
        } else {
            c.auto_start
        },
        ..c
    }
}

/// Part 5 of [`ini_apply`].
spec fn ini_apply_part5(c: ConfigModel, section: Seq<char>, key: Seq<char>, v: Seq<char>) -> ConfigModel {
    ConfigModel {
        window_x: if names_entry(section, key, "window"@, "x"@) {
            parse_i32_spec(v)
        } else {
            c.window_x
        },
        window_y: if names_entry(section, key, "window"@, "y"@) {
            parse_i32_spec(v)
        } else {
            c.window_y
        },
        ..c
    }
}

/// Part 6 of [`ini_apply`].
spec fn ini_apply_part6(c: ConfigModel, section: Seq<char>, key: Seq<char>, v: Seq<char>) -> ConfigModel {
    ConfigModel {
        window_width: if names_entry(section, key, "window"@, "width"@) {
            parse_u32_spec(v)
        } else {
            c.window_width
        },
        window_height: if names_entry(section, key, "window"@, "height"@) {
            parse_u32_spec(v)
        } else {
            c.window_height
        },
        ..c
    }
}

/// Part 7 of [`ini_apply`].
spec fn ini_apply_part7(c: ConfigModel, section: Seq<char>, key: Seq<char>, v: Seq<char>) -> ConfigModel {
    ConfigModel {
        region: if names_entry(section, key, "general"@, "region"@) {
            ini_region(v)
        } else {
            c.region
        },
        debug_logging: if names_entry(section, key, "general"@, "debug_logging"@) {
            ini_bool(v, default_config().debug_logging)
        } else {
            c.debug_logging
        },
        ..c
    }
}

/// Part 8 of [`ini_apply`].
spec fn ini_apply_part8(c: ConfigModel, section: Seq<char>, key: Seq<char>, v: Seq<char>) -> ConfigModel {
    ConfigModel {
        gamepass_incognito: if names_entry(section, key, "general"@, "gamepass_incognito"@) {
            ini_bool(v, default_config().gamepass_incognito)
        } else {
            c.gamepass_incognito
        },
        font_size: if names_entry(section, key, "appearance"@, "font_size"@) {
            ini_font_size(v)
        } else {
            c.font_size
        },
        ..c
    }
}

/// Part 9 of [`ini_apply`].
spec fn ini_apply_part9(c: ConfigModel, section: Seq<char>, key: Seq<char>, v: Seq<char>) -> ConfigModel {
    ConfigModel {
        traditional_login: if names_entry(section, key, "general"@, "traditional_login"@) {
            ini_bool(v, default_config().traditional_login)
        } else {
            c.traditional_login
        },
        auto_kill_patcher: if names_entry(section, key, "general"@, "auto_kill_patcher"@) {
            ini_bool(v, default_config().auto_kill_patcher)
        } else {
            c.auto_kill_patcher
        },
        ..c
    }
}

/// Part 10 of [`ini_apply`].
spec fn ini_apply_part10(c: ConfigModel, section: Seq<char>, key: Seq<char>, v: Seq<char>) -> ConfigModel {
    ConfigModel {
        account_view_mode: if names_entry(section, key, "appearance"@, "account_view_mode"@) {
            ini_account_view_mode(v)
        } else {
            c.account_view_mode
        },
        auto_login: if names_entry(section, key, "general"@, "auto_login"@) {
            ini_bool(v, default_config().auto_login)
        } else {
            c.auto_login
        },
        ..c
    }
}

/// Part 11 of [`ini_apply`].
spec fn ini_apply_part11(c: ConfigModel, section: Seq<char>, key: Seq<char>, v: Seq<char>) -> ConfigModel {
    ConfigModel {
        auto_launch_game: if names_entry(section, key, "general"@, "auto_launch_game"@) {
            ini_bool(v, default_config().auto_launch_game)
        } else {
            c.auto_launch_game
        },
        web_launch_auto_launch: if names_entry(section, key, "game"@, "web_launch_auto_launch"@) {
            ini_bool(v, default_config().web_launch_auto_launch)
        } else {
            c.web_launch_auto_launch
        },
        ..c
    }
}

/// Part 12 of [`ini_apply`].
spec fn ini_apply_part12(c: ConfigModel, section: Seq<char>, key: Seq<char>, v: Seq<char>) -> ConfigModel {
    ConfigModel {
        web_launch_auto_paste: if names_entry(section, key, "game"@, "web_launch_auto_paste"@) {
            ini_bool(v, default_config().web_launch_auto_paste)
        } else {
            c.web_launch_auto_paste
        },
        close_behavior: if names_entry(section, key, "general"@, "close_behavior"@) {
            ini_close_behavior(v)
        } else {
            c.close_behavior
        },
        ..c
    }
}

/// Part 13 of [`ini_apply`].
spec fn ini_apply_part13(c: ConfigModel, section: Seq<char>, key: Seq<char>, v: Seq<char>) -> ConfigModel {
    ConfigModel {
        hide_account_names: if names_entry(section, key, "general"@, "hide_account_names"@) {
            ini_bool(v, default_config().hide_account_names)
        } else {
            c.hide_account_names
        },
        beanfun_rename_dismissed: if names_entry(section, key, "general"@, "beanfun_rename_dismissed"@) {
            ini_bool(v, default_config().beanfun_rename_dismissed)
        } else {
            c.beanfun_rename_dismissed
        },
        ..c
    }
}

/// Part 14 of [`ini_apply`].
spec fn ini_apply_part14(c: ConfigModel, section: Seq<char>, key: Seq<char>, v: Seq<char>) -> ConfigModel {
    ConfigModel {
        cafe_mode: if names_entry(section, key, "general"@, "cafe_mode"@) {
            ini_bool(v, default_config().cafe_mode)
        } else {
            c.cafe_mode
        },
        default_login_view: if names_entry(section, key, "general"@, "default_login_view"@) {
            ini_default_login_view(v)
        } else {
            c.default_login_view
        },
        ..c
    }
}

proof fn lemma_ini_apply_parts(c: ConfigModel, section: Seq<char>, key: Seq<char>, v: Seq<char>)
    ensures
        ini_apply(c, section, key, v) == ini_apply_part14(ini_apply_part13(ini_apply_part12(ini_apply_part11(ini_apply_part10(ini_apply_part9(ini_apply_part8(ini_apply_part7(ini_apply_part6(ini_apply_part5(ini_apply_part4(ini_apply_part3(ini_apply_part2(ini_apply_part1(c, section, key, v), section, key, v), section, key, v), section, key, v), section, key, v), section, key, v), section, key, v), section, key, v), section, key, v), section, key, v), section, key, v), section, key, v), section, key, v), section, key, v),
{
    reveal(ini_apply);
}


/// One line of the file, read with the current section: gives the new
/// configuration and the new current section.
///
/// Surrounding whitespace is ignored. Empty lines and lines starting with `#`
/// or `;` are comments. `[name]` opens section `name` (trimmed, lower-cased).
/// `key = value` splits at the first `=`; the key is trimmed and lower-cased,
/// the value trimmed; entries before any section are skipped. Any other line
/// is skipped.
#[verifier::opaque]
pub open spec fn ini_line(c: ConfigModel, section: Seq<char>, raw: Seq<char>) -> (ConfigModel, Seq<char>) {
    let t = trim(raw);
    if t.len() == 0 || t[0] == '#' || t[0] == ';' {
        (c, section)
    } else if t[0] == '[' && t.last() == ']' {
        (c, lower_text(trim(t.subrange(1, t.len() - 1))))
    } else {
        let k = find_char(t, '=');
        if k < t.len() {
            let key = lower_text(trim(t.subrange(0, k)));
            let value = trim(t.subrange(k + 1, t.len() as int));
            if section.len() == 0 {
                (c, section)
            } else {
                (ini_apply(c, section, key, value), section)
            }
        } else {
            (c, section)
        }
    }
}

/// Reads the lines of `s` (separated by `\n`) one after the other.
pub open spec fn ini_run(s: Seq<char>, section: Seq<char>, c: ConfigModel) -> ConfigModel
    decreases s.len(),
{
    let e = find_char(s, '\n');
    let next = ini_line(c, section, s.subrange(0, e));
    if 0 <= e < s.len() {
        ini_run(s.subrange(e + 1, s.len() as int), next.1, next.0)
    } else {
        next.0
    }
}

/// The configuration that an INI text describes: the defaults, changed by
/// each recognised entry in the order of the file (so a later entry for the
/// same key wins).
pub open spec fn ini_config(input: Seq<char>) -> ConfigModel {
    ini_run(input, Seq::empty(), default_config())
}

// ---------------------------------------------------------------------------
// Writing a whole file
// ---------------------------------------------------------------------------

pub open spec fn bool_text(b: bool) -> Seq<char> {
    if b {
        "true"@
    } else {
        "false"@
    }
}

pub open spec fn region_text(r: Region) -> Seq<char> {
    match r {
        Region::TW => "TW"@,
        Region::HK => "HK"@,
    }
}

pub open spec fn language_text(l: Language) -> Seq<char> {
    match l {
        Language::EnUS => "en-US"@,
        Language::ZhTW => "zh-TW"@,
        Language::ZhCN => "zh-CN"@,
    }
}

pub open spec fn theme_text(t: Theme) -> Seq<char> {
    match t {
        Theme::System => "system"@,
        Theme::Dark => "dark"@,
        Theme::Light => "light"@,
    }
}

pub open spec fn update_channel_text(u: UpdateChannel) -> Seq<char> {
    match u {
        UpdateChannel::Release => "release"@,
        UpdateChannel::PreRelease => "pre-release"@,
    }
}

pub open spec fn font_size_text(f: FontSize) -> Seq<char> {
    match f {
        FontSize::Small => "small"@,
        FontSize::Medium => "medium"@,
        FontSize::Large => "large"@,
        FontSize::ExtraLarge => "extra-large"@,
    }
}

pub open spec fn account_view_mode_text(m: AccountViewMode) -> Seq<char> {
    match m {
        AccountViewMode::Card => "card"@,
        AccountViewMode::List => "list"@,
    }
}

pub open spec fn close_behavior_text(b: CloseBehavior) -> Seq<char> {
    match b {
        CloseBehavior::Ask => "ask"@,
        CloseBehavior::Quit => "quit"@,
        CloseBehavior::Tray => "tray"@,
    }
}

pub open spec fn default_login_view_text(v: DefaultLoginView) -> Seq<char> {
    match v {
        DefaultLoginView::Normal => "normal"@,
        DefaultLoginView::Qr => "qr"@,
    }
}

/// A `key = value` line.
pub open spec fn kv_line(key: Seq<char>, value: Seq<char>) -> Seq<char> {
    key + " = "@ + value
}

/// The `[general]` block: its header, one line per setting, then an empty line.
pub open spec fn general_lines(c: ConfigModel) -> Seq<Seq<char>> {
    seq![
        "[general]"@,
        kv_line("region"@, region_text(c.region)),
        kv_line("language"@, language_text(c.language)),
        kv_line("auto_update"@, bool_text(c.auto_update)),
        kv_line("auto_start"@, bool_text(c.auto_start)),
        kv_line("debug_logging"@, bool_text(c.debug_logging)),
        kv_line("update_channel"@, update_channel_text(c.update_channel)),
        kv_line("gamepass_incognito"@, bool_text(c.gamepass_incognito)),
        kv_line("traditional_login"@, bool_text(c.traditional_login)),
        kv_line("auto_kill_patcher"@, bool_text(c.auto_kill_patcher)),
        kv_line("auto_login"@, bool_text(c.auto_login)),
        kv_line("auto_launch_game"@, bool_text(c.auto_launch_game)),
        kv_line("close_behavior"@, close_behavior_text(c.close_behavior)),
        kv_line("hide_account_names"@, bool_text(c.hide_account_names)),
        kv_line("beanfun_rename_dismissed"@, bool_text(c.beanfun_rename_dismissed)),
        kv_line("cafe_mode"@, bool_text(c.cafe_mode)),
        kv_line("default_login_view"@, default_login_view_text(c.default_login_view)),
        Seq::empty(),
    ]
}

/// The `[game]` block: its header, one line per setting, then an empty line.
pub open spec fn game_lines(c: ConfigModel) -> Seq<Seq<char>> {
    seq![
        "[game]"@,
        kv_line("path"@, c.game_path),
        kv_line("locale"@, c.locale),
        kv_line("skip_play_confirm"@, bool_text(c.skip_play_confirm)),
        kv_line("web_launch_auto_launch"@, bool_text(c.web_launch_auto_launch)),
        kv_line("web_launch_auto_paste"@, bool_text(c.web_launch_auto_paste)),
        Seq::empty(),
    ]
}

/// The `[appearance]` block: its header, one line per setting, then an empty line.
pub open spec fn appearance_lines(c: ConfigModel) -> Seq<Seq<char>> {
    seq![
        "[appearance]"@,
        kv_line("theme"@, theme_text(c.theme)),
        kv_line("font_size"@, font_size_text(c.font_size)),
        kv_line("account_view_mode"@, account_view_mode_text(c.account_view_mode)),
        Seq::empty(),
    ]
}

pub open spec fn opt_i32_line(key: Seq<char>, o: Option<i32>) -> Seq<Seq<char>> {
    match o {
        Some(n) => seq![kv_line(key, int_text(n as int))],
        None => Seq::empty(),
    }
}

pub open spec fn opt_u32_line(key: Seq<char>, o: Option<u32>) -> Seq<Seq<char>> {
    match o {
        Some(n) => seq![kv_line(key, int_text(n as int))],
        None => Seq::empty(),
    }
}

/// The `[window]` block: its header and a line for each position or size
/// that is set (unset ones are left out).
pub open spec fn window_lines(c: ConfigModel) -> Seq<Seq<char>> {
    seq!["[window]"@] + opt_i32_line("x"@, c.window_x) + opt_i32_line("y"@, c.window_y)
        + opt_u32_line("width"@, c.window_width) + opt_u32_line("height"@, c.window_height)
}

/// The lines of the INI text for a configuration.
pub open spec fn ini_lines(c: ConfigModel) -> Seq<Seq<char>> {
    general_lines(c) + game_lines(c) + appearance_lines(c) + window_lines(c)
}

/// Lines joined into one text, each followed by a newline.
pub open spec fn join_lines(lines: Seq<Seq<char>>) -> Seq<char>
    decreases lines.len(),
{
    if lines.len() == 0 {
        Seq::empty()
    } else {
        lines[0] + "\n"@ + join_lines(lines.drop_first())
    }
}

/// The INI text written for a configuration.
pub open spec fn ini_text(c: ConfigModel) -> Seq<char> {
    join_lines(ini_lines(c))
}

pub proof fn lemma_join_lines_push(lines: Seq<Seq<char>>, l: Seq<char>)
    ensures
        join_lines(lines.push(l)) == join_lines(lines) + l + "\n"@,
    decreases lines.len(),
{
    if lines.len() == 0 {
        assert(lines.push(l).drop_first() =~= lines);
        assert(join_lines(lines.push(l)) =~= join_lines(lines) + l + "\n"@);
    } else {
        lemma_join_lines_push(lines.drop_first(), l);
        assert(lines.push(l).drop_first() =~= lines.drop_first().push(l));
        assert(join_lines(lines.push(l)) =~= join_lines(lines) + l + "\n"@);
    }
}

// ---------------------------------------------------------------------------
// Serialization helpers
// ---------------------------------------------------------------------------

fn bool_to_str(b: bool) -> (s: &'static str)
    ensures
        s@ == bool_text(b),
{
    if b {
        "true"
    } else {
        "false"
    }
}

fn region_to_str(region: Region) -> (s: &'static str)
    ensures
        s@ == region_text(region),
{
    match region {
        Region::TW => "TW",
        Region::HK => "HK",
    }
}

fn language_to_str(lang: Language) -> (s: &'static str)
    ensures
        s@ == language_text(lang),
{
    match lang {
        Language::EnUS => "en-US",
        Language::ZhTW => "zh-TW",
        Language::ZhCN => "zh-CN",
    }
}

fn theme_to_str(theme: Theme) -> (s: &'static str)
    ensures
        s@ == theme_text(theme),
{
    match theme {
        Theme::System => "system",
        Theme::Dark => "dark",
        Theme::Light => "light",
    }
}

fn update_channel_to_str(channel: UpdateChannel) -> (s: &'static str)
    ensures
        s@ == update_channel_text(channel),
{
    match channel {
        UpdateChannel::Release => "release",
        UpdateChannel::PreRelease => "pre-release",
    }
}

fn font_size_to_str(size: FontSize) -> (s: &'static str)
    ensures
        s@ == font_size_text(size),
{
    match size {
        FontSize::Small => "small",
        FontSize::Medium => "medium",
        FontSize::Large => "large",
        FontSize::ExtraLarge => "extra-large",
    }
}

fn account_view_mode_to_str(mode: AccountViewMode) -> (s: &'static str)
    ensures
        s@ == account_view_mode_text(mode),
{
    match mode {
        AccountViewMode::Card => "card",
        AccountViewMode::List => "list",
    }
}

fn close_behavior_to_str(mode: CloseBehavior) -> (s: &'static str)
    ensures
        s@ == close_behavior_text(mode),
{
    match mode {
        CloseBehavior::Ask => "ask",
        CloseBehavior::Quit => "quit",
        CloseBehavior::Tray => "tray",
    }
}

fn default_login_view_to_str(view: DefaultLoginView) -> (s: &'static str)
    ensures
        s@ == default_login_view_text(view),
{
    match view {
        DefaultLoginView::Normal => "normal",
        DefaultLoginView::Qr => "qr",
    }
}

/// Writes a line holding `text`.
fn emit_text(out: &mut String, lines: Ghost<Seq<Seq<char>>>, text: &str) -> (r: Ghost<Seq<Seq<char>>>)
    requires
        old(out)@ == join_lines(lines@),
    ensures
        r@ == lines@.push(text@),
        final(out)@ == join_lines(r@),
{
    out.append(text);
    out.append("\n");
    proof {
        lemma_join_lines_push(lines@, text@);
    }
    Ghost(lines@.push(text@))
}

/// Writes a `key = value` line.
fn emit_kv(out: &mut String, lines: Ghost<Seq<Seq<char>>>, key: &str, value: &str) -> (r: Ghost<Seq<Seq<char>>>)
    requires
        old(out)@ == join_lines(lines@),
    ensures
        r@ == lines@.push(kv_line(key@, value@)),
        final(out)@ == join_lines(r@),
{
    out.append(key);
    out.append(" = ");
    out.append(value);
    out.append("\n");
    proof {
        lemma_join_lines_push(lines@, kv_line(key@, value@));
        assert(out@ =~= join_lines(lines@) + kv_line(key@, value@) + "\n"@);
    }
    Ghost(lines@.push(kv_line(key@, value@)))
}

/// Writes the first half of the `[general]` block.
#[verifier::spinoff_prover]
fn emit_general_head(out: &mut String, g: Ghost<Seq<Seq<char>>>, config: &AppConfig) -> (r: Ghost<Seq<Seq<char>>>)
    requires
        old(out)@ == join_lines(g@),
    ensures
        r@ == g@ + general_lines(config@).subrange(0, 9),
        final(out)@ == join_lines(r@),
{
    let ghost start = g@;
    let g = emit_text(out, g, "[general]");
    let g = emit_kv(out, g, "region", region_to_str(config.region));
    let g = emit_kv(out, g, "language", language_to_str(config.language));
    let g = emit_kv(out, g, "auto_update", bool_to_str(config.auto_update));
    let g = emit_kv(out, g, "auto_start", bool_to_str(config.auto_start));
    let g = emit_kv(out, g, "debug_logging", bool_to_str(config.debug_logging));
    let g = emit_kv(out, g, "update_channel", update_channel_to_str(config.update_channel));
    let g = emit_kv(out, g, "gamepass_incognito", bool_to_str(config.gamepass_incognito));
    let g = emit_kv(out, g, "traditional_login", bool_to_str(config.traditional_login));
    assert(g@ =~= start + general_lines(config@).subrange(0, 9));
    g
}

/// Writes the second half of the `[general]` block.
#[verifier::spinoff_prover]
fn emit_general_tail(out: &mut String, g: Ghost<Seq<Seq<char>>>, config: &AppConfig) -> (r: Ghost<Seq<Seq<char>>>)
    requires
        old(out)@ == join_lines(g@),
    ensures
        r@ == g@ + general_lines(config@).subrange(9, 18),
        final(out)@ == join_lines(r@),
{
    let ghost start = g@;
    let g = emit_kv(out, g, "auto_kill_patcher", bool_to_str(config.auto_kill_patcher));
    let g = emit_kv(out, g, "auto_login", bool_to_str(config.auto_login));
    let g = emit_kv(out, g, "auto_launch_game", bool_to_str(config.auto_launch_game));
    let g = emit_kv(out, g, "close_behavior", close_behavior_to_str(config.close_behavior));
    let g = emit_kv(out, g, "hide_account_names", bool_to_str(config.hide_account_names));
    let g = emit_kv(out, g, "beanfun_rename_dismissed", bool_to_str(config.beanfun_rename_dismissed));
    let g = emit_kv(out, g, "cafe_mode", bool_to_str(config.cafe_mode));
    let g = emit_kv(out, g, "default_login_view", default_login_view_to_str(config.default_login_view));
    proof {
        reveal_strlit("");
        assert(""@ =~= Seq::<char>::empty());
    }
    let g = emit_text(out, g, "");
    assert(g@ =~= start + general_lines(config@).subrange(9, 18));
    g
}

/// Writes the `[general]` block.
fn emit_general(out: &mut String, g: Ghost<Seq<Seq<char>>>, config: &AppConfig) -> (r: Ghost<Seq<Seq<char>>>)
    requires
        old(out)@ == join_lines(g@),
    ensures
        r@ == g@ + general_lines(config@),
        final(out)@ == join_lines(r@),
{
    let ghost start = g@;
    let g = emit_general_head(out, g, config);
    let g = emit_general_tail(out, g, config);
    assert(general_lines(config@) =~= general_lines(config@).subrange(0, 9) + general_lines(config@).subrange(9, 18));
    assert(g@ =~= start + general_lines(config@));
    g
}

/// Writes the `[game]` block.
#[verifier::spinoff_prover]
fn emit_game(out: &mut String, g: Ghost<Seq<Seq<char>>>, config: &AppConfig) -> (r: Ghost<Seq<Seq<char>>>)
    requires
        old(out)@ == join_lines(g@),
    ensures
        r@ == g@ + game_lines(config@),
        final(out)@ == join_lines(r@),
{
    let ghost start = g@;
    let g = emit_text(out, g, "[game]");
    let g = emit_kv(out, g, "path", config.game_path.as_str());
    let g = emit_kv(out, g, "locale", config.locale.as_str());
    let g = emit_kv(out, g, "skip_play_confirm", bool_to_str(config.skip_play_confirm));
    let g = emit_kv(out, g, "web_launch_auto_launch", bool_to_str(config.web_launch_auto_launch));
    let g = emit_kv(out, g, "web_launch_auto_paste", bool_to_str(config.web_launch_auto_paste));
    proof {
        reveal_strlit("");
        assert(""@ =~= Seq::<char>::empty());
    }
    let g = emit_text(out, g, "");
    assert(g@ =~= start + game_lines(config@));
    g
}

/// Writes the `[appearance]` block.
#[verifier::spinoff_prover]
fn emit_appearance(out: &mut String, g: Ghost<Seq<Seq<char>>>, config: &AppConfig) -> (r: Ghost<Seq<Seq<char>>>)
    requires
        old(out)@ == join_lines(g@),
    ensures
        r@ == g@ + appearance_lines(config@),
        final(out)@ == join_lines(r@),
{
    let ghost start = g@;
    let g = emit_text(out, g, "[appearance]");
    let g = emit_kv(out, g, "theme", theme_to_str(config.theme));
    let g = emit_kv(out, g, "font_size", font_size_to_str(config.font_size));
    let g = emit_kv(out, g, "account_view_mode", account_view_mode_to_str(config.account_view_mode));
    proof {
        reveal_strlit("");
        assert(""@ =~= Seq::<char>::empty());
    }
    let g = emit_text(out, g, "");
    assert(g@ =~= start + appearance_lines(config@));
    g
}

/// Writes the `[window]` block.
#[verifier::spinoff_prover]
fn emit_window(out: &mut String, g: Ghost<Seq<Seq<char>>>, config: &AppConfig) -> (r: Ghost<Seq<Seq<char>>>)
    requires
        old(out)@ == join_lines(g@),
    ensures
        r@ == g@ + window_lines(config@),
        final(out)@ == join_lines(r@),
{
    let ghost c = config@;
    let ghost start = g@;
    let g = emit_text(out, g, "[window]");
    let g = match config.window_x {
        Some(x) => emit_kv(out, g, "x", crate::decimal::i32_text(x).as_str()),
        None => g,
    };
    assert(g@ =~= start + seq!["[window]"@] + opt_i32_line("x"@, c.window_x));
    let g = match config.window_y {
        Some(y) => emit_kv(out, g, "y", crate::decimal::i32_text(y).as_str()),
        None => g,
    };
    assert(g@ =~= start + seq!["[window]"@] + opt_i32_line("x"@, c.window_x) + opt_i32_line("y"@, c.window_y));
    let g = match config.window_width {
        Some(w) => emit_kv(out, g, "width", crate::decimal::u32_text(w).as_str()),
        None => g,
    };
    assert(g@ =~= start + seq!["[window]"@] + opt_i32_line("x"@, c.window_x) + opt_i32_line("y"@, c.window_y)
        + opt_u32_line("width"@, c.window_width));
    let g = match config.window_height {
        Some(h) => emit_kv(out, g, "height", crate::decimal::u32_text(h).as_str()),
        None => g,
    };
    assert(g@ =~= start + window_lines(c));
    g
}

/// Serialize an [`AppConfig`] into a pretty-printed INI string.
pub fn serialize_ini(config: &AppConfig) -> (r: String)
    ensures
        r@ == ini_text(config@),
{
    let mut out = String::new();
    let g: Ghost<Seq<Seq<char>>> = Ghost(Seq::empty());
    let g = emit_general(&mut out, g, config);
    let g = emit_game(&mut out, g, config);
    let g = emit_appearance(&mut out, g, config);
    let g = emit_window(&mut out, g, config);
    assert(g@ =~= ini_lines(config@));
    out
}

// ---------------------------------------------------------------------------
// Parsing helpers
// ---------------------------------------------------------------------------

fn parse_bool(value: &str, default: bool) -> (r: bool)
    ensures
        r == ini_bool(value@, default),
{
    reveal(ini_bool);
    let l = to_lower(value);
    if eq_lit(&l, "true") || eq_lit(&l, "1") || eq_lit(&l, "yes") {
        true
    } else if eq_lit(&l, "false") || eq_lit(&l, "0") || eq_lit(&l, "no") {
        false
    } else {
        default
    }
}

fn parse_region(value: &str) -> (r: Region)
    ensures
        r == ini_region(value@),
{
    reveal(ini_region);
    let u = to_upper(value);
    if eq_lit(&u, "TW") {
        Region::TW
    } else if eq_lit(&u, "HK") {
        Region::HK
    } else {
        AppConfig::default().region
    }
}

fn parse_language(value: &str) -> (r: Language)
    ensures
        r == ini_language(value@),
{
    reveal(ini_language);
    let v: String = value.to_owned();
    if eq_lit(&v, "en-US") {
        Language::EnUS
    } else if eq_lit(&v, "zh-TW") {
        Language::ZhTW
    } else if eq_lit(&v, "zh-CN") {
        Language::ZhCN
    } else {
        AppConfig::default().language
    }
}

fn parse_theme(value: &str) -> (r: Theme)
    ensures
        r == ini_theme(value@),
{
    reveal(ini_theme);
    let l = to_lower(value);
    if eq_lit(&l, "system") {
        Theme::System
    } else if eq_lit(&l, "dark") {
        Theme::Dark
    } else if eq_lit(&l, "light") {
        Theme::Light
    } else {
        AppConfig::default().theme
    }
}

fn parse_update_channel(value: &str) -> (r: UpdateChannel)
    ensures
        r == ini_update_channel(value@),
{
    reveal(ini_update_channel);
    let l = to_lower(value);
    let l = crate::text::replace_in(&l, '_', '-');
    if eq_lit(&l, "release") {
        UpdateChannel::Release
    } else if eq_lit(&l, "pre-release") || eq_lit(&l, "prerelease") {
        UpdateChannel::PreRelease
    } else {
        AppConfig::default().update_channel
    }
}

fn parse_font_size(value: &str) -> (r: FontSize)
    ensures
        r == ini_font_size(value@),
{
    reveal(ini_font_size);
    let l = to_lower(value);
    if eq_lit(&l, "small") {
        FontSize::Small
    } else if eq_lit(&l, "medium") {
        FontSize::Medium
    } else if eq_lit(&l, "large") {
        FontSize::Large
    } else if eq_lit(&l, "extra-large") {
        FontSize::ExtraLarge
    } else {
        FontSize::Medium
    }
}

fn parse_optional_i32(value: &str) -> (r: Option<i32>)
    ensures
        r == parse_i32_spec(value@),
{
    parse_i32(value)
}

fn parse_optional_u32(value: &str) -> (r: Option<u32>)
    ensures
        r == parse_u32_spec(value@),
{
    parse_u32(value)
}

fn parse_account_view_mode(value: &str) -> (r: AccountViewMode)
    ensures
        r == ini_account_view_mode(value@),
{
    reveal(ini_account_view_mode);
    let l = to_lower(value);
    if eq_lit(&l, "list") {
        AccountViewMode::List
    } else if eq_lit(&l, "card") {
        AccountViewMode::Card
    } else {
        AccountViewMode::Card
    }
}

fn parse_close_behavior(value: &str) -> (r: CloseBehavior)
    ensures
        r == ini_close_behavior(value@),
{
    reveal(ini_close_behavior);
    let l = to_lower(value);
    if eq_lit(&l, "quit") {
        CloseBehavior::Quit
    } else if eq_lit(&l, "tray") {
        CloseBehavior::Tray
    } else {
        CloseBehavior::Ask
    }
}

fn parse_default_login_view(value: &str) -> (r: DefaultLoginView)
    ensures
        r == ini_default_login_view(value@),
{
    reveal(ini_default_login_view);
    let l = to_lower(value);
    if eq_lit(&l, "normal") {
        DefaultLoginView::Normal
    } else if eq_lit(&l, "qr") {
        DefaultLoginView::Qr
    } else {
        DefaultLoginView::Normal
    }
}

// ---------------------------------------------------------------------------
// Applying entries
// ---------------------------------------------------------------------------

/// Whether `section` and `key` name entry `k` of section `s`.
fn is_entry(section: &String, key: &String, s: &str, k: &str) -> (r: bool)
    ensures
        r == names_entry(section@, key@, s@, k@),
{
    reveal(names_entry);
    eq_lit(section, s) && eq_lit(key, k)
}

/// `new` when `cond` holds, else `cur`.
fn pick<T>(cond: bool, new: T, cur: T) -> (r: T)
    ensures
        r == (if cond {
            new
        } else {
            cur
        }),
{
    if cond {
        new
    } else {
        cur
    }
}

#[verifier::spinoff_prover]
fn apply_part1(
    config: &mut AppConfig,
    defaults: &AppConfig,
    section: &String,
    key: &String,
    value: &String,
)
    requires
        defaults@ == default_config(),
    ensures
        final(config)@ == ini_apply_part1(old(config)@, section@, key@, value@),
{
    let game_path = pick(is_entry(section, key, "game", "path"), value.clone(), config.game_path.clone());
    let locale = pick(is_entry(section, key, "game", "locale"), value.clone(), config.locale.clone());
    config.game_path = game_path;
    config.locale = locale;
}

#[verifier::spinoff_prover]
fn apply_part2(
    config: &mut AppConfig,
    defaults: &AppConfig,
    section: &String,
    key: &String,
    value: &String,
)
    requires
        defaults@ == default_config(),
    ensures
        final(config)@ == ini_apply_part2(old(config)@, section@, key@, value@),
{
    let theme = pick(is_entry(section, key, "appearance", "theme"), parse_theme(value.as_str()), config.theme);
    let language = pick(is_entry(section, key, "general", "language"), parse_language(value.as_str()), config.language);
    config.theme = theme;
    config.language = language;
}

#[verifier::spinoff_prover]
fn apply_part3(
    config: &mut AppConfig,
    defaults: &AppConfig,
    section: &String,
    key: &String,
    value: &String,
)
    requires
        defaults@ == default_config(),
    ensures
        final(config)@ == ini_apply_part3(old(config)@, section@, key@, value@),
{
    let auto_update = pick(is_entry(section, key, "general", "auto_update"), parse_bool(value.as_str(), defaults.auto_update), config.auto_update);
    let update_channel = pick(is_entry(section, key, "general", "update_channel"), parse_update_channel(value.as_str()), config.update_channel);
    config.auto_update = auto_update;
    config.update_channel = update_channel;
}

#[verifier::spinoff_prover]
fn apply_part4(
    config: &mut AppConfig,
    defaults: &AppConfig,
    section: &String,
    key: &String,
    value: &String,
)
    requires
        defaults@ == default_config(),
    ensures
        final(config)@ == ini_apply_part4(old(config)@, section@, key@, value@),
{
    let skip_play_confirm = pick(is_entry(section, key, "game", "skip_play_confirm"), parse_bool(value.as_str(), defaults.skip_play_confirm), config.skip_play_confirm);
    let auto_start = pick(is_entry(section, key, "general", "auto_start"), parse_bool(value.as_str(), defaults.auto_start), config.auto_start);
    config.skip_play_confirm = skip_play_confirm;
    config.auto_start = auto_start;
}

#[verifier::spinoff_prover]
fn apply_part5(
    config: &mut AppConfig,
    defaults: &AppConfig,
    section: &String,
    key: &String,
    value: &String,
)
    requires
        defaults@ == default_config(),
    ensures
        final(config)@ == ini_apply_part5(old(config)@, section@, key@, value@),
{
    let window_x = pick(is_entry(section, key, "window", "x"), parse_optional_i32(value.as_str()), config.window_x);
    let window_y = pick(is_entry(section, key, "window", "y"), parse_optional_i32(value.as_str()), config.window_y);
    config.window_x = window_x;
    config.window_y = window_y;
}

#[verifier::spinoff_prover]
fn apply_part6(
    config: &mut AppConfig,
    defaults: &AppConfig,
    section: &String,
    key: &String,
    value: &String,
)
    requires
        defaults@ == default_config(),
    ensures
        final(config)@ == ini_apply_part6(old(config)@, section@, key@, value@),
{
    let window_width = pick(is_entry(section, key, "window", "width"), parse_optional_u32(value.as_str()), config.window_width);
    let window_height = pick(is_entry(section, key, "window", "height"), parse_optional_u32(value.as_str()), config.window_height);
    config.window_width = window_width;
    config.window_height = window_height;
}

#[verifier::spinoff_prover]
fn apply_part7(
    config: &mut AppConfig,
    defaults: &AppConfig,
    section: &String,
    key: &String,
    value: &String,
)
    requires
        defaults@ == default_config(),
    ensures
        final(config)@ == ini_apply_part7(old(config)@, section@, key@, value@),
{
    let region = pick(is_entry(section, key, "general", "region"), parse_region(value.as_str()), config.region);
    let debug_logging = pick(is_entry(section, key, "general", "debug_logging"), parse_bool(value.as_str(), defaults.debug_logging), config.debug_logging);
    config.region = region;
    config.debug_logging = debug_logging;
}

#[verifier::spinoff_prover]
fn apply_part8(
    config: &mut AppConfig,
    defaults: &AppConfig,
    section: &String,
    key: &String,
    value: &String,
)
    requires
        defaults@ == default_config(),
    ensures
        final(config)@ == ini_apply_part8(old(config)@, section@, key@, value@),
{
    let gamepass_incognito = pick(is_entry(section, key, "general", "gamepass_incognito"), parse_bool(value.as_str(), defaults.gamepass_incognito), config.gamepass_incognito);
    let font_size = pick(is_entry(section, key, "appearance", "font_size"), parse_font_size(value.as_str()), config.font_size);
    config.gamepass_incognito = gamepass_incognito;
    config.font_size = font_size;
}

#[verifier::spinoff_prover]
fn apply_part9(
    config: &mut AppConfig,
    defaults: &AppConfig,
    section: &String,
    key: &String,
    value: &String,
)
    requires
        defaults@ == default_config(),
    ensures
        final(config)@ == ini_apply_part9(old(config)@, section@, key@, value@),
{
    let traditional_login = pick(is_entry(section, key, "general", "traditional_login"), parse_bool(value.as_str(), defaults.traditional_login), config.traditional_login);
    let auto_kill_patcher = pick(is_entry(section, key, "general", "auto_kill_patcher"), parse_bool(value.as_str(), defaults.auto_kill_patcher), config.auto_kill_patcher);
    config.traditional_login = traditional_login;
    config.auto_kill_patcher = auto_kill_patcher;
}

#[verifier::spinoff_prover]
fn apply_part10(
    config: &mut AppConfig,
    defaults: &AppConfig,
    section: &String,
    key: &String,
    value: &String,
)
    requires
        defaults@ == default_config(),
    ensures
        final(config)@ == ini_apply_part10(old(config)@, section@, key@, value@),
{
    let account_view_mode = pick(is_entry(section, key, "appearance", "account_view_mode"), parse_account_view_mode(value.as_str()), config.account_view_mode);
    let auto_login = pick(is_entry(section, key, "general", "auto_login"), parse_bool(value.as_str(), defaults.auto_login), config.auto_login);
    config.account_view_mode = account_view_mode;
    config.auto_login = auto_login;
}

#[verifier::spinoff_prover]
fn apply_part11(
    config: &mut AppConfig,
    defaults: &AppConfig,
    section: &String,
    key: &String,
    value: &String,
)
    requires
        defaults@ == default_config(),
    ensures
        final(config)@ == ini_apply_part11(old(config)@, section@, key@, value@),
{
    let auto_launch_game = pick(is_entry(section, key, "general", "auto_launch_game"), parse_bool(value.as_str(), defaults.auto_launch_game), config.auto_launch_game);
    let web_launch_auto_launch = pick(is_entry(section, key, "game", "web_launch_auto_launch"), parse_bool(value.as_str(), defaults.web_launch_auto_launch), config.web_launch_auto_launch);
    config.auto_launch_game = auto_launch_game;
    config.web_launch_auto_launch = web_launch_auto_launch;
}

#[verifier::spinoff_prover]
fn apply_part12(
    config: &mut AppConfig,
    defaults: &AppConfig,
    section: &String,
    key: &String,
    value: &String,
)
    requires
        defaults@ == default_config(),
    ensures
        final(config)@ == ini_apply_part12(old(config)@, section@, key@, value@),
{
    let web_launch_auto_paste = pick(is_entry(section, key, "game", "web_launch_auto_paste"), parse_bool(value.as_str(), defaults.web_launch_auto_paste), config.web_launch_auto_paste);
    let close_behavior = pick(is_entry(section, key, "general", "close_behavior"), parse_close_behavior(value.as_str()), config.close_behavior);
    config.web_launch_auto_paste = web_launch_auto_paste;
    config.close_behavior = close_behavior;
}

#[verifier::spinoff_prover]
fn apply_part13(
    config: &mut AppConfig,
    defaults: &AppConfig,
    section: &String,
    key: &String,
    value: &String,
)
    requires
        defaults@ == default_config(),
    ensures
        final(config)@ == ini_apply_part13(old(config)@, section@, key@, value@),
{
    let hide_account_names = pick(is_entry(section, key, "general", "hide_account_names"), parse_bool(value.as_str(), defaults.hide_account_names), config.hide_account_names);
    let beanfun_rename_dismissed = pick(is_entry(section, key, "general", "beanfun_rename_dismissed"), parse_bool(value.as_str(), defaults.beanfun_rename_dismissed), config.beanfun_rename_dismissed);
    config.hide_account_names = hide_account_names;
    config.beanfun_rename_dismissed = beanfun_rename_dismissed;
}

#[verifier::spinoff_prover]
fn apply_part14(
    config: &mut AppConfig,
    defaults: &AppConfig,
    section: &String,
    key: &String,
    value: &String,
)
    requires
        defaults@ == default_config(),
    ensures
        final(config)@ == ini_apply_part14(old(config)@, section@, key@, value@),
{
    let cafe_mode = pick(is_entry(section, key, "general", "cafe_mode"), parse_bool(value.as_str(), defaults.cafe_mode), config.cafe_mode);
    let default_login_view = pick(is_entry(section, key, "general", "default_login_view"), parse_default_login_view(value.as_str()), config.default_login_view);
    config.cafe_mode = cafe_mode;
    config.default_login_view = default_login_view;
}

fn apply_entry(
    config: &mut AppConfig,
    defaults: &AppConfig,
    section: &String,
    key: &String,
    value: &String,
)
    requires
        defaults@ == default_config(),
    ensures
        final(config)@ == ini_apply(old(config)@, section@, key@, value@),
{
    proof {
        lemma_ini_apply_parts(config@, section@, key@, value@);
    }
    apply_part1(config, defaults, section, key, value);
    apply_part2(config, defaults, section, key, value);
    apply_part3(config, defaults, section, key, value);
    apply_part4(config, defaults, section, key, value);
    apply_part5(config, defaults, section, key, value);
    apply_part6(config, defaults, section, key, value);
    apply_part7(config, defaults, section, key, value);
    apply_part8(config, defaults, section, key, value);
    apply_part9(config, defaults, section, key, value);
    apply_part10(config, defaults, section, key, value);
    apply_part11(config, defaults, section, key, value);
    apply_part12(config, defaults, section, key, value);
    apply_part13(config, defaults, section, key, value);
    apply_part14(config, defaults, section, key, value);
}

/// Reads the line `v[lo..hi]` into the configuration and current section.
fn read_line(
    v: &Vec<char>,
    lo: usize,
    hi: usize,
    config: &mut AppConfig,
    defaults: &AppConfig,
    section: &mut String,
)
    requires
        lo <= hi <= v.len(),
        defaults@ == default_config(),
    ensures
        (final(config)@, final(section)@) == ini_line(
            old(config)@,
            old(section)@,
            v@.subrange(lo as int, hi as int),
        ),
{
    reveal(ini_line);
    let (a, b) = trim_range(v, lo, hi);
    let ghost t = v@.subrange(a as int, b as int);
    if a == b {
        return;
    }
    let first = v[a];
    assert(t[0] == first);
    if first == '#' || first == ';' {
        return;
    }
    assert(t.last() == v@[b - 1]);
    if first == '[' && v[b - 1] == ']' {
        let (ia, ib) = trim_range(v, a + 1, b - 1);
        assert(t.subrange(1, t.len() - 1) =~= v@.subrange(a + 1, b - 1));
        let name = string_of_range(v, ia, ib);
        *section = to_lower(name.as_str());
        return;
    }
    let k = find_in_range(v, a, b, '=');
    if k == b {
        return;
    }
    assert(t.subrange(0, k - a) =~= v@.subrange(a as int, k as int));
    assert(t.subrange(k - a + 1, t.len() as int) =~= v@.subrange(k + 1, b as int));
    let (ka, kb) = trim_range(v, a, k);
    let raw_key = string_of_range(v, ka, kb);
    let key = to_lower(raw_key.as_str());
    let (va, vb) = trim_range(v, k + 1, b);
    let value = string_of_range(v, va, vb);
    if section.as_str().is_empty() {
        return;
    }
    apply_entry(config, defaults, section, &key, &value);
}

/// Parse an INI-style string into an [`AppConfig`].
///
/// Malformed or unrecognised entries are skipped, and the corresponding field
/// keeps its default value; reading never fails.
pub fn parse_ini(input: &str) -> (r: Result<AppConfig, ConfigError>)
    ensures
        r matches Ok(c) && c@ == ini_config(input@),
{
    let v = chars_of(input);
    let defaults = AppConfig::default();
    let mut config = AppConfig::default();
    let mut section = String::new();
    let mut pos: usize = 0;
    assert(v@.subrange(0, v@.len() as int) =~= v@);
    loop
        invariant_except_break
            pos <= v.len(),
            ini_run(v@.subrange(pos as int, v.len() as int), section@, config@) == ini_config(
                input@,
            ),
        invariant
            defaults@ == default_config(),
        ensures
            config@ == ini_config(input@),
        decreases v.len() - pos,
    {
        let ghost rest = v@.subrange(pos as int, v.len() as int);
        let e = find_in_range(&v, pos, v.len(), '\n');
        assert(rest.subrange(0, e - pos) =~= v@.subrange(pos as int, e as int));
        read_line(&v, pos, e, &mut config, &defaults, &mut section);
        if e == v.len() {
            break;
        }
        assert(rest.subrange(e - pos + 1, rest.len() as int) =~= v@.subrange(e + 1, v.len() as int));
        pos = e + 1;
    }
    Ok(config)
}

} // verus!
