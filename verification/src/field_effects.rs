//! What setting each key does: for every key and every value, the
//! configuration that a settings change gives, or the reason it is refused.

use vstd::prelude::*;
use crate::config::{
    AccountViewMode, CloseBehavior, ConfigModel, DefaultLoginView, FontSize, Language, Region,
    Theme, UpdateChannel, default_config,
};
use crate::config_field::{
    FieldChange, change_apply, close_behavior_value, decode_field, default_login_view_value,
    field_update, flag_value, font_size_value, language_value, optional_i32_value,
    optional_u32_value, region_value, theme_value, update_channel_value, is_reset,
    sets_game_path, sets_locale, new_theme, new_language, new_auto_update, new_update_channel,
    new_skip_play_confirm, new_auto_start, new_window_x, new_window_y, new_window_width,
    new_window_height, new_region, new_debug_logging, new_gamepass_incognito, new_font_size,
    new_traditional_login, new_auto_kill_patcher, new_account_view_mode, new_auto_login,
    new_auto_launch_game, new_web_launch_auto_launch, new_web_launch_auto_paste,
    new_close_behavior, new_hide_account_names, new_beanfun_rename_dismissed, new_cafe_mode,
    new_default_login_view,
};
use crate::config_parser::ini_account_view_mode;
use crate::decimal::{parse_i32_spec, parse_u32_spec};
use crate::text::{lower_text, remove_char, replace_char, upper_text};

verus! {

proof fn lemma_change_game_path(c: ConfigModel, v: Seq<char>)
    ensures
        change_apply(c, FieldChange::GamePath, v) == (ConfigModel { game_path: v, ..c }),
{
    reveal(is_reset);
    reveal(sets_game_path);
    reveal(sets_locale);
    reveal(new_theme);
    reveal(new_language);
    reveal(new_auto_update);
    reveal(new_update_channel);
    reveal(new_skip_play_confirm);
    reveal(new_auto_start);
    reveal(new_window_x);
    reveal(new_window_y);
    reveal(new_window_width);
    reveal(new_window_height);
    reveal(new_region);
    reveal(new_debug_logging);
    reveal(new_gamepass_incognito);
    reveal(new_font_size);
    reveal(new_traditional_login);
    reveal(new_auto_kill_patcher);
    reveal(new_account_view_mode);
    reveal(new_auto_login);
    reveal(new_auto_launch_game);
    reveal(new_web_launch_auto_launch);
    reveal(new_web_launch_auto_paste);
    reveal(new_close_behavior);
    reveal(new_hide_account_names);
    reveal(new_beanfun_rename_dismissed);
    reveal(new_cafe_mode);
    reveal(new_default_login_view);
}

proof fn lemma_change_locale(c: ConfigModel, v: Seq<char>)
    ensures
        change_apply(c, FieldChange::Locale, v) == (ConfigModel { locale: v, ..c }),
{
    reveal(is_reset);
    reveal(sets_game_path);
    reveal(sets_locale);
    reveal(new_theme);
    reveal(new_language);
    reveal(new_auto_update);
    reveal(new_update_channel);
    reveal(new_skip_play_confirm);
    reveal(new_auto_start);
    reveal(new_window_x);
    reveal(new_window_y);
    reveal(new_window_width);
    reveal(new_window_height);
    reveal(new_region);
    reveal(new_debug_logging);
    reveal(new_gamepass_incognito);
    reveal(new_font_size);
    reveal(new_traditional_login);
    reveal(new_auto_kill_patcher);
    reveal(new_account_view_mode);
    reveal(new_auto_login);
    reveal(new_auto_launch_game);
    reveal(new_web_launch_auto_launch);
    reveal(new_web_launch_auto_paste);
    reveal(new_close_behavior);
    reveal(new_hide_account_names);
    reveal(new_beanfun_rename_dismissed);
    reveal(new_cafe_mode);
    reveal(new_default_login_view);
}

proof fn lemma_change_theme(c: ConfigModel, x: Theme, v: Seq<char>)
    ensures
        change_apply(c, FieldChange::Theme(x), v) == (ConfigModel { theme: x, ..c }),
{
    reveal(is_reset);
    reveal(sets_game_path);
    reveal(sets_locale);
    reveal(new_theme);
    reveal(new_language);
    reveal(new_auto_update);
    reveal(new_update_channel);
    reveal(new_skip_play_confirm);
    reveal(new_auto_start);
    reveal(new_window_x);
    reveal(new_window_y);
    reveal(new_window_width);
    reveal(new_window_height);
    reveal(new_region);
    reveal(new_debug_logging);
    reveal(new_gamepass_incognito);
    reveal(new_font_size);
    reveal(new_traditional_login);
    reveal(new_auto_kill_patcher);
    reveal(new_account_view_mode);
    reveal(new_auto_login);
    reveal(new_auto_launch_game);
    reveal(new_web_launch_auto_launch);
    reveal(new_web_launch_auto_paste);
    reveal(new_close_behavior);
    reveal(new_hide_account_names);
    reveal(new_beanfun_rename_dismissed);
    reveal(new_cafe_mode);
    reveal(new_default_login_view);
}

proof fn lemma_change_language(c: ConfigModel, x: Language, v: Seq<char>)
    ensures
        change_apply(c, FieldChange::Language(x), v) == (ConfigModel { language: x, ..c }),
{
    reveal(is_reset);
    reveal(sets_game_path);
    reveal(sets_locale);
    reveal(new_theme);
    reveal(new_language);
    reveal(new_auto_update);
    reveal(new_update_channel);
    reveal(new_skip_play_confirm);
    reveal(new_auto_start);
    reveal(new_window_x);
    reveal(new_window_y);
    reveal(new_window_width);
    reveal(new_window_height);
    reveal(new_region);
    reveal(new_debug_logging);
    reveal(new_gamepass_incognito);
    reveal(new_font_size);
    reveal(new_traditional_login);
    reveal(new_auto_kill_patcher);
    reveal(new_account_view_mode);
    reveal(new_auto_login);
    reveal(new_auto_launch_game);
    reveal(new_web_launch_auto_launch);
    reveal(new_web_launch_auto_paste);
    reveal(new_close_behavior);
    reveal(new_hide_account_names);
    reveal(new_beanfun_rename_dismissed);
    reveal(new_cafe_mode);
    reveal(new_default_login_view);
}

proof fn lemma_change_auto_update(c: ConfigModel, x: bool, v: Seq<char>)
    ensures
        change_apply(c, FieldChange::AutoUpdate(x), v) == (ConfigModel { auto_update: x, ..c }),
{
    reveal(is_reset);
    reveal(sets_game_path);
    reveal(sets_locale);
    reveal(new_theme);
    reveal(new_language);
    reveal(new_auto_update);
    reveal(new_update_channel);
    reveal(new_skip_play_confirm);
    reveal(new_auto_start);
    reveal(new_window_x);
    reveal(new_window_y);
    reveal(new_window_width);
    reveal(new_window_height);
    reveal(new_region);
    reveal(new_debug_logging);
    reveal(new_gamepass_incognito);
    reveal(new_font_size);
    reveal(new_traditional_login);
    reveal(new_auto_kill_patcher);
    reveal(new_account_view_mode);
    reveal(new_auto_login);
    reveal(new_auto_launch_game);
    reveal(new_web_launch_auto_launch);
    reveal(new_web_launch_auto_paste);
    reveal(new_close_behavior);
    reveal(new_hide_account_names);
    reveal(new_beanfun_rename_dismissed);
    reveal(new_cafe_mode);
    reveal(new_default_login_view);
}

proof fn lemma_change_skip_play_confirm(c: ConfigModel, x: bool, v: Seq<char>)
    ensures
        change_apply(c, FieldChange::SkipPlayConfirm(x), v) == (ConfigModel { skip_play_confirm: x, ..c }),
{
    reveal(is_reset);
    reveal(sets_game_path);
    reveal(sets_locale);
    reveal(new_theme);
    reveal(new_language);
    reveal(new_auto_update);
    reveal(new_update_channel);
    reveal(new_skip_play_confirm);
    reveal(new_auto_start);
    reveal(new_window_x);
    reveal(new_window_y);
    reveal(new_window_width);
    reveal(new_window_height);
    reveal(new_region);
    reveal(new_debug_logging);
    reveal(new_gamepass_incognito);
    reveal(new_font_size);
    reveal(new_traditional_login);
    reveal(new_auto_kill_patcher);
    reveal(new_account_view_mode);
    reveal(new_auto_login);
    reveal(new_auto_launch_game);
    reveal(new_web_launch_auto_launch);
    reveal(new_web_launch_auto_paste);
    reveal(new_close_behavior);
    reveal(new_hide_account_names);
    reveal(new_beanfun_rename_dismissed);
    reveal(new_cafe_mode);
    reveal(new_default_login_view);
}

proof fn lemma_change_auto_start(c: ConfigModel, x: bool, v: Seq<char>)
    ensures
        change_apply(c, FieldChange::AutoStart(x), v) == (ConfigModel { auto_start: x, ..c }),
{
    reveal(is_reset);
    reveal(sets_game_path);
    reveal(sets_locale);
    reveal(new_theme);
    reveal(new_language);
    reveal(new_auto_update);
    reveal(new_update_channel);
    reveal(new_skip_play_confirm);
    reveal(new_auto_start);
    reveal(new_window_x);
    reveal(new_window_y);
    reveal(new_window_width);
    reveal(new_window_height);
    reveal(new_region);
    reveal(new_debug_logging);
    reveal(new_gamepass_incognito);
    reveal(new_font_size);
    reveal(new_traditional_login);
    reveal(new_auto_kill_patcher);
    reveal(new_account_view_mode);
    reveal(new_auto_login);
    reveal(new_auto_launch_game);
    reveal(new_web_launch_auto_launch);
    reveal(new_web_launch_auto_paste);
    reveal(new_close_behavior);
    reveal(new_hide_account_names);
    reveal(new_beanfun_rename_dismissed);
    reveal(new_cafe_mode);
    reveal(new_default_login_view);
}

proof fn lemma_change_region(c: ConfigModel, x: Region, v: Seq<char>)
    ensures
        change_apply(c, FieldChange::Region(x), v) == (ConfigModel { region: x, ..c }),
{
    reveal(is_reset);
    reveal(sets_game_path);
    reveal(sets_locale);
    reveal(new_theme);
    reveal(new_language);
    reveal(new_auto_update);
    reveal(new_update_channel);
    reveal(new_skip_play_confirm);
    reveal(new_auto_start);
    reveal(new_window_x);
    reveal(new_window_y);
    reveal(new_window_width);
    reveal(new_window_height);
    reveal(new_region);
    reveal(new_debug_logging);
    reveal(new_gamepass_incognito);
    reveal(new_font_size);
    reveal(new_traditional_login);
    reveal(new_auto_kill_patcher);
    reveal(new_account_view_mode);
    reveal(new_auto_login);
    reveal(new_auto_launch_game);
    reveal(new_web_launch_auto_launch);
    reveal(new_web_launch_auto_paste);
    reveal(new_close_behavior);
    reveal(new_hide_account_names);
    reveal(new_beanfun_rename_dismissed);
    reveal(new_cafe_mode);
    reveal(new_default_login_view);
}

proof fn lemma_change_debug_logging(c: ConfigModel, x: bool, v: Seq<char>)
    ensures
        change_apply(c, FieldChange::DebugLogging(x), v) == (ConfigModel { debug_logging: x, ..c }),
{
    reveal(is_reset);
    reveal(sets_game_path);
    reveal(sets_locale);
    reveal(new_theme);
    reveal(new_language);
    reveal(new_auto_update);
    reveal(new_update_channel);
    reveal(new_skip_play_confirm);
    reveal(new_auto_start);
    reveal(new_window_x);
    reveal(new_window_y);
    reveal(new_window_width);
    reveal(new_window_height);
    reveal(new_region);
    reveal(new_debug_logging);
    reveal(new_gamepass_incognito);
    reveal(new_font_size);
    reveal(new_traditional_login);
    reveal(new_auto_kill_patcher);
    reveal(new_account_view_mode);
    reveal(new_auto_login);
    reveal(new_auto_launch_game);
    reveal(new_web_launch_auto_launch);
    reveal(new_web_launch_auto_paste);
    reveal(new_close_behavior);
    reveal(new_hide_account_names);
    reveal(new_beanfun_rename_dismissed);
    reveal(new_cafe_mode);
    reveal(new_default_login_view);
}

proof fn lemma_change_gamepass_incognito(c: ConfigModel, x: bool, v: Seq<char>)
    ensures
        change_apply(c, FieldChange::GamepassIncognito(x), v) == (ConfigModel { gamepass_incognito: x, ..c }),
{
    reveal(is_reset);
    reveal(sets_game_path);
    reveal(sets_locale);
    reveal(new_theme);
    reveal(new_language);
    reveal(new_auto_update);
    reveal(new_update_channel);
    reveal(new_skip_play_confirm);
    reveal(new_auto_start);
    reveal(new_window_x);
    reveal(new_window_y);
    reveal(new_window_width);
    reveal(new_window_height);
    reveal(new_region);
    reveal(new_debug_logging);
    reveal(new_gamepass_incognito);
    reveal(new_font_size);
    reveal(new_traditional_login);
    reveal(new_auto_kill_patcher);
    reveal(new_account_view_mode);
    reveal(new_auto_login);
    reveal(new_auto_launch_game);
    reveal(new_web_launch_auto_launch);
    reveal(new_web_launch_auto_paste);
    reveal(new_close_behavior);
    reveal(new_hide_account_names);
    reveal(new_beanfun_rename_dismissed);
    reveal(new_cafe_mode);
    reveal(new_default_login_view);
}

proof fn lemma_change_traditional_login(c: ConfigModel, x: bool, v: Seq<char>)
    ensures
        change_apply(c, FieldChange::TraditionalLogin(x), v) == (ConfigModel { traditional_login: x, ..c }),
{
    reveal(is_reset);
    reveal(sets_game_path);
    reveal(sets_locale);
    reveal(new_theme);
    reveal(new_language);
    reveal(new_auto_update);
    reveal(new_update_channel);
    reveal(new_skip_play_confirm);
    reveal(new_auto_start);
    reveal(new_window_x);
    reveal(new_window_y);
    reveal(new_window_width);
    reveal(new_window_height);
    reveal(new_region);
    reveal(new_debug_logging);
    reveal(new_gamepass_incognito);
    reveal(new_font_size);
    reveal(new_traditional_login);
    reveal(new_auto_kill_patcher);
    reveal(new_account_view_mode);
    reveal(new_auto_login);
    reveal(new_auto_launch_game);
    reveal(new_web_launch_auto_launch);
    reveal(new_web_launch_auto_paste);
    reveal(new_close_behavior);
    reveal(new_hide_account_names);
    reveal(new_beanfun_rename_dismissed);
    reveal(new_cafe_mode);
    reveal(new_default_login_view);
}

proof fn lemma_change_auto_kill_patcher(c: ConfigModel, x: bool, v: Seq<char>)
    ensures
        change_apply(c, FieldChange::AutoKillPatcher(x), v) == (ConfigModel { auto_kill_patcher: x, ..c }),
{
    reveal(is_reset);
    reveal(sets_game_path);
    reveal(sets_locale);
    reveal(new_theme);
    reveal(new_language);
    reveal(new_auto_update);
    reveal(new_update_channel);
    reveal(new_skip_play_confirm);
    reveal(new_auto_start);
    reveal(new_window_x);
    reveal(new_window_y);
    reveal(new_window_width);
    reveal(new_window_height);
    reveal(new_region);
    reveal(new_debug_logging);
    reveal(new_gamepass_incognito);
    reveal(new_font_size);
    reveal(new_traditional_login);
    reveal(new_auto_kill_patcher);
    reveal(new_account_view_mode);
    reveal(new_auto_login);
    reveal(new_auto_launch_game);
    reveal(new_web_launch_auto_launch);
    reveal(new_web_launch_auto_paste);
    reveal(new_close_behavior);
    reveal(new_hide_account_names);
    reveal(new_beanfun_rename_dismissed);
    reveal(new_cafe_mode);
    reveal(new_default_login_view);
}

proof fn lemma_change_update_channel(c: ConfigModel, x: UpdateChannel, v: Seq<char>)
    ensures
        change_apply(c, FieldChange::UpdateChannel(x), v) == (ConfigModel { update_channel: x, ..c }),
{
    reveal(is_reset);
    reveal(sets_game_path);
    reveal(sets_locale);
    reveal(new_theme);
    reveal(new_language);
    reveal(new_auto_update);
    reveal(new_update_channel);
    reveal(new_skip_play_confirm);
    reveal(new_auto_start);
    reveal(new_window_x);
    reveal(new_window_y);
    reveal(new_window_width);
    reveal(new_window_height);
    reveal(new_region);
    reveal(new_debug_logging);
    reveal(new_gamepass_incognito);
    reveal(new_font_size);
    reveal(new_traditional_login);
    reveal(new_auto_kill_patcher);
    reveal(new_account_view_mode);
    reveal(new_auto_login);
    reveal(new_auto_launch_game);
    reveal(new_web_launch_auto_launch);
    reveal(new_web_launch_auto_paste);
    reveal(new_close_behavior);
    reveal(new_hide_account_names);
    reveal(new_beanfun_rename_dismissed);
    reveal(new_cafe_mode);
    reveal(new_default_login_view);
}

proof fn lemma_change_font_size(c: ConfigModel, x: FontSize, v: Seq<char>)
    ensures
        change_apply(c, FieldChange::FontSize(x), v) == (ConfigModel { font_size: x, ..c }),
{
    reveal(is_reset);
    reveal(sets_game_path);
    reveal(sets_locale);
    reveal(new_theme);
    reveal(new_language);
    reveal(new_auto_update);
    reveal(new_update_channel);
    reveal(new_skip_play_confirm);
    reveal(new_auto_start);
    reveal(new_window_x);
    reveal(new_window_y);
    reveal(new_window_width);
    reveal(new_window_height);
    reveal(new_region);
    reveal(new_debug_logging);
    reveal(new_gamepass_incognito);
    reveal(new_font_size);
    reveal(new_traditional_login);
    reveal(new_auto_kill_patcher);
    reveal(new_account_view_mode);
    reveal(new_auto_login);
    reveal(new_auto_launch_game);
    reveal(new_web_launch_auto_launch);
    reveal(new_web_launch_auto_paste);
    reveal(new_close_behavior);
    reveal(new_hide_account_names);
    reveal(new_beanfun_rename_dismissed);
    reveal(new_cafe_mode);
    reveal(new_default_login_view);
}

proof fn lemma_change_window_x(c: ConfigModel, x: Option<i32>, v: Seq<char>)
    ensures
        change_apply(c, FieldChange::WindowX(x), v) == (ConfigModel { window_x: x, ..c }),
{
    reveal(is_reset);
    reveal(sets_game_path);
    reveal(sets_locale);
    reveal(new_theme);
    reveal(new_language);
    reveal(new_auto_update);
    reveal(new_update_channel);
    reveal(new_skip_play_confirm);
    reveal(new_auto_start);
    reveal(new_window_x);
    reveal(new_window_y);
    reveal(new_window_width);
    reveal(new_window_height);
    reveal(new_region);
    reveal(new_debug_logging);
    reveal(new_gamepass_incognito);
    reveal(new_font_size);
    reveal(new_traditional_login);
    reveal(new_auto_kill_patcher);
    reveal(new_account_view_mode);
    reveal(new_auto_login);
    reveal(new_auto_launch_game);
    reveal(new_web_launch_auto_launch);
    reveal(new_web_launch_auto_paste);
    reveal(new_close_behavior);
    reveal(new_hide_account_names);
    reveal(new_beanfun_rename_dismissed);
    reveal(new_cafe_mode);
    reveal(new_default_login_view);
}

proof fn lemma_change_window_y(c: ConfigModel, x: Option<i32>, v: Seq<char>)
    ensures
        change_apply(c, FieldChange::WindowY(x), v) == (ConfigModel { window_y: x, ..c }),
{
    reveal(is_reset);
    reveal(sets_game_path);
    reveal(sets_locale);
    reveal(new_theme);
    reveal(new_language);
    reveal(new_auto_update);
    reveal(new_update_channel);
    reveal(new_skip_play_confirm);
    reveal(new_auto_start);
    reveal(new_window_x);
    reveal(new_window_y);
    reveal(new_window_width);
    reveal(new_window_height);
    reveal(new_region);
    reveal(new_debug_logging);
    reveal(new_gamepass_incognito);
    reveal(new_font_size);
    reveal(new_traditional_login);
    reveal(new_auto_kill_patcher);
    reveal(new_account_view_mode);
    reveal(new_auto_login);
    reveal(new_auto_launch_game);
    reveal(new_web_launch_auto_launch);
    reveal(new_web_launch_auto_paste);
    reveal(new_close_behavior);
    reveal(new_hide_account_names);
    reveal(new_beanfun_rename_dismissed);
    reveal(new_cafe_mode);
    reveal(new_default_login_view);
}

proof fn lemma_change_window_width(c: ConfigModel, x: Option<u32>, v: Seq<char>)
    ensures
        change_apply(c, FieldChange::WindowWidth(x), v) == (ConfigModel { window_width: x, ..c }),
{
    reveal(is_reset);
    reveal(sets_game_path);
    reveal(sets_locale);
    reveal(new_theme);
    reveal(new_language);
    reveal(new_auto_update);
    reveal(new_update_channel);
    reveal(new_skip_play_confirm);
    reveal(new_auto_start);
    reveal(new_window_x);
    reveal(new_window_y);
    reveal(new_window_width);
    reveal(new_window_height);
    reveal(new_region);
    reveal(new_debug_logging);
    reveal(new_gamepass_incognito);
    reveal(new_font_size);
    reveal(new_traditional_login);
    reveal(new_auto_kill_patcher);
    reveal(new_account_view_mode);
    reveal(new_auto_login);
    reveal(new_auto_launch_game);
    reveal(new_web_launch_auto_launch);
    reveal(new_web_launch_auto_paste);
    reveal(new_close_behavior);
    reveal(new_hide_account_names);
    reveal(new_beanfun_rename_dismissed);
    reveal(new_cafe_mode);
    reveal(new_default_login_view);
}

proof fn lemma_change_window_height(c: ConfigModel, x: Option<u32>, v: Seq<char>)
    ensures
        change_apply(c, FieldChange::WindowHeight(x), v) == (ConfigModel { window_height: x, ..c }),
{
    reveal(is_reset);
    reveal(sets_game_path);
    reveal(sets_locale);
    reveal(new_theme);
    reveal(new_language);
    reveal(new_auto_update);
    reveal(new_update_channel);
    reveal(new_skip_play_confirm);
    reveal(new_auto_start);
    reveal(new_window_x);
    reveal(new_window_y);
    reveal(new_window_width);
    reveal(new_window_height);
    reveal(new_region);
    reveal(new_debug_logging);
    reveal(new_gamepass_incognito);
    reveal(new_font_size);
    reveal(new_traditional_login);
    reveal(new_auto_kill_patcher);
    reveal(new_account_view_mode);
    reveal(new_auto_login);
    reveal(new_auto_launch_game);
    reveal(new_web_launch_auto_launch);
    reveal(new_web_launch_auto_paste);
    reveal(new_close_behavior);
    reveal(new_hide_account_names);
    reveal(new_beanfun_rename_dismissed);
    reveal(new_cafe_mode);
    reveal(new_default_login_view);
}

proof fn lemma_change_account_view_mode(c: ConfigModel, x: AccountViewMode, v: Seq<char>)
    ensures
        change_apply(c, FieldChange::AccountViewMode(x), v) == (ConfigModel { account_view_mode: x, ..c }),
{
    reveal(is_reset);
    reveal(sets_game_path);
    reveal(sets_locale);
    reveal(new_theme);
    reveal(new_language);
    reveal(new_auto_update);
    reveal(new_update_channel);
    reveal(new_skip_play_confirm);
    reveal(new_auto_start);
    reveal(new_window_x);
    reveal(new_window_y);
    reveal(new_window_width);
    reveal(new_window_height);
    reveal(new_region);
    reveal(new_debug_logging);
    reveal(new_gamepass_incognito);
    reveal(new_font_size);
    reveal(new_traditional_login);
    reveal(new_auto_kill_patcher);
    reveal(new_account_view_mode);
    reveal(new_auto_login);
    reveal(new_auto_launch_game);
    reveal(new_web_launch_auto_launch);
    reveal(new_web_launch_auto_paste);
    reveal(new_close_behavior);
    reveal(new_hide_account_names);
    reveal(new_beanfun_rename_dismissed);
    reveal(new_cafe_mode);
    reveal(new_default_login_view);
}

proof fn lemma_change_auto_login(c: ConfigModel, x: bool, v: Seq<char>)
    ensures
        change_apply(c, FieldChange::AutoLogin(x), v) == (ConfigModel { auto_login: x, ..c }),
{
    reveal(is_reset);
    reveal(sets_game_path);
    reveal(sets_locale);
    reveal(new_theme);
    reveal(new_language);
    reveal(new_auto_update);
    reveal(new_update_channel);
    reveal(new_skip_play_confirm);
    reveal(new_auto_start);
    reveal(new_window_x);
    reveal(new_window_y);
    reveal(new_window_width);
    reveal(new_window_height);
    reveal(new_region);
    reveal(new_debug_logging);
    reveal(new_gamepass_incognito);
    reveal(new_font_size);
    reveal(new_traditional_login);
    reveal(new_auto_kill_patcher);
    reveal(new_account_view_mode);
    reveal(new_auto_login);
    reveal(new_auto_launch_game);
    reveal(new_web_launch_auto_launch);
    reveal(new_web_launch_auto_paste);
    reveal(new_close_behavior);
    reveal(new_hide_account_names);
    reveal(new_beanfun_rename_dismissed);
    reveal(new_cafe_mode);
    reveal(new_default_login_view);
}

proof fn lemma_change_auto_launch_game(c: ConfigModel, x: bool, v: Seq<char>)
    ensures
        change_apply(c, FieldChange::AutoLaunchGame(x), v) == (ConfigModel { auto_launch_game: x, ..c }),
{
    reveal(is_reset);
    reveal(sets_game_path);
    reveal(sets_locale);
    reveal(new_theme);
    reveal(new_language);
    reveal(new_auto_update);
    reveal(new_update_channel);
    reveal(new_skip_play_confirm);
    reveal(new_auto_start);
    reveal(new_window_x);
    reveal(new_window_y);
    reveal(new_window_width);
    reveal(new_window_height);
    reveal(new_region);
    reveal(new_debug_logging);
    reveal(new_gamepass_incognito);
    reveal(new_font_size);
    reveal(new_traditional_login);
    reveal(new_auto_kill_patcher);
    reveal(new_account_view_mode);
    reveal(new_auto_login);
    reveal(new_auto_launch_game);
    reveal(new_web_launch_auto_launch);
    reveal(new_web_launch_auto_paste);
    reveal(new_close_behavior);
    reveal(new_hide_account_names);
    reveal(new_beanfun_rename_dismissed);
    reveal(new_cafe_mode);
    reveal(new_default_login_view);
}

proof fn lemma_change_web_launch_auto_launch(c: ConfigModel, x: bool, v: Seq<char>)
    ensures
        change_apply(c, FieldChange::WebLaunchAutoLaunch(x), v) == (ConfigModel { web_launch_auto_launch: x, ..c }),
{
    reveal(is_reset);
    reveal(sets_game_path);
    reveal(sets_locale);
    reveal(new_theme);
    reveal(new_language);
    reveal(new_auto_update);
    reveal(new_update_channel);
    reveal(new_skip_play_confirm);
    reveal(new_auto_start);
    reveal(new_window_x);
    reveal(new_window_y);
    reveal(new_window_width);
    reveal(new_window_height);
    reveal(new_region);
    reveal(new_debug_logging);
    reveal(new_gamepass_incognito);
    reveal(new_font_size);
    reveal(new_traditional_login);
    reveal(new_auto_kill_patcher);
    reveal(new_account_view_mode);
    reveal(new_auto_login);
    reveal(new_auto_launch_game);
    reveal(new_web_launch_auto_launch);
    reveal(new_web_launch_auto_paste);
    reveal(new_close_behavior);
    reveal(new_hide_account_names);
    reveal(new_beanfun_rename_dismissed);
    reveal(new_cafe_mode);
    reveal(new_default_login_view);
}

proof fn lemma_change_web_launch_auto_paste(c: ConfigModel, x: bool, v: Seq<char>)
    ensures
        change_apply(c, FieldChange::WebLaunchAutoPaste(x), v) == (ConfigModel { web_launch_auto_paste: x, ..c }),
{
    reveal(is_reset);
    reveal(sets_game_path);
    reveal(sets_locale);
    reveal(new_theme);
    reveal(new_language);
    reveal(new_auto_update);
    reveal(new_update_channel);
    reveal(new_skip_play_confirm);
    reveal(new_auto_start);
    reveal(new_window_x);
    reveal(new_window_y);
    reveal(new_window_width);
    reveal(new_window_height);
    reveal(new_region);
    reveal(new_debug_logging);
    reveal(new_gamepass_incognito);
    reveal(new_font_size);
    reveal(new_traditional_login);
    reveal(new_auto_kill_patcher);
    reveal(new_account_view_mode);
    reveal(new_auto_login);
    reveal(new_auto_launch_game);
    reveal(new_web_launch_auto_launch);
    reveal(new_web_launch_auto_paste);
    reveal(new_close_behavior);
    reveal(new_hide_account_names);
    reveal(new_beanfun_rename_dismissed);
    reveal(new_cafe_mode);
    reveal(new_default_login_view);
}

proof fn lemma_change_close_behavior(c: ConfigModel, x: CloseBehavior, v: Seq<char>)
    ensures
        change_apply(c, FieldChange::CloseBehavior(x), v) == (ConfigModel { close_behavior: x, ..c }),
{
    reveal(is_reset);
    reveal(sets_game_path);
    reveal(sets_locale);
    reveal(new_theme);
    reveal(new_language);
    reveal(new_auto_update);
    reveal(new_update_channel);
    reveal(new_skip_play_confirm);
    reveal(new_auto_start);
    reveal(new_window_x);
    reveal(new_window_y);
    reveal(new_window_width);
    reveal(new_window_height);
    reveal(new_region);
    reveal(new_debug_logging);
    reveal(new_gamepass_incognito);
    reveal(new_font_size);
    reveal(new_traditional_login);
    reveal(new_auto_kill_patcher);
    reveal(new_account_view_mode);
    reveal(new_auto_login);
    reveal(new_auto_launch_game);
    reveal(new_web_launch_auto_launch);
    reveal(new_web_launch_auto_paste);
    reveal(new_close_behavior);
    reveal(new_hide_account_names);
    reveal(new_beanfun_rename_dismissed);
    reveal(new_cafe_mode);
    reveal(new_default_login_view);
}

proof fn lemma_change_hide_account_names(c: ConfigModel, x: bool, v: Seq<char>)
    ensures
        change_apply(c, FieldChange::HideAccountNames(x), v) == (ConfigModel { hide_account_names: x, ..c }),
{
    reveal(is_reset);
    reveal(sets_game_path);
    reveal(sets_locale);
    reveal(new_theme);
    reveal(new_language);
    reveal(new_auto_update);
    reveal(new_update_channel);
    reveal(new_skip_play_confirm);
    reveal(new_auto_start);
    reveal(new_window_x);
    reveal(new_window_y);
    reveal(new_window_width);
    reveal(new_window_height);
    reveal(new_region);
    reveal(new_debug_logging);
    reveal(new_gamepass_incognito);
    reveal(new_font_size);
    reveal(new_traditional_login);
    reveal(new_auto_kill_patcher);
    reveal(new_account_view_mode);
    reveal(new_auto_login);
    reveal(new_auto_launch_game);
    reveal(new_web_launch_auto_launch);
    reveal(new_web_launch_auto_paste);
    reveal(new_close_behavior);
    reveal(new_hide_account_names);
    reveal(new_beanfun_rename_dismissed);
    reveal(new_cafe_mode);
    reveal(new_default_login_view);
}

proof fn lemma_change_beanfun_rename_dismissed(c: ConfigModel, x: bool, v: Seq<char>)
    ensures
        change_apply(c, FieldChange::BeanfunRenameDismissed(x), v) == (ConfigModel { beanfun_rename_dismissed: x, ..c }),
{
    reveal(is_reset);
    reveal(sets_game_path);
    reveal(sets_locale);
    reveal(new_theme);
    reveal(new_language);
    reveal(new_auto_update);
    reveal(new_update_channel);
    reveal(new_skip_play_confirm);
    reveal(new_auto_start);
    reveal(new_window_x);
    reveal(new_window_y);
    reveal(new_window_width);
    reveal(new_window_height);
    reveal(new_region);
    reveal(new_debug_logging);
    reveal(new_gamepass_incognito);
    reveal(new_font_size);
    reveal(new_traditional_login);
    reveal(new_auto_kill_patcher);
    reveal(new_account_view_mode);
    reveal(new_auto_login);
    reveal(new_auto_launch_game);
    reveal(new_web_launch_auto_launch);
    reveal(new_web_launch_auto_paste);
    reveal(new_close_behavior);
    reveal(new_hide_account_names);
    reveal(new_beanfun_rename_dismissed);
    reveal(new_cafe_mode);
    reveal(new_default_login_view);
}

proof fn lemma_change_cafe_mode(c: ConfigModel, x: bool, v: Seq<char>)
    ensures
        change_apply(c, FieldChange::CafeMode(x), v) == (ConfigModel { cafe_mode: x, ..c }),
{
    reveal(is_reset);
    reveal(sets_game_path);
    reveal(sets_locale);
    reveal(new_theme);
    reveal(new_language);
    reveal(new_auto_update);
    reveal(new_update_channel);
    reveal(new_skip_play_confirm);
    reveal(new_auto_start);
    reveal(new_window_x);
    reveal(new_window_y);
    reveal(new_window_width);
    reveal(new_window_height);
    reveal(new_region);
    reveal(new_debug_logging);
    reveal(new_gamepass_incognito);
    reveal(new_font_size);
    reveal(new_traditional_login);
    reveal(new_auto_kill_patcher);
    reveal(new_account_view_mode);
    reveal(new_auto_login);
    reveal(new_auto_launch_game);
    reveal(new_web_launch_auto_launch);
    reveal(new_web_launch_auto_paste);
    reveal(new_close_behavior);
    reveal(new_hide_account_names);
    reveal(new_beanfun_rename_dismissed);
    reveal(new_cafe_mode);
    reveal(new_default_login_view);
}

proof fn lemma_change_default_login_view(c: ConfigModel, x: DefaultLoginView, v: Seq<char>)
    ensures
        change_apply(c, FieldChange::DefaultLoginView(x), v) == (ConfigModel { default_login_view: x, ..c }),
{
    reveal(is_reset);
    reveal(sets_game_path);
    reveal(sets_locale);
    reveal(new_theme);
    reveal(new_language);
    reveal(new_auto_update);
    reveal(new_update_channel);
    reveal(new_skip_play_confirm);
    reveal(new_auto_start);
    reveal(new_window_x);
    reveal(new_window_y);
    reveal(new_window_width);
    reveal(new_window_height);
    reveal(new_region);
    reveal(new_debug_logging);
    reveal(new_gamepass_incognito);
    reveal(new_font_size);
    reveal(new_traditional_login);
    reveal(new_auto_kill_patcher);
    reveal(new_account_view_mode);
    reveal(new_auto_login);
    reveal(new_auto_launch_game);
    reveal(new_web_launch_auto_launch);
    reveal(new_web_launch_auto_paste);
    reveal(new_close_behavior);
    reveal(new_hide_account_names);
    reveal(new_beanfun_rename_dismissed);
    reveal(new_cafe_mode);
    reveal(new_default_login_view);
}

#[verifier::spinoff_prover]
proof fn lemma_decode_game_path(v: Seq<char>)
    ensures
        decode_field("game_path"@, v) == Ok::<FieldChange, Seq<char>>(FieldChange::GamePath),
{
    reveal_strlit("game_path");
    assert("game_path"@.len() == 9);
}

#[verifier::spinoff_prover]
proof fn lemma_decode_locale(v: Seq<char>)
    ensures
        decode_field("locale"@, v) == Ok::<FieldChange, Seq<char>>(FieldChange::Locale),
{
    reveal_strlit("game_path");
    assert("game_path"@.len() == 9);
    reveal_strlit("locale");
    assert("locale"@.len() == 6);
}

#[verifier::spinoff_prover]
proof fn lemma_decode_theme(v: Seq<char>)
    ensures
        decode_field("theme"@, v) == (match theme_value(v) {
            Ok(x) => Ok::<FieldChange, Seq<char>>(FieldChange::Theme(x)),
            Err(e) => Err(e),
        }),
{
    reveal_strlit("game_path");
    assert("game_path"@.len() == 9);
    reveal_strlit("locale");
    assert("locale"@.len() == 6);
    reveal_strlit("theme");
    assert("theme"@.len() == 5);
}

#[verifier::spinoff_prover]
proof fn lemma_decode_language(v: Seq<char>)
    ensures
        decode_field("language"@, v) == (match language_value(v) {
            Ok(x) => Ok::<FieldChange, Seq<char>>(FieldChange::Language(x)),
            Err(e) => Err(e),
        }),
{
    reveal_strlit("game_path");
    assert("game_path"@.len() == 9);
    reveal_strlit("locale");
    assert("locale"@.len() == 6);
    reveal_strlit("theme");
    assert("theme"@.len() == 5);
    reveal_strlit("language");
    assert("language"@.len() == 8);
}

#[verifier::spinoff_prover]
proof fn lemma_decode_auto_update(v: Seq<char>)
    ensures
        decode_field("auto_update"@, v) == (match flag_value(v) {
            Ok(x) => Ok::<FieldChange, Seq<char>>(FieldChange::AutoUpdate(x)),
            Err(e) => Err(e),
        }),
{
    reveal_strlit("game_path");
    assert("game_path"@.len() == 9);
    reveal_strlit("locale");
    assert("locale"@.len() == 6);
    reveal_strlit("theme");
    assert("theme"@.len() == 5);
    reveal_strlit("language");
    assert("language"@.len() == 8);
    reveal_strlit("auto_update");
    assert("auto_update"@.len() == 11);
}

#[verifier::spinoff_prover]
proof fn lemma_decode_skip_play_confirm(v: Seq<char>)
    ensures
        decode_field("skip_play_confirm"@, v) == (match flag_value(v) {
            Ok(x) => Ok::<FieldChange, Seq<char>>(FieldChange::SkipPlayConfirm(x)),
            Err(e) => Err(e),
        }),
{
    reveal_strlit("game_path");
    assert("game_path"@.len() == 9);
    reveal_strlit("locale");
    assert("locale"@.len() == 6);
    reveal_strlit("theme");
    assert("theme"@.len() == 5);
    reveal_strlit("language");
    assert("language"@.len() == 8);
    reveal_strlit("auto_update");
    assert("auto_update"@.len() == 11);
    reveal_strlit("skip_play_confirm");
    assert("skip_play_confirm"@.len() == 17);
}

#[verifier::spinoff_prover]
proof fn lemma_decode_auto_start(v: Seq<char>)
    ensures
        decode_field("auto_start"@, v) == (match flag_value(v) {
            Ok(x) => Ok::<FieldChange, Seq<char>>(FieldChange::AutoStart(x)),
            Err(e) => Err(e),
        }),
{
    reveal_strlit("game_path");
    assert("game_path"@.len() == 9);
    reveal_strlit("locale");
    assert("locale"@.len() == 6);
    reveal_strlit("theme");
    assert("theme"@.len() == 5);
    reveal_strlit("language");
    assert("language"@.len() == 8);
    reveal_strlit("auto_update");
    assert("auto_update"@.len() == 11);
    reveal_strlit("skip_play_confirm");
    assert("skip_play_confirm"@.len() == 17);
    reveal_strlit("auto_start");
    assert("auto_start"@.len() == 10);
}

#[verifier::spinoff_prover]
proof fn lemma_decode_region(v: Seq<char>)
    ensures
        decode_field("region"@, v) == (match region_value(v) {
            Ok(x) => Ok::<FieldChange, Seq<char>>(FieldChange::Region(x)),
            Err(e) => Err(e),
        }),
{
    reveal_strlit("game_path");
    assert("game_path"@.len() == 9);
    reveal_strlit("locale");
    assert("locale"@.len() == 6);
    reveal_strlit("theme");
    assert("theme"@.len() == 5);
    reveal_strlit("language");
    assert("language"@.len() == 8);
    reveal_strlit("auto_update");
    assert("auto_update"@.len() == 11);
    reveal_strlit("skip_play_confirm");
    assert("skip_play_confirm"@.len() == 17);
    reveal_strlit("auto_start");
    assert("auto_start"@.len() == 10);
    reveal_strlit("region");
    assert("region"@.len() == 6);
    assert("region"@[0] != "locale"@[0]);
}

#[verifier::spinoff_prover]
proof fn lemma_decode_debug_logging(v: Seq<char>)
    ensures
        decode_field("debug_logging"@, v) == (match flag_value(v) {
            Ok(x) => Ok::<FieldChange, Seq<char>>(FieldChange::DebugLogging(x)),
            Err(e) => Err(e),
        }),
{
    reveal_strlit("game_path");
    assert("game_path"@.len() == 9);
    reveal_strlit("locale");
    assert("locale"@.len() == 6);
    reveal_strlit("theme");
    assert("theme"@.len() == 5);
    reveal_strlit("language");
    assert("language"@.len() == 8);
    reveal_strlit("auto_update");
    assert("auto_update"@.len() == 11);
    reveal_strlit("skip_play_confirm");
    assert("skip_play_confirm"@.len() == 17);
    reveal_strlit("auto_start");
    assert("auto_start"@.len() == 10);
    reveal_strlit("region");
    assert("region"@.len() == 6);
    reveal_strlit("debug_logging");
    assert("debug_logging"@.len() == 13);
}

#[verifier::spinoff_prover]
proof fn lemma_decode_gamepass_incognito(v: Seq<char>)
    ensures
        decode_field("gamepass_incognito"@, v) == (match flag_value(v) {
            Ok(x) => Ok::<FieldChange, Seq<char>>(FieldChange::GamepassIncognito(x)),
            Err(e) => Err(e),
        }),
{
    reveal_strlit("game_path");
    assert("game_path"@.len() == 9);
    reveal_strlit("locale");
    assert("locale"@.len() == 6);
    reveal_strlit("theme");
    assert("theme"@.len() == 5);
    reveal_strlit("language");
    assert("language"@.len() == 8);
    reveal_strlit("auto_update");
    assert("auto_update"@.len() == 11);
    reveal_strlit("skip_play_confirm");
    assert("skip_play_confirm"@.len() == 17);
    reveal_strlit("auto_start");
    assert("auto_start"@.len() == 10);
    reveal_strlit("region");
    assert("region"@.len() == 6);
    reveal_strlit("debug_logging");
    assert("debug_logging"@.len() == 13);
    reveal_strlit("gamepass_incognito");
    assert("gamepass_incognito"@.len() == 18);
}

#[verifier::spinoff_prover]
proof fn lemma_decode_traditional_login(v: Seq<char>)
    ensures
        decode_field("traditional_login"@, v) == (match flag_value(v) {
            Ok(x) => Ok::<FieldChange, Seq<char>>(FieldChange::TraditionalLogin(x)),
            Err(e) => Err(e),
        }),
{
    reveal_strlit("game_path");
    assert("game_path"@.len() == 9);
    reveal_strlit("locale");
    assert("locale"@.len() == 6);
    reveal_strlit("theme");
    assert("theme"@.len() == 5);
    reveal_strlit("language");
    assert("language"@.len() == 8);
    reveal_strlit("auto_update");
    assert("auto_update"@.len() == 11);
    reveal_strlit("skip_play_confirm");
    assert("skip_play_confirm"@.len() == 17);
    reveal_strlit("auto_start");
    assert("auto_start"@.len() == 10);
    reveal_strlit("region");
    assert("region"@.len() == 6);
    reveal_strlit("debug_logging");
    assert("debug_logging"@.len() == 13);
    reveal_strlit("gamepass_incognito");
    assert("gamepass_incognito"@.len() == 18);
    reveal_strlit("traditional_login");
    assert("traditional_login"@.len() == 17);
    assert("traditional_login"@[0] != "skip_play_confirm"@[0]);
}

#[verifier::spinoff_prover]
proof fn lemma_decode_auto_kill_patcher(v: Seq<char>)
    ensures
        decode_field("auto_kill_patcher"@, v) == (match flag_value(v) {
            Ok(x) => Ok::<FieldChange, Seq<char>>(FieldChange::AutoKillPatcher(x)),
            Err(e) => Err(e),
        }),
{
    reveal_strlit("game_path");
    assert("game_path"@.len() == 9);
    reveal_strlit("locale");
    assert("locale"@.len() == 6);
    reveal_strlit("theme");
    assert("theme"@.len() == 5);
    reveal_strlit("language");
    assert("language"@.len() == 8);
    reveal_strlit("auto_update");
    assert("auto_update"@.len() == 11);
    reveal_strlit("skip_play_confirm");
    assert("skip_play_confirm"@.len() == 17);
    reveal_strlit("auto_start");
    assert("auto_start"@.len() == 10);
    reveal_strlit("region");
    assert("region"@.len() == 6);
    reveal_strlit("debug_logging");
    assert("debug_logging"@.len() == 13);
    reveal_strlit("gamepass_incognito");
    assert("gamepass_incognito"@.len() == 18);
    reveal_strlit("traditional_login");
    assert("traditional_login"@.len() == 17);
    reveal_strlit("auto_kill_patcher");
    assert("auto_kill_patcher"@.len() == 17);
    assert("auto_kill_patcher"@[0] != "skip_play_confirm"@[0]);
    assert("auto_kill_patcher"@[0] != "traditional_login"@[0]);
}

#[verifier::spinoff_prover]
proof fn lemma_decode_update_channel(v: Seq<char>)
    ensures
        decode_field("update_channel"@, v) == (match update_channel_value(v) {
            Ok(x) => Ok::<FieldChange, Seq<char>>(FieldChange::UpdateChannel(x)),
            Err(e) => Err(e),
        }),
{
    reveal_strlit("game_path");
    assert("game_path"@.len() == 9);
    reveal_strlit("locale");
    assert("locale"@.len() == 6);
    reveal_strlit("theme");
    assert("theme"@.len() == 5);
    reveal_strlit("language");
    assert("language"@.len() == 8);
    reveal_strlit("auto_update");
    assert("auto_update"@.len() == 11);
    reveal_strlit("skip_play_confirm");
    assert("skip_play_confirm"@.len() == 17);
    reveal_strlit("auto_start");
    assert("auto_start"@.len() == 10);
    reveal_strlit("region");
    assert("region"@.len() == 6);
    reveal_strlit("debug_logging");
    assert("debug_logging"@.len() == 13);
    reveal_strlit("gamepass_incognito");
    assert("gamepass_incognito"@.len() == 18);
    reveal_strlit("traditional_login");
    assert("traditional_login"@.len() == 17);
    reveal_strlit("auto_kill_patcher");
    assert("auto_kill_patcher"@.len() == 17);
    reveal_strlit("update_channel");
    assert("update_channel"@.len() == 14);
}

#[verifier::spinoff_prover]
proof fn lemma_decode_font_size(v: Seq<char>)
    ensures
        decode_field("font_size"@, v) == (match font_size_value(v) {
            Ok(x) => Ok::<FieldChange, Seq<char>>(FieldChange::FontSize(x)),
            Err(e) => Err(e),
        }),
{
    reveal_strlit("game_path");
    assert("game_path"@.len() == 9);
    reveal_strlit("locale");
    assert("locale"@.len() == 6);
    reveal_strlit("theme");
    assert("theme"@.len() == 5);
    reveal_strlit("language");
    assert("language"@.len() == 8);
    reveal_strlit("auto_update");
    assert("auto_update"@.len() == 11);
    reveal_strlit("skip_play_confirm");
    assert("skip_play_confirm"@.len() == 17);
    reveal_strlit("auto_start");
    assert("auto_start"@.len() == 10);
    reveal_strlit("region");
    assert("region"@.len() == 6);
    reveal_strlit("debug_logging");
    assert("debug_logging"@.len() == 13);
    reveal_strlit("gamepass_incognito");
    assert("gamepass_incognito"@.len() == 18);
    reveal_strlit("traditional_login");
    assert("traditional_login"@.len() == 17);
    reveal_strlit("auto_kill_patcher");
    assert("auto_kill_patcher"@.len() == 17);
    reveal_strlit("update_channel");
    assert("update_channel"@.len() == 14);
    reveal_strlit("font_size");
    assert("font_size"@.len() == 9);
    assert("font_size"@[0] != "game_path"@[0]);
}

#[verifier::spinoff_prover]
proof fn lemma_decode_window_x(v: Seq<char>)
    ensures
        decode_field("window_x"@, v) == (match optional_i32_value(v) {
            Ok(x) => Ok::<FieldChange, Seq<char>>(FieldChange::WindowX(x)),
            Err(e) => Err(e),
        }),
{
    reveal_strlit("game_path");
    assert("game_path"@.len() == 9);
    reveal_strlit("locale");
    assert("locale"@.len() == 6);
    reveal_strlit("theme");
    assert("theme"@.len() == 5);
    reveal_strlit("language");
    assert("language"@.len() == 8);
    reveal_strlit("auto_update");
    assert("auto_update"@.len() == 11);
    reveal_strlit("skip_play_confirm");
    assert("skip_play_confirm"@.len() == 17);
    reveal_strlit("auto_start");
    assert("auto_start"@.len() == 10);
    reveal_strlit("region");
    assert("region"@.len() == 6);
    reveal_strlit("debug_logging");
    assert("debug_logging"@.len() == 13);
    reveal_strlit("gamepass_incognito");
    assert("gamepass_incognito"@.len() == 18);
    reveal_strlit("traditional_login");
    assert("traditional_login"@.len() == 17);
    reveal_strlit("auto_kill_patcher");
    assert("auto_kill_patcher"@.len() == 17);
    reveal_strlit("update_channel");
    assert("update_channel"@.len() == 14);
    reveal_strlit("font_size");
    assert("font_size"@.len() == 9);
    reveal_strlit("window_x");
    assert("window_x"@.len() == 8);
    assert("window_x"@[0] != "language"@[0]);
}

#[verifier::spinoff_prover]
proof fn lemma_decode_window_y(v: Seq<char>)
    ensures
        decode_field("window_y"@, v) == (match optional_i32_value(v) {
            Ok(x) => Ok::<FieldChange, Seq<char>>(FieldChange::WindowY(x)),
            Err(e) => Err(e),
        }),
{
    reveal_strlit("game_path");
    assert("game_path"@.len() == 9);
    reveal_strlit("locale");
    assert("locale"@.len() == 6);
    reveal_strlit("theme");
    assert("theme"@.len() == 5);
    reveal_strlit("language");
    assert("language"@.len() == 8);
    reveal_strlit("auto_update");
    assert("auto_update"@.len() == 11);
    reveal_strlit("skip_play_confirm");
    assert("skip_play_confirm"@.len() == 17);
    reveal_strlit("auto_start");
    assert("auto_start"@.len() == 10);
    reveal_strlit("region");
    assert("region"@.len() == 6);
    reveal_strlit("debug_logging");
    assert("debug_logging"@.len() == 13);
    reveal_strlit("gamepass_incognito");
    assert("gamepass_incognito"@.len() == 18);
    reveal_strlit("traditional_login");
    assert("traditional_login"@.len() == 17);
    reveal_strlit("auto_kill_patcher");
    assert("auto_kill_patcher"@.len() == 17);
    reveal_strlit("update_channel");
    assert("update_channel"@.len() == 14);
    reveal_strlit("font_size");
    assert("font_size"@.len() == 9);
    reveal_strlit("window_x");
    assert("window_x"@.len() == 8);
    reveal_strlit("window_y");
    assert("window_y"@.len() == 8);
    assert("window_y"@[0] != "language"@[0]);
    assert("window_y"@[7] != "window_x"@[7]);
}

#[verifier::spinoff_prover]
proof fn lemma_decode_window_width(v: Seq<char>)
    ensures
        decode_field("window_width"@, v) == (match optional_u32_value(v) {
            Ok(x) => Ok::<FieldChange, Seq<char>>(FieldChange::WindowWidth(x)),
            Err(e) => Err(e),
        }),
{
    reveal_strlit("game_path");
    assert("game_path"@.len() == 9);
    reveal_strlit("locale");
    assert("locale"@.len() == 6);
    reveal_strlit("theme");
    assert("theme"@.len() == 5);
    reveal_strlit("language");
    assert("language"@.len() == 8);
    reveal_strlit("auto_update");
    assert("auto_update"@.len() == 11);
    reveal_strlit("skip_play_confirm");
    assert("skip_play_confirm"@.len() == 17);
    reveal_strlit("auto_start");
    assert("auto_start"@.len() == 10);
    reveal_strlit("region");
    assert("region"@.len() == 6);
    reveal_strlit("debug_logging");
    assert("debug_logging"@.len() == 13);
    reveal_strlit("gamepass_incognito");
    assert("gamepass_incognito"@.len() == 18);
    reveal_strlit("traditional_login");
    assert("traditional_login"@.len() == 17);
    reveal_strlit("auto_kill_patcher");
    assert("auto_kill_patcher"@.len() == 17);
    reveal_strlit("update_channel");
    assert("update_channel"@.len() == 14);
    reveal_strlit("font_size");
    assert("font_size"@.len() == 9);
    reveal_strlit("window_x");
    assert("window_x"@.len() == 8);
    reveal_strlit("window_y");
    assert("window_y"@.len() == 8);
    reveal_strlit("window_width");
    assert("window_width"@.len() == 12);
}

#[verifier::spinoff_prover]
proof fn lemma_decode_window_height(v: Seq<char>)
    ensures
        decode_field("window_height"@, v) == (match optional_u32_value(v) {
            Ok(x) => Ok::<FieldChange, Seq<char>>(FieldChange::WindowHeight(x)),
            Err(e) => Err(e),
        }),
{
    reveal_strlit("game_path");
    assert("game_path"@.len() == 9);
    reveal_strlit("locale");
    assert("locale"@.len() == 6);
    reveal_strlit("theme");
    assert("theme"@.len() == 5);
    reveal_strlit("language");
    assert("language"@.len() == 8);
    reveal_strlit("auto_update");
    assert("auto_update"@.len() == 11);
    reveal_strlit("skip_play_confirm");
    assert("skip_play_confirm"@.len() == 17);
    reveal_strlit("auto_start");
    assert("auto_start"@.len() == 10);
    reveal_strlit("region");
    assert("region"@.len() == 6);
    reveal_strlit("debug_logging");
    assert("debug_logging"@.len() == 13);
    reveal_strlit("gamepass_incognito");
    assert("gamepass_incognito"@.len() == 18);
    reveal_strlit("traditional_login");
    assert("traditional_login"@.len() == 17);
    reveal_strlit("auto_kill_patcher");
    assert("auto_kill_patcher"@.len() == 17);
    reveal_strlit("update_channel");
    assert("update_channel"@.len() == 14);
    reveal_strlit("font_size");
    assert("font_size"@.len() == 9);
    reveal_strlit("window_x");
    assert("window_x"@.len() == 8);
    reveal_strlit("window_y");
    assert("window_y"@.len() == 8);
    reveal_strlit("window_width");
    assert("window_width"@.len() == 12);
    reveal_strlit("window_height");
    assert("window_height"@.len() == 13);
    assert("window_height"@[0] != "debug_logging"@[0]);
}

#[verifier::spinoff_prover]
proof fn lemma_decode_account_view_mode(v: Seq<char>)
    ensures
        decode_field("account_view_mode"@, v) == Ok::<FieldChange, Seq<char>>(FieldChange::AccountViewMode(ini_account_view_mode(v))),
{
    reveal_strlit("game_path");
    assert("game_path"@.len() == 9);
    reveal_strlit("locale");
    assert("locale"@.len() == 6);
    reveal_strlit("theme");
    assert("theme"@.len() == 5);
    reveal_strlit("language");
    assert("language"@.len() == 8);
    reveal_strlit("auto_update");
    assert("auto_update"@.len() == 11);
    reveal_strlit("skip_play_confirm");
    assert("skip_play_confirm"@.len() == 17);
    reveal_strlit("auto_start");
    assert("auto_start"@.len() == 10);
    reveal_strlit("region");
    assert("region"@.len() == 6);
    reveal_strlit("debug_logging");
    assert("debug_logging"@.len() == 13);
    reveal_strlit("gamepass_incognito");
    assert("gamepass_incognito"@.len() == 18);
    reveal_strlit("traditional_login");
    assert("traditional_login"@.len() == 17);
    reveal_strlit("auto_kill_patcher");
    assert("auto_kill_patcher"@.len() == 17);
    reveal_strlit("update_channel");
    assert("update_channel"@.len() == 14);
    reveal_strlit("font_size");
    assert("font_size"@.len() == 9);
    reveal_strlit("window_x");
    assert("window_x"@.len() == 8);
    reveal_strlit("window_y");
    assert("window_y"@.len() == 8);
    reveal_strlit("window_width");
    assert("window_width"@.len() == 12);
    reveal_strlit("window_height");
    assert("window_height"@.len() == 13);
    reveal_strlit("accountViewMode");
    assert("accountViewMode"@.len() == 15);
    reveal_strlit("account_view_mode");
    assert("account_view_mode"@.len() == 17);
    assert("account_view_mode"@[0] != "skip_play_confirm"@[0]);
    assert("account_view_mode"@[0] != "traditional_login"@[0]);
    assert("account_view_mode"@[1] != "auto_kill_patcher"@[1]);
}

#[verifier::spinoff_prover]
proof fn lemma_decode_auto_login(v: Seq<char>)
    ensures
        decode_field("auto_login"@, v) == (match flag_value(v) {
            Ok(x) => Ok::<FieldChange, Seq<char>>(FieldChange::AutoLogin(x)),
            Err(e) => Err(e),
        }),
{
    reveal_strlit("game_path");
    assert("game_path"@.len() == 9);
    reveal_strlit("locale");
    assert("locale"@.len() == 6);
    reveal_strlit("theme");
    assert("theme"@.len() == 5);
    reveal_strlit("language");
    assert("language"@.len() == 8);
    reveal_strlit("auto_update");
    assert("auto_update"@.len() == 11);
    reveal_strlit("skip_play_confirm");
    assert("skip_play_confirm"@.len() == 17);
    reveal_strlit("auto_start");
    assert("auto_start"@.len() == 10);
    reveal_strlit("region");
    assert("region"@.len() == 6);
    reveal_strlit("debug_logging");
    assert("debug_logging"@.len() == 13);
    reveal_strlit("gamepass_incognito");
    assert("gamepass_incognito"@.len() == 18);
    reveal_strlit("traditional_login");
    assert("traditional_login"@.len() == 17);
    reveal_strlit("auto_kill_patcher");
    assert("auto_kill_patcher"@.len() == 17);
    reveal_strlit("update_channel");
    assert("update_channel"@.len() == 14);
    reveal_strlit("font_size");
    assert("font_size"@.len() == 9);
    reveal_strlit("window_x");
    assert("window_x"@.len() == 8);
    reveal_strlit("window_y");
    assert("window_y"@.len() == 8);
    reveal_strlit("window_width");
    assert("window_width"@.len() == 12);
    reveal_strlit("window_height");
    assert("window_height"@.len() == 13);
    reveal_strlit("accountViewMode");
    assert("accountViewMode"@.len() == 15);
    reveal_strlit("account_view_mode");
    assert("account_view_mode"@.len() == 17);
    reveal_strlit("autoLogin");
    assert("autoLogin"@.len() == 9);
    reveal_strlit("auto_login");
    assert("auto_login"@.len() == 10);
    assert("auto_login"@[5] != "auto_start"@[5]);
}

#[verifier::spinoff_prover]
proof fn lemma_decode_auto_launch_game(v: Seq<char>)
    ensures
        decode_field("auto_launch_game"@, v) == (match flag_value(v) {
            Ok(x) => Ok::<FieldChange, Seq<char>>(FieldChange::AutoLaunchGame(x)),
            Err(e) => Err(e),
        }),
{
    reveal_strlit("game_path");
    assert("game_path"@.len() == 9);
    reveal_strlit("locale");
    assert("locale"@.len() == 6);
    reveal_strlit("theme");
    assert("theme"@.len() == 5);
    reveal_strlit("language");
    assert("language"@.len() == 8);
    reveal_strlit("auto_update");
    assert("auto_update"@.len() == 11);
    reveal_strlit("skip_play_confirm");
    assert("skip_play_confirm"@.len() == 17);
    reveal_strlit("auto_start");
    assert("auto_start"@.len() == 10);
    reveal_strlit("region");
    assert("region"@.len() == 6);
    reveal_strlit("debug_logging");
    assert("debug_logging"@.len() == 13);
    reveal_strlit("gamepass_incognito");
    assert("gamepass_incognito"@.len() == 18);
    reveal_strlit("traditional_login");
    assert("traditional_login"@.len() == 17);
    reveal_strlit("auto_kill_patcher");
    assert("auto_kill_patcher"@.len() == 17);
    reveal_strlit("update_channel");
    assert("update_channel"@.len() == 14);
    reveal_strlit("font_size");
    assert("font_size"@.len() == 9);
    reveal_strlit("window_x");
    assert("window_x"@.len() == 8);
    reveal_strlit("window_y");
    assert("window_y"@.len() == 8);
    reveal_strlit("window_width");
    assert("window_width"@.len() == 12);
    reveal_strlit("window_height");
    assert("window_height"@.len() == 13);
    reveal_strlit("accountViewMode");
    assert("accountViewMode"@.len() == 15);
    reveal_strlit("account_view_mode");
    assert("account_view_mode"@.len() == 17);
    reveal_strlit("autoLogin");
    assert("autoLogin"@.len() == 9);
    reveal_strlit("auto_login");
    assert("auto_login"@.len() == 10);
    reveal_strlit("autoLaunchGame");
    assert("autoLaunchGame"@.len() == 14);
    reveal_strlit("auto_launch_game");
    assert("auto_launch_game"@.len() == 16);
}

#[verifier::spinoff_prover]
proof fn lemma_decode_web_launch_auto_launch(v: Seq<char>)
    ensures
        decode_field("web_launch_auto_launch"@, v) == (match flag_value(v) {
            Ok(x) => Ok::<FieldChange, Seq<char>>(FieldChange::WebLaunchAutoLaunch(x)),
            Err(e) => Err(e),
        }),
{
    reveal_strlit("game_path");
    assert("game_path"@.len() == 9);
    reveal_strlit("locale");
    assert("locale"@.len() == 6);
    reveal_strlit("theme");
    assert("theme"@.len() == 5);
    reveal_strlit("language");
    assert("language"@.len() == 8);
    reveal_strlit("auto_update");
    assert("auto_update"@.len() == 11);
    reveal_strlit("skip_play_confirm");
    assert("skip_play_confirm"@.len() == 17);
    reveal_strlit("auto_start");
    assert("auto_start"@.len() == 10);
    reveal_strlit("region");
    assert("region"@.len() == 6);
    reveal_strlit("debug_logging");
    assert("debug_logging"@.len() == 13);
    reveal_strlit("gamepass_incognito");
    assert("gamepass_incognito"@.len() == 18);
    reveal_strlit("traditional_login");
    assert("traditional_login"@.len() == 17);
    reveal_strlit("auto_kill_patcher");
    assert("auto_kill_patcher"@.len() == 17);
    reveal_strlit("update_channel");
    assert("update_channel"@.len() == 14);
    reveal_strlit("font_size");
    assert("font_size"@.len() == 9);
    reveal_strlit("window_x");
    assert("window_x"@.len() == 8);
    reveal_strlit("window_y");
    assert("window_y"@.len() == 8);
    reveal_strlit("window_width");
    assert("window_width"@.len() == 12);
    reveal_strlit("window_height");
    assert("window_height"@.len() == 13);
    reveal_strlit("accountViewMode");
    assert("accountViewMode"@.len() == 15);
    reveal_strlit("account_view_mode");
    assert("account_view_mode"@.len() == 17);
    reveal_strlit("autoLogin");
    assert("autoLogin"@.len() == 9);
    reveal_strlit("auto_login");
    assert("auto_login"@.len() == 10);
    reveal_strlit("autoLaunchGame");
    assert("autoLaunchGame"@.len() == 14);
    reveal_strlit("auto_launch_game");
    assert("auto_launch_game"@.len() == 16);
    reveal_strlit("webLaunchAutoLaunch");
    assert("webLaunchAutoLaunch"@.len() == 19);
    reveal_strlit("web_launch_auto_launch");
    assert("web_launch_auto_launch"@.len() == 22);
}

#[verifier::spinoff_prover]
proof fn lemma_decode_web_launch_auto_paste(v: Seq<char>)
    ensures
        decode_field("web_launch_auto_paste"@, v) == (match flag_value(v) {
            Ok(x) => Ok::<FieldChange, Seq<char>>(FieldChange::WebLaunchAutoPaste(x)),
            Err(e) => Err(e),
        }),
{
    reveal_strlit("game_path");
    assert("game_path"@.len() == 9);
    reveal_strlit("locale");
    assert("locale"@.len() == 6);
    reveal_strlit("theme");
    assert("theme"@.len() == 5);
    reveal_strlit("language");
    assert("language"@.len() == 8);
    reveal_strlit("auto_update");
    assert("auto_update"@.len() == 11);
    reveal_strlit("skip_play_confirm");
    assert("skip_play_confirm"@.len() == 17);
    reveal_strlit("auto_start");
    assert("auto_start"@.len() == 10);
    reveal_strlit("region");
    assert("region"@.len() == 6);
    reveal_strlit("debug_logging");
    assert("debug_logging"@.len() == 13);
    reveal_strlit("gamepass_incognito");
    assert("gamepass_incognito"@.len() == 18);
    reveal_strlit("traditional_login");
    assert("traditional_login"@.len() == 17);
    reveal_strlit("auto_kill_patcher");
    assert("auto_kill_patcher"@.len() == 17);
    reveal_strlit("update_channel");
    assert("update_channel"@.len() == 14);
    reveal_strlit("font_size");
    assert("font_size"@.len() == 9);
    reveal_strlit("window_x");
    assert("window_x"@.len() == 8);
    reveal_strlit("window_y");
    assert("window_y"@.len() == 8);
    reveal_strlit("window_width");
    assert("window_width"@.len() == 12);
    reveal_strlit("window_height");
    assert("window_height"@.len() == 13);
    reveal_strlit("accountViewMode");
    assert("accountViewMode"@.len() == 15);
    reveal_strlit("account_view_mode");
    assert("account_view_mode"@.len() == 17);
    reveal_strlit("autoLogin");
    assert("autoLogin"@.len() == 9);
    reveal_strlit("auto_login");
    assert("auto_login"@.len() == 10);
    reveal_strlit("autoLaunchGame");
    assert("autoLaunchGame"@.len() == 14);
    reveal_strlit("auto_launch_game");
    assert("auto_launch_game"@.len() == 16);
    reveal_strlit("webLaunchAutoLaunch");
    assert("webLaunchAutoLaunch"@.len() == 19);
    reveal_strlit("web_launch_auto_launch");
    assert("web_launch_auto_launch"@.len() == 22);
    reveal_strlit("webLaunchAutoPaste");
    assert("webLaunchAutoPaste"@.len() == 18);
    reveal_strlit("web_launch_auto_paste");
    assert("web_launch_auto_paste"@.len() == 21);
}

#[verifier::spinoff_prover]
proof fn lemma_decode_close_behavior(v: Seq<char>)
    ensures
        decode_field("close_behavior"@, v) == (match close_behavior_value(v) {
            Ok(x) => Ok::<FieldChange, Seq<char>>(FieldChange::CloseBehavior(x)),
            Err(e) => Err(e),
        }),
{
    reveal_strlit("game_path");
    assert("game_path"@.len() == 9);
    reveal_strlit("locale");
    assert("locale"@.len() == 6);
    reveal_strlit("theme");
    assert("theme"@.len() == 5);
    reveal_strlit("language");
    assert("language"@.len() == 8);
    reveal_strlit("auto_update");
    assert("auto_update"@.len() == 11);
    reveal_strlit("skip_play_confirm");
    assert("skip_play_confirm"@.len() == 17);
    reveal_strlit("auto_start");
    assert("auto_start"@.len() == 10);
    reveal_strlit("region");
    assert("region"@.len() == 6);
    reveal_strlit("debug_logging");
    assert("debug_logging"@.len() == 13);
    reveal_strlit("gamepass_incognito");
    assert("gamepass_incognito"@.len() == 18);
    reveal_strlit("traditional_login");
    assert("traditional_login"@.len() == 17);
    reveal_strlit("auto_kill_patcher");
    assert("auto_kill_patcher"@.len() == 17);
    reveal_strlit("update_channel");
    assert("update_channel"@.len() == 14);
    reveal_strlit("font_size");
    assert("font_size"@.len() == 9);
    reveal_strlit("window_x");
    assert("window_x"@.len() == 8);
    reveal_strlit("window_y");
    assert("window_y"@.len() == 8);
    reveal_strlit("window_width");
    assert("window_width"@.len() == 12);
    reveal_strlit("window_height");
    assert("window_height"@.len() == 13);
    reveal_strlit("accountViewMode");
    assert("accountViewMode"@.len() == 15);
    reveal_strlit("account_view_mode");
    assert("account_view_mode"@.len() == 17);
    reveal_strlit("autoLogin");
    assert("autoLogin"@.len() == 9);
    reveal_strlit("auto_login");
    assert("auto_login"@.len() == 10);
    reveal_strlit("autoLaunchGame");
    assert("autoLaunchGame"@.len() == 14);
    reveal_strlit("auto_launch_game");
    assert("auto_launch_game"@.len() == 16);
    reveal_strlit("webLaunchAutoLaunch");
    assert("webLaunchAutoLaunch"@.len() == 19);
    reveal_strlit("web_launch_auto_launch");
    assert("web_launch_auto_launch"@.len() == 22);
    reveal_strlit("webLaunchAutoPaste");
    assert("webLaunchAutoPaste"@.len() == 18);
    reveal_strlit("web_launch_auto_paste");
    assert("web_launch_auto_paste"@.len() == 21);
    reveal_strlit("closeBehavior");
    assert("closeBehavior"@.len() == 13);
    reveal_strlit("close_behavior");
    assert("close_behavior"@.len() == 14);
    assert("close_behavior"@[0] != "update_channel"@[0]);
    assert("close_behavior"@[0] != "autoLaunchGame"@[0]);
}

#[verifier::spinoff_prover]
proof fn lemma_decode_hide_account_names(v: Seq<char>)
    ensures
        decode_field("hide_account_names"@, v) == (match flag_value(v) {
            Ok(x) => Ok::<FieldChange, Seq<char>>(FieldChange::HideAccountNames(x)),
            Err(e) => Err(e),
        }),
{
    reveal_strlit("game_path");
    assert("game_path"@.len() == 9);
    reveal_strlit("locale");
    assert("locale"@.len() == 6);
    reveal_strlit("theme");
    assert("theme"@.len() == 5);
    reveal_strlit("language");
    assert("language"@.len() == 8);
    reveal_strlit("auto_update");
    assert("auto_update"@.len() == 11);
    reveal_strlit("skip_play_confirm");
    assert("skip_play_confirm"@.len() == 17);
    reveal_strlit("auto_start");
    assert("auto_start"@.len() == 10);
    reveal_strlit("region");
    assert("region"@.len() == 6);
    reveal_strlit("debug_logging");
    assert("debug_logging"@.len() == 13);
    reveal_strlit("gamepass_incognito");
    assert("gamepass_incognito"@.len() == 18);
    reveal_strlit("traditional_login");
    assert("traditional_login"@.len() == 17);
    reveal_strlit("auto_kill_patcher");
    assert("auto_kill_patcher"@.len() == 17);
    reveal_strlit("update_channel");
    assert("update_channel"@.len() == 14);
    reveal_strlit("font_size");
    assert("font_size"@.len() == 9);
    reveal_strlit("window_x");
    assert("window_x"@.len() == 8);
    reveal_strlit("window_y");
    assert("window_y"@.len() == 8);
    reveal_strlit("window_width");
    assert("window_width"@.len() == 12);
    reveal_strlit("window_height");
    assert("window_height"@.len() == 13);
    reveal_strlit("accountViewMode");
    assert("accountViewMode"@.len() == 15);
    reveal_strlit("account_view_mode");
    assert("account_view_mode"@.len() == 17);
    reveal_strlit("autoLogin");
    assert("autoLogin"@.len() == 9);
    reveal_strlit("auto_login");
    assert("auto_login"@.len() == 10);
    reveal_strlit("autoLaunchGame");
    assert("autoLaunchGame"@.len() == 14);
    reveal_strlit("auto_launch_game");
    assert("auto_launch_game"@.len() == 16);
    reveal_strlit("webLaunchAutoLaunch");
    assert("webLaunchAutoLaunch"@.len() == 19);
    reveal_strlit("web_launch_auto_launch");
    assert("web_launch_auto_launch"@.len() == 22);
    reveal_strlit("webLaunchAutoPaste");
    assert("webLaunchAutoPaste"@.len() == 18);
    reveal_strlit("web_launch_auto_paste");
    assert("web_launch_auto_paste"@.len() == 21);
    reveal_strlit("closeBehavior");
    assert("closeBehavior"@.len() == 13);
    reveal_strlit("close_behavior");
    assert("close_behavior"@.len() == 14);
    reveal_strlit("hideAccountNames");
    assert("hideAccountNames"@.len() == 16);
    reveal_strlit("hide_account_names");
    assert("hide_account_names"@.len() == 18);
    assert("hide_account_names"@[0] != "gamepass_incognito"@[0]);
    assert("hide_account_names"@[0] != "webLaunchAutoPaste"@[0]);
}

#[verifier::spinoff_prover]
proof fn lemma_decode_beanfun_rename_dismissed(v: Seq<char>)
    ensures
        decode_field("beanfun_rename_dismissed"@, v) == (match flag_value(v) {
            Ok(x) => Ok::<FieldChange, Seq<char>>(FieldChange::BeanfunRenameDismissed(x)),
            Err(e) => Err(e),
        }),
{
    reveal_strlit("game_path");
    assert("game_path"@.len() == 9);
    reveal_strlit("locale");
    assert("locale"@.len() == 6);
    reveal_strlit("theme");
    assert("theme"@.len() == 5);
    reveal_strlit("language");
    assert("language"@.len() == 8);
    reveal_strlit("auto_update");
    assert("auto_update"@.len() == 11);
    reveal_strlit("skip_play_confirm");
    assert("skip_play_confirm"@.len() == 17);
    reveal_strlit("auto_start");
    assert("auto_start"@.len() == 10);
    reveal_strlit("region");
    assert("region"@.len() == 6);
    reveal_strlit("debug_logging");
    assert("debug_logging"@.len() == 13);
    reveal_strlit("gamepass_incognito");
    assert("gamepass_incognito"@.len() == 18);
    reveal_strlit("traditional_login");
    assert("traditional_login"@.len() == 17);
    reveal_strlit("auto_kill_patcher");
    assert("auto_kill_patcher"@.len() == 17);
    reveal_strlit("update_channel");
    assert("update_channel"@.len() == 14);
    reveal_strlit("font_size");
    assert("font_size"@.len() == 9);
    reveal_strlit("window_x");
    assert("window_x"@.len() == 8);
    reveal_strlit("window_y");
    assert("window_y"@.len() == 8);
    reveal_strlit("window_width");
    assert("window_width"@.len() == 12);
    reveal_strlit("window_height");
    assert("window_height"@.len() == 13);
    reveal_strlit("accountViewMode");
    assert("accountViewMode"@.len() == 15);
    reveal_strlit("account_view_mode");
    assert("account_view_mode"@.len() == 17);
    reveal_strlit("autoLogin");
    assert("autoLogin"@.len() == 9);
    reveal_strlit("auto_login");
    assert("auto_login"@.len() == 10);
    reveal_strlit("autoLaunchGame");
    assert("autoLaunchGame"@.len() == 14);
    reveal_strlit("auto_launch_game");
    assert("auto_launch_game"@.len() == 16);
    reveal_strlit("webLaunchAutoLaunch");
    assert("webLaunchAutoLaunch"@.len() == 19);
    reveal_strlit("web_launch_auto_launch");
    assert("web_launch_auto_launch"@.len() == 22);
    reveal_strlit("webLaunchAutoPaste");
    assert("webLaunchAutoPaste"@.len() == 18);
    reveal_strlit("web_launch_auto_paste");
    assert("web_launch_auto_paste"@.len() == 21);
    reveal_strlit("closeBehavior");
    assert("closeBehavior"@.len() == 13);
    reveal_strlit("close_behavior");
    assert("close_behavior"@.len() == 14);
    reveal_strlit("hideAccountNames");
    assert("hideAccountNames"@.len() == 16);
    reveal_strlit("hide_account_names");
    assert("hide_account_names"@.len() == 18);
    reveal_strlit("beanfunRenameDismissed");
    assert("beanfunRenameDismissed"@.len() == 22);
    reveal_strlit("beanfun_rename_dismissed");
    assert("beanfun_rename_dismissed"@.len() == 24);
}

#[verifier::spinoff_prover]
proof fn lemma_decode_cafe_mode(v: Seq<char>)
    ensures
        decode_field("cafe_mode"@, v) == (match flag_value(v) {
            Ok(x) => Ok::<FieldChange, Seq<char>>(FieldChange::CafeMode(x)),
            Err(e) => Err(e),
        }),
{
    reveal_strlit("game_path");
    assert("game_path"@.len() == 9);
    reveal_strlit("locale");
    assert("locale"@.len() == 6);
    reveal_strlit("theme");
    assert("theme"@.len() == 5);
    reveal_strlit("language");
    assert("language"@.len() == 8);
    reveal_strlit("auto_update");
    assert("auto_update"@.len() == 11);
    reveal_strlit("skip_play_confirm");
    assert("skip_play_confirm"@.len() == 17);
    reveal_strlit("auto_start");
    assert("auto_start"@.len() == 10);
    reveal_strlit("region");
    assert("region"@.len() == 6);
    reveal_strlit("debug_logging");
    assert("debug_logging"@.len() == 13);
    reveal_strlit("gamepass_incognito");
    assert("gamepass_incognito"@.len() == 18);
    reveal_strlit("traditional_login");
    assert("traditional_login"@.len() == 17);
    reveal_strlit("auto_kill_patcher");
    assert("auto_kill_patcher"@.len() == 17);
    reveal_strlit("update_channel");
    assert("update_channel"@.len() == 14);
    reveal_strlit("font_size");
    assert("font_size"@.len() == 9);
    reveal_strlit("window_x");
    assert("window_x"@.len() == 8);
    reveal_strlit("window_y");
    assert("window_y"@.len() == 8);
    reveal_strlit("window_width");
    assert("window_width"@.len() == 12);
    reveal_strlit("window_height");
    assert("window_height"@.len() == 13);
    reveal_strlit("accountViewMode");
    assert("accountViewMode"@.len() == 15);
    reveal_strlit("account_view_mode");
    assert("account_view_mode"@.len() == 17);
    reveal_strlit("autoLogin");
    assert("autoLogin"@.len() == 9);
    reveal_strlit("auto_login");
    assert("auto_login"@.len() == 10);
    reveal_strlit("autoLaunchGame");
    assert("autoLaunchGame"@.len() == 14);
    reveal_strlit("auto_launch_game");
    assert("auto_launch_game"@.len() == 16);
    reveal_strlit("webLaunchAutoLaunch");
    assert("webLaunchAutoLaunch"@.len() == 19);
    reveal_strlit("web_launch_auto_launch");
    assert("web_launch_auto_launch"@.len() == 22);
    reveal_strlit("webLaunchAutoPaste");
    assert("webLaunchAutoPaste"@.len() == 18);
    reveal_strlit("web_launch_auto_paste");
    assert("web_launch_auto_paste"@.len() == 21);
    reveal_strlit("closeBehavior");
    assert("closeBehavior"@.len() == 13);
    reveal_strlit("close_behavior");
    assert("close_behavior"@.len() == 14);
    reveal_strlit("hideAccountNames");
    assert("hideAccountNames"@.len() == 16);
    reveal_strlit("hide_account_names");
    assert("hide_account_names"@.len() == 18);
    reveal_strlit("beanfunRenameDismissed");
    assert("beanfunRenameDismissed"@.len() == 22);
    reveal_strlit("beanfun_rename_dismissed");
    assert("beanfun_rename_dismissed"@.len() == 24);
    reveal_strlit("cafeMode");
    assert("cafeMode"@.len() == 8);
    reveal_strlit("cafe_mode");
    assert("cafe_mode"@.len() == 9);
    assert("cafe_mode"@[0] != "game_path"@[0]);
    assert("cafe_mode"@[0] != "font_size"@[0]);
    assert("cafe_mode"@[0] != "autoLogin"@[0]);
}

#[verifier::spinoff_prover]
proof fn lemma_decode_default_login_view(v: Seq<char>)
    ensures
        decode_field("default_login_view"@, v) == (match default_login_view_value(v) {
            Ok(x) => Ok::<FieldChange, Seq<char>>(FieldChange::DefaultLoginView(x)),
            Err(e) => Err(e),
        }),
{
    reveal_strlit("game_path");
    assert("game_path"@.len() == 9);
    reveal_strlit("locale");
    assert("locale"@.len() == 6);
    reveal_strlit("theme");
    assert("theme"@.len() == 5);
    reveal_strlit("language");
    assert("language"@.len() == 8);
    reveal_strlit("auto_update");
    assert("auto_update"@.len() == 11);
    reveal_strlit("skip_play_confirm");
    assert("skip_play_confirm"@.len() == 17);
    reveal_strlit("auto_start");
    assert("auto_start"@.len() == 10);
    reveal_strlit("region");
    assert("region"@.len() == 6);
    reveal_strlit("debug_logging");
    assert("debug_logging"@.len() == 13);
    reveal_strlit("gamepass_incognito");
    assert("gamepass_incognito"@.len() == 18);
    reveal_strlit("traditional_login");
    assert("traditional_login"@.len() == 17);
    reveal_strlit("auto_kill_patcher");
    assert("auto_kill_patcher"@.len() == 17);
    reveal_strlit("update_channel");
    assert("update_channel"@.len() == 14);
    reveal_strlit("font_size");
    assert("font_size"@.len() == 9);
    reveal_strlit("window_x");
    assert("window_x"@.len() == 8);
    reveal_strlit("window_y");
    assert("window_y"@.len() == 8);
    reveal_strlit("window_width");
    assert("window_width"@.len() == 12);
    reveal_strlit("window_height");
    assert("window_height"@.len() == 13);
    reveal_strlit("accountViewMode");
    assert("accountViewMode"@.len() == 15);
    reveal_strlit("account_view_mode");
    assert("account_view_mode"@.len() == 17);
    reveal_strlit("autoLogin");
    assert("autoLogin"@.len() == 9);
    reveal_strlit("auto_login");
    assert("auto_login"@.len() == 10);
    reveal_strlit("autoLaunchGame");
    assert("autoLaunchGame"@.len() == 14);
    reveal_strlit("auto_launch_game");
    assert("auto_launch_game"@.len() == 16);
    reveal_strlit("webLaunchAutoLaunch");
    assert("webLaunchAutoLaunch"@.len() == 19);
    reveal_strlit("web_launch_auto_launch");
    assert("web_launch_auto_launch"@.len() == 22);
    reveal_strlit("webLaunchAutoPaste");
    assert("webLaunchAutoPaste"@.len() == 18);
    reveal_strlit("web_launch_auto_paste");
    assert("web_launch_auto_paste"@.len() == 21);
    reveal_strlit("closeBehavior");
    assert("closeBehavior"@.len() == 13);
    reveal_strlit("close_behavior");
    assert("close_behavior"@.len() == 14);
    reveal_strlit("hideAccountNames");
    assert("hideAccountNames"@.len() == 16);
    reveal_strlit("hide_account_names");
    assert("hide_account_names"@.len() == 18);
    reveal_strlit("beanfunRenameDismissed");
    assert("beanfunRenameDismissed"@.len() == 22);
    reveal_strlit("beanfun_rename_dismissed");
    assert("beanfun_rename_dismissed"@.len() == 24);
    reveal_strlit("cafeMode");
    assert("cafeMode"@.len() == 8);
    reveal_strlit("cafe_mode");
    assert("cafe_mode"@.len() == 9);
    reveal_strlit("defaultLoginView");
    assert("defaultLoginView"@.len() == 16);
    reveal_strlit("default_login_view");
    assert("default_login_view"@.len() == 18);
    assert("default_login_view"@[0] != "gamepass_incognito"@[0]);
    assert("default_login_view"@[0] != "webLaunchAutoPaste"@[0]);
    assert("default_login_view"@[0] != "hide_account_names"@[0]);
}

#[verifier::spinoff_prover]
proof fn lemma_decode_reset(v: Seq<char>)
    ensures
        decode_field("__reset__"@, v) == Ok::<FieldChange, Seq<char>>(FieldChange::Reset),
{
    reveal_strlit("game_path");
    assert("game_path"@.len() == 9);
    reveal_strlit("locale");
    assert("locale"@.len() == 6);
    reveal_strlit("theme");
    assert("theme"@.len() == 5);
    reveal_strlit("language");
    assert("language"@.len() == 8);
    reveal_strlit("auto_update");
    assert("auto_update"@.len() == 11);
    reveal_strlit("skip_play_confirm");
    assert("skip_play_confirm"@.len() == 17);
    reveal_strlit("auto_start");
    assert("auto_start"@.len() == 10);
    reveal_strlit("region");
    assert("region"@.len() == 6);
    reveal_strlit("debug_logging");
    assert("debug_logging"@.len() == 13);
    reveal_strlit("gamepass_incognito");
    assert("gamepass_incognito"@.len() == 18);
    reveal_strlit("traditional_login");
    assert("traditional_login"@.len() == 17);
    reveal_strlit("auto_kill_patcher");
    assert("auto_kill_patcher"@.len() == 17);
    reveal_strlit("update_channel");
    assert("update_channel"@.len() == 14);
    reveal_strlit("font_size");
    assert("font_size"@.len() == 9);
    reveal_strlit("window_x");
    assert("window_x"@.len() == 8);
    reveal_strlit("window_y");
    assert("window_y"@.len() == 8);
    reveal_strlit("window_width");
    assert("window_width"@.len() == 12);
    reveal_strlit("window_height");
    assert("window_height"@.len() == 13);
    reveal_strlit("accountViewMode");
    assert("accountViewMode"@.len() == 15);
    reveal_strlit("account_view_mode");
    assert("account_view_mode"@.len() == 17);
    reveal_strlit("autoLogin");
    assert("autoLogin"@.len() == 9);
    reveal_strlit("auto_login");
    assert("auto_login"@.len() == 10);
    reveal_strlit("autoLaunchGame");
    assert("autoLaunchGame"@.len() == 14);
    reveal_strlit("auto_launch_game");
    assert("auto_launch_game"@.len() == 16);
    reveal_strlit("webLaunchAutoLaunch");
    assert("webLaunchAutoLaunch"@.len() == 19);
    reveal_strlit("web_launch_auto_launch");
    assert("web_launch_auto_launch"@.len() == 22);
    reveal_strlit("webLaunchAutoPaste");
    assert("webLaunchAutoPaste"@.len() == 18);
    reveal_strlit("web_launch_auto_paste");
    assert("web_launch_auto_paste"@.len() == 21);
    reveal_strlit("closeBehavior");
    assert("closeBehavior"@.len() == 13);
    reveal_strlit("close_behavior");
    assert("close_behavior"@.len() == 14);
    reveal_strlit("hideAccountNames");
    assert("hideAccountNames"@.len() == 16);
    reveal_strlit("hide_account_names");
    assert("hide_account_names"@.len() == 18);
    reveal_strlit("beanfunRenameDismissed");
    assert("beanfunRenameDismissed"@.len() == 22);
    reveal_strlit("beanfun_rename_dismissed");
    assert("beanfun_rename_dismissed"@.len() == 24);
    reveal_strlit("cafeMode");
    assert("cafeMode"@.len() == 8);
    reveal_strlit("cafe_mode");
    assert("cafe_mode"@.len() == 9);
    reveal_strlit("defaultLoginView");
    assert("defaultLoginView"@.len() == 16);
    reveal_strlit("default_login_view");
    assert("default_login_view"@.len() == 18);
    reveal_strlit("__reset__");
    assert("__reset__"@.len() == 9);
    assert("__reset__"@[0] != "game_path"@[0]);
    assert("__reset__"@[0] != "font_size"@[0]);
    assert("__reset__"@[0] != "autoLogin"@[0]);
    assert("__reset__"@[0] != "cafe_mode"@[0]);
}

/// The theme is set from `system`, `dark` or `light` in any letter case, each to its own theme; any other value is refused.
#[verifier::spinoff_prover]
#[verifier::rlimit(40)]
pub proof fn lemma_set_theme(c: ConfigModel, v: Seq<char>)
    ensures
        lower_text(v) == "system"@ ==> field_update(c, "theme"@, v) == Ok::<ConfigModel, Seq<char>>(ConfigModel { theme: Theme::System, ..c }),
        lower_text(v) == "dark"@ ==> field_update(c, "theme"@, v) == Ok::<ConfigModel, Seq<char>>(ConfigModel { theme: Theme::Dark, ..c }),
        lower_text(v) == "light"@ ==> field_update(c, "theme"@, v) == Ok::<ConfigModel, Seq<char>>(ConfigModel { theme: Theme::Light, ..c }),
        !(lower_text(v) == "system"@ || lower_text(v) == "dark"@ || lower_text(v) == "light"@) ==> field_update(c, "theme"@, v) == Err::<ConfigModel, Seq<char>>("unknown theme value: "@ + v),
{
    lemma_decode_theme(v);
    reveal_strlit("system");
    assert("system"@.len() == 6);
    reveal_strlit("dark");
    assert("dark"@.len() == 4);
    reveal_strlit("light");
    assert("light"@.len() == 5);
    reveal_strlit("unknown theme value: ");
    let l = lower_text(v);
    if l == "system"@ {
        assert(theme_value(v) == Ok::<Theme, Seq<char>>(Theme::System));
        lemma_change_theme(c, Theme::System, v);
    } else if l == "dark"@ {
        assert(theme_value(v) == Ok::<Theme, Seq<char>>(Theme::Dark));
        lemma_change_theme(c, Theme::Dark, v);
    } else if l == "light"@ {
        assert(theme_value(v) == Ok::<Theme, Seq<char>>(Theme::Light));
        lemma_change_theme(c, Theme::Light, v);
    }
}

/// The font size is set from `small`, `medium`, `large` or `extra-large` in any letter case, each to its own size; any other value is refused.
#[verifier::spinoff_prover]
#[verifier::rlimit(40)]
pub proof fn lemma_set_font_size(c: ConfigModel, v: Seq<char>)
    ensures
        lower_text(v) == "small"@ ==> field_update(c, "font_size"@, v) == Ok::<ConfigModel, Seq<char>>(ConfigModel { font_size: FontSize::Small, ..c }),
        lower_text(v) == "medium"@ ==> field_update(c, "font_size"@, v) == Ok::<ConfigModel, Seq<char>>(ConfigModel { font_size: FontSize::Medium, ..c }),
        lower_text(v) == "large"@ ==> field_update(c, "font_size"@, v) == Ok::<ConfigModel, Seq<char>>(ConfigModel { font_size: FontSize::Large, ..c }),
        lower_text(v) == "extra-large"@ ==> field_update(c, "font_size"@, v) == Ok::<ConfigModel, Seq<char>>(ConfigModel { font_size: FontSize::ExtraLarge, ..c }),
        !(lower_text(v) == "small"@ || lower_text(v) == "medium"@ || lower_text(v) == "large"@ || lower_text(v) == "extra-large"@) ==> field_update(c, "font_size"@, v) == Err::<ConfigModel, Seq<char>>("unknown font_size value: "@ + v),
{
    lemma_decode_font_size(v);
    reveal_strlit("small");
    assert("small"@.len() == 5);
    reveal_strlit("medium");
    assert("medium"@.len() == 6);
    reveal_strlit("large");
    assert("large"@.len() == 5);
    reveal_strlit("extra-large");
    assert("extra-large"@.len() == 11);
    assert("large"@[0] != "small"@[0]);
    reveal_strlit("unknown font_size value: ");
    let l = lower_text(v);
    if l == "small"@ {
        assert(font_size_value(v) == Ok::<FontSize, Seq<char>>(FontSize::Small));
        lemma_change_font_size(c, FontSize::Small, v);
    } else if l == "medium"@ {
        assert(font_size_value(v) == Ok::<FontSize, Seq<char>>(FontSize::Medium));
        lemma_change_font_size(c, FontSize::Medium, v);
    } else if l == "large"@ {
        assert(font_size_value(v) == Ok::<FontSize, Seq<char>>(FontSize::Large));
        lemma_change_font_size(c, FontSize::Large, v);
    } else if l == "extra-large"@ {
        assert(font_size_value(v) == Ok::<FontSize, Seq<char>>(FontSize::ExtraLarge));
        lemma_change_font_size(c, FontSize::ExtraLarge, v);
    }
}

/// The close behaviour is set from `quit`, `tray` or `ask` in any letter case, each to its own behaviour; any other value is refused.
#[verifier::spinoff_prover]
#[verifier::rlimit(40)]
pub proof fn lemma_set_close_behavior(c: ConfigModel, v: Seq<char>)
    ensures
        lower_text(v) == "quit"@ ==> field_update(c, "close_behavior"@, v) == Ok::<ConfigModel, Seq<char>>(ConfigModel { close_behavior: CloseBehavior::Quit, ..c }),
        lower_text(v) == "tray"@ ==> field_update(c, "close_behavior"@, v) == Ok::<ConfigModel, Seq<char>>(ConfigModel { close_behavior: CloseBehavior::Tray, ..c }),
        lower_text(v) == "ask"@ ==> field_update(c, "close_behavior"@, v) == Ok::<ConfigModel, Seq<char>>(ConfigModel { close_behavior: CloseBehavior::Ask, ..c }),
        !(lower_text(v) == "quit"@ || lower_text(v) == "tray"@ || lower_text(v) == "ask"@) ==> field_update(c, "close_behavior"@, v) == Err::<ConfigModel, Seq<char>>("unknown close_behavior value: "@ + v),
{
    lemma_decode_close_behavior(v);
    reveal_strlit("quit");
    assert("quit"@.len() == 4);
    reveal_strlit("tray");
    assert("tray"@.len() == 4);
    reveal_strlit("ask");
    assert("ask"@.len() == 3);
    assert("tray"@[0] != "quit"@[0]);
    reveal_strlit("unknown close_behavior value: ");
    let l = lower_text(v);
    if l == "quit"@ {
        assert(close_behavior_value(v) == Ok::<CloseBehavior, Seq<char>>(CloseBehavior::Quit));
        lemma_change_close_behavior(c, CloseBehavior::Quit, v);
    } else if l == "tray"@ {
        assert(close_behavior_value(v) == Ok::<CloseBehavior, Seq<char>>(CloseBehavior::Tray));
        lemma_change_close_behavior(c, CloseBehavior::Tray, v);
    } else if l == "ask"@ {
        assert(close_behavior_value(v) == Ok::<CloseBehavior, Seq<char>>(CloseBehavior::Ask));
        lemma_change_close_behavior(c, CloseBehavior::Ask, v);
    }
}

/// The default login view is set from `normal` or `qr` in any letter case; any other value is refused.
#[verifier::spinoff_prover]
#[verifier::rlimit(40)]
pub proof fn lemma_set_default_login_view(c: ConfigModel, v: Seq<char>)
    ensures
        lower_text(v) == "normal"@ ==> field_update(c, "default_login_view"@, v) == Ok::<ConfigModel, Seq<char>>(ConfigModel { default_login_view: DefaultLoginView::Normal, ..c }),
        lower_text(v) == "qr"@ ==> field_update(c, "default_login_view"@, v) == Ok::<ConfigModel, Seq<char>>(ConfigModel { default_login_view: DefaultLoginView::Qr, ..c }),
        !(lower_text(v) == "normal"@ || lower_text(v) == "qr"@) ==> field_update(c, "default_login_view"@, v) == Err::<ConfigModel, Seq<char>>("unknown default_login_view value: "@ + v),
{
    lemma_decode_default_login_view(v);
    reveal_strlit("normal");
    assert("normal"@.len() == 6);
    reveal_strlit("qr");
    assert("qr"@.len() == 2);
    reveal_strlit("unknown default_login_view value: ");
    let l = lower_text(v);
    if l == "normal"@ {
        assert(default_login_view_value(v) == Ok::<DefaultLoginView, Seq<char>>(DefaultLoginView::Normal));
        lemma_change_default_login_view(c, DefaultLoginView::Normal, v);
    } else if l == "qr"@ {
        assert(default_login_view_value(v) == Ok::<DefaultLoginView, Seq<char>>(DefaultLoginView::Qr));
        lemma_change_default_login_view(c, DefaultLoginView::Qr, v);
    }
}

/// The region is set from `TW` or `HK` in any letter case; any other value is refused.
#[verifier::spinoff_prover]
#[verifier::rlimit(40)]
pub proof fn lemma_set_region(c: ConfigModel, v: Seq<char>)
    ensures
        upper_text(v) == "TW"@ ==> field_update(c, "region"@, v) == Ok::<ConfigModel, Seq<char>>(ConfigModel { region: Region::TW, ..c }),
        upper_text(v) == "HK"@ ==> field_update(c, "region"@, v) == Ok::<ConfigModel, Seq<char>>(ConfigModel { region: Region::HK, ..c }),
        !(upper_text(v) == "TW"@ || upper_text(v) == "HK"@) ==> field_update(c, "region"@, v) == Err::<ConfigModel, Seq<char>>("unknown region value: "@ + v),
{
    lemma_decode_region(v);
    reveal_strlit("TW");
    assert("TW"@.len() == 2);
    reveal_strlit("HK");
    assert("HK"@.len() == 2);
    assert("HK"@[0] != "TW"@[0]);
    reveal_strlit("unknown region value: ");
    let l = upper_text(v);
    if l == "TW"@ {
        assert(region_value(v) == Ok::<Region, Seq<char>>(Region::TW));
        lemma_change_region(c, Region::TW, v);
    } else if l == "HK"@ {
        assert(region_value(v) == Ok::<Region, Seq<char>>(Region::HK));
        lemma_change_region(c, Region::HK, v);
    }
}

/// The language is set from `en-US`, `zh-TW` or `zh-CN`, in any letter case, with `-`, `_` or nothing between the parts; any other value is refused.
#[verifier::spinoff_prover]
#[verifier::rlimit(40)]
pub proof fn lemma_set_language(c: ConfigModel, v: Seq<char>)
    ensures
        remove_char(lower_text(v), '-') == "enus"@ ==> field_update(c, "language"@, v) == Ok::<ConfigModel, Seq<char>>(ConfigModel { language: Language::EnUS, ..c }),
        remove_char(lower_text(v), '-') == "en_us"@ ==> field_update(c, "language"@, v) == Ok::<ConfigModel, Seq<char>>(ConfigModel { language: Language::EnUS, ..c }),
        remove_char(lower_text(v), '-') == "zhtw"@ ==> field_update(c, "language"@, v) == Ok::<ConfigModel, Seq<char>>(ConfigModel { language: Language::ZhTW, ..c }),
        remove_char(lower_text(v), '-') == "zh_tw"@ ==> field_update(c, "language"@, v) == Ok::<ConfigModel, Seq<char>>(ConfigModel { language: Language::ZhTW, ..c }),
        remove_char(lower_text(v), '-') == "zhcn"@ ==> field_update(c, "language"@, v) == Ok::<ConfigModel, Seq<char>>(ConfigModel { language: Language::ZhCN, ..c }),
        remove_char(lower_text(v), '-') == "zh_cn"@ ==> field_update(c, "language"@, v) == Ok::<ConfigModel, Seq<char>>(ConfigModel { language: Language::ZhCN, ..c }),
        !(remove_char(lower_text(v), '-') == "enus"@ || remove_char(lower_text(v), '-') == "en_us"@ || remove_char(lower_text(v), '-') == "zhtw"@ || remove_char(lower_text(v), '-') == "zh_tw"@ || remove_char(lower_text(v), '-') == "zhcn"@ || remove_char(lower_text(v), '-') == "zh_cn"@) ==> field_update(c, "language"@, v) == Err::<ConfigModel, Seq<char>>("unknown language value: "@ + v),
{
    lemma_decode_language(v);
    reveal_strlit("enus");
    assert("enus"@.len() == 4);
    reveal_strlit("en_us");
    assert("en_us"@.len() == 5);
    reveal_strlit("zhtw");
    assert("zhtw"@.len() == 4);
    reveal_strlit("zh_tw");
    assert("zh_tw"@.len() == 5);
    reveal_strlit("zhcn");
    assert("zhcn"@.len() == 4);
    reveal_strlit("zh_cn");
    assert("zh_cn"@.len() == 5);
    assert("zhtw"@[0] != "enus"@[0]);
    assert("zh_tw"@[0] != "en_us"@[0]);
    assert("zhcn"@[0] != "enus"@[0]);
    assert("zhcn"@[2] != "zhtw"@[2]);
    assert("zh_cn"@[0] != "en_us"@[0]);
    assert("zh_cn"@[3] != "zh_tw"@[3]);
    reveal_strlit("unknown language value: ");
    let l = remove_char(lower_text(v), '-');
    if l == "enus"@ {
        assert(language_value(v) == Ok::<Language, Seq<char>>(Language::EnUS));
        lemma_change_language(c, Language::EnUS, v);
    } else if l == "en_us"@ {
        assert(language_value(v) == Ok::<Language, Seq<char>>(Language::EnUS));
        lemma_change_language(c, Language::EnUS, v);
    } else if l == "zhtw"@ {
        assert(language_value(v) == Ok::<Language, Seq<char>>(Language::ZhTW));
        lemma_change_language(c, Language::ZhTW, v);
    } else if l == "zh_tw"@ {
        assert(language_value(v) == Ok::<Language, Seq<char>>(Language::ZhTW));
        lemma_change_language(c, Language::ZhTW, v);
    } else if l == "zhcn"@ {
        assert(language_value(v) == Ok::<Language, Seq<char>>(Language::ZhCN));
        lemma_change_language(c, Language::ZhCN, v);
    } else if l == "zh_cn"@ {
        assert(language_value(v) == Ok::<Language, Seq<char>>(Language::ZhCN));
        lemma_change_language(c, Language::ZhCN, v);
    }
}

/// The update channel is set from `release`, or `pre-release` (also written `pre_release` or `prerelease`), in any letter case; any other value is refused.
#[verifier::spinoff_prover]
#[verifier::rlimit(40)]
pub proof fn lemma_set_update_channel(c: ConfigModel, v: Seq<char>)
    ensures
        replace_char(lower_text(v), '_', '-') == "release"@ ==> field_update(c, "update_channel"@, v) == Ok::<ConfigModel, Seq<char>>(ConfigModel { update_channel: UpdateChannel::Release, ..c }),
        replace_char(lower_text(v), '_', '-') == "pre-release"@ ==> field_update(c, "update_channel"@, v) == Ok::<ConfigModel, Seq<char>>(ConfigModel { update_channel: UpdateChannel::PreRelease, ..c }),
        replace_char(lower_text(v), '_', '-') == "prerelease"@ ==> field_update(c, "update_channel"@, v) == Ok::<ConfigModel, Seq<char>>(ConfigModel { update_channel: UpdateChannel::PreRelease, ..c }),
        !(replace_char(lower_text(v), '_', '-') == "release"@ || replace_char(lower_text(v), '_', '-') == "pre-release"@ || replace_char(lower_text(v), '_', '-') == "prerelease"@) ==> field_update(c, "update_channel"@, v) == Err::<ConfigModel, Seq<char>>("unknown update_channel value: "@ + v),
{
    lemma_decode_update_channel(v);
    reveal_strlit("release");
    assert("release"@.len() == 7);
    reveal_strlit("pre-release");
    assert("pre-release"@.len() == 11);
    reveal_strlit("prerelease");
    assert("prerelease"@.len() == 10);
    reveal_strlit("unknown update_channel value: ");
    let l = replace_char(lower_text(v), '_', '-');
    if l == "release"@ {
        assert(update_channel_value(v) == Ok::<UpdateChannel, Seq<char>>(UpdateChannel::Release));
        lemma_change_update_channel(c, UpdateChannel::Release, v);
    } else if l == "pre-release"@ {
        assert(update_channel_value(v) == Ok::<UpdateChannel, Seq<char>>(UpdateChannel::PreRelease));
        lemma_change_update_channel(c, UpdateChannel::PreRelease, v);
    } else if l == "prerelease"@ {
        assert(update_channel_value(v) == Ok::<UpdateChannel, Seq<char>>(UpdateChannel::PreRelease));
        lemma_change_update_channel(c, UpdateChannel::PreRelease, v);
    }
}

/// `auto_update` is switched on by `true`, `1` or `yes` and off by `false`, `0` or
/// `no`, in any letter case; any other value is refused.
#[verifier::spinoff_prover]
pub proof fn lemma_set_auto_update(c: ConfigModel, v: Seq<char>)
    ensures
        lower_text(v) == "true"@ || lower_text(v) == "1"@ || lower_text(v) == "yes"@ ==> field_update(c, "auto_update"@, v) == Ok::<ConfigModel, Seq<char>>(ConfigModel { auto_update: true, ..c }),
        lower_text(v) == "false"@ || lower_text(v) == "0"@ || lower_text(v) == "no"@ ==> field_update(c, "auto_update"@, v) == Ok::<ConfigModel, Seq<char>>(ConfigModel { auto_update: false, ..c }),
        !(lower_text(v) == "true"@ || lower_text(v) == "1"@ || lower_text(v) == "yes"@ || lower_text(v) == "false"@ || lower_text(v) == "0"@ || lower_text(v) == "no"@) ==> field_update(c, "auto_update"@, v) == Err::<ConfigModel, Seq<char>>("expected boolean, got: "@ + v),
{
    lemma_decode_auto_update(v);
    reveal_strlit("true");
    assert("true"@.len() == 4);
    reveal_strlit("1");
    assert("1"@.len() == 1);
    reveal_strlit("yes");
    assert("yes"@.len() == 3);
    reveal_strlit("false");
    assert("false"@.len() == 5);
    reveal_strlit("0");
    assert("0"@.len() == 1);
    reveal_strlit("no");
    assert("no"@.len() == 2);
    assert("0"@[0] != "1"@[0]);
    reveal_strlit("expected boolean, got: ");
    lemma_change_auto_update(c, true, v);
    lemma_change_auto_update(c, false, v);
}

/// `skip_play_confirm` is switched on by `true`, `1` or `yes` and off by `false`, `0` or
/// `no`, in any letter case; any other value is refused.
#[verifier::spinoff_prover]
pub proof fn lemma_set_skip_play_confirm(c: ConfigModel, v: Seq<char>)
    ensures
        lower_text(v) == "true"@ || lower_text(v) == "1"@ || lower_text(v) == "yes"@ ==> field_update(c, "skip_play_confirm"@, v) == Ok::<ConfigModel, Seq<char>>(ConfigModel { skip_play_confirm: true, ..c }),
        lower_text(v) == "false"@ || lower_text(v) == "0"@ || lower_text(v) == "no"@ ==> field_update(c, "skip_play_confirm"@, v) == Ok::<ConfigModel, Seq<char>>(ConfigModel { skip_play_confirm: false, ..c }),
        !(lower_text(v) == "true"@ || lower_text(v) == "1"@ || lower_text(v) == "yes"@ || lower_text(v) == "false"@ || lower_text(v) == "0"@ || lower_text(v) == "no"@) ==> field_update(c, "skip_play_confirm"@, v) == Err::<ConfigModel, Seq<char>>("expected boolean, got: "@ + v),
{
    lemma_decode_skip_play_confirm(v);
    reveal_strlit("true");
    assert("true"@.len() == 4);
    reveal_strlit("1");
    assert("1"@.len() == 1);
    reveal_strlit("yes");
    assert("yes"@.len() == 3);
    reveal_strlit("false");
    assert("false"@.len() == 5);
    reveal_strlit("0");
    assert("0"@.len() == 1);
    reveal_strlit("no");
    assert("no"@.len() == 2);
    assert("0"@[0] != "1"@[0]);
    reveal_strlit("expected boolean, got: ");
    lemma_change_skip_play_confirm(c, true, v);
    lemma_change_skip_play_confirm(c, false, v);
}

/// `auto_start` is switched on by `true`, `1` or `yes` and off by `false`, `0` or
/// `no`, in any letter case; any other value is refused.
#[verifier::spinoff_prover]
pub proof fn lemma_set_auto_start(c: ConfigModel, v: Seq<char>)
    ensures
        lower_text(v) == "true"@ || lower_text(v) == "1"@ || lower_text(v) == "yes"@ ==> field_update(c, "auto_start"@, v) == Ok::<ConfigModel, Seq<char>>(ConfigModel { auto_start: true, ..c }),
        lower_text(v) == "false"@ || lower_text(v) == "0"@ || lower_text(v) == "no"@ ==> field_update(c, "auto_start"@, v) == Ok::<ConfigModel, Seq<char>>(ConfigModel { auto_start: false, ..c }),
        !(lower_text(v) == "true"@ || lower_text(v) == "1"@ || lower_text(v) == "yes"@ || lower_text(v) == "false"@ || lower_text(v) == "0"@ || lower_text(v) == "no"@) ==> field_update(c, "auto_start"@, v) == Err::<ConfigModel, Seq<char>>("expected boolean, got: "@ + v),
{
    lemma_decode_auto_start(v);
    reveal_strlit("true");
    assert("true"@.len() == 4);
    reveal_strlit("1");
    assert("1"@.len() == 1);
    reveal_strlit("yes");
    assert("yes"@.len() == 3);
    reveal_strlit("false");
    assert("false"@.len() == 5);
    reveal_strlit("0");
    assert("0"@.len() == 1);
    reveal_strlit("no");
    assert("no"@.len() == 2);
    assert("0"@[0] != "1"@[0]);
    reveal_strlit("expected boolean, got: ");
    lemma_change_auto_start(c, true, v);
    lemma_change_auto_start(c, false, v);
}

/// `debug_logging` is switched on by `true`, `1` or `yes` and off by `false`, `0` or
/// `no`, in any letter case; any other value is refused.
#[verifier::spinoff_prover]
pub proof fn lemma_set_debug_logging(c: ConfigModel, v: Seq<char>)
    ensures
        lower_text(v) == "true"@ || lower_text(v) == "1"@ || lower_text(v) == "yes"@ ==> field_update(c, "debug_logging"@, v) == Ok::<ConfigModel, Seq<char>>(ConfigModel { debug_logging: true, ..c }),
        lower_text(v) == "false"@ || lower_text(v) == "0"@ || lower_text(v) == "no"@ ==> field_update(c, "debug_logging"@, v) == Ok::<ConfigModel, Seq<char>>(ConfigModel { debug_logging: false, ..c }),
        !(lower_text(v) == "true"@ || lower_text(v) == "1"@ || lower_text(v) == "yes"@ || lower_text(v) == "false"@ || lower_text(v) == "0"@ || lower_text(v) == "no"@) ==> field_update(c, "debug_logging"@, v) == Err::<ConfigModel, Seq<char>>("expected boolean, got: "@ + v),
{
    lemma_decode_debug_logging(v);
    reveal_strlit("true");
    assert("true"@.len() == 4);
    reveal_strlit("1");
    assert("1"@.len() == 1);
    reveal_strlit("yes");
    assert("yes"@.len() == 3);
    reveal_strlit("false");
    assert("false"@.len() == 5);
    reveal_strlit("0");
    assert("0"@.len() == 1);
    reveal_strlit("no");
    assert("no"@.len() == 2);
    assert("0"@[0] != "1"@[0]);
    reveal_strlit("expected boolean, got: ");
    lemma_change_debug_logging(c, true, v);
    lemma_change_debug_logging(c, false, v);
}

/// `gamepass_incognito` is switched on by `true`, `1` or `yes` and off by `false`, `0` or
/// `no`, in any letter case; any other value is refused.
#[verifier::spinoff_prover]
pub proof fn lemma_set_gamepass_incognito(c: ConfigModel, v: Seq<char>)
    ensures
        lower_text(v) == "true"@ || lower_text(v) == "1"@ || lower_text(v) == "yes"@ ==> field_update(c, "gamepass_incognito"@, v) == Ok::<ConfigModel, Seq<char>>(ConfigModel { gamepass_incognito: true, ..c }),
        lower_text(v) == "false"@ || lower_text(v) == "0"@ || lower_text(v) == "no"@ ==> field_update(c, "gamepass_incognito"@, v) == Ok::<ConfigModel, Seq<char>>(ConfigModel { gamepass_incognito: false, ..c }),
        !(lower_text(v) == "true"@ || lower_text(v) == "1"@ || lower_text(v) == "yes"@ || lower_text(v) == "false"@ || lower_text(v) == "0"@ || lower_text(v) == "no"@) ==> field_update(c, "gamepass_incognito"@, v) == Err::<ConfigModel, Seq<char>>("expected boolean, got: "@ + v),
{
    lemma_decode_gamepass_incognito(v);
    reveal_strlit("true");
    assert("true"@.len() == 4);
    reveal_strlit("1");
    assert("1"@.len() == 1);
    reveal_strlit("yes");
    assert("yes"@.len() == 3);
    reveal_strlit("false");
    assert("false"@.len() == 5);
    reveal_strlit("0");
    assert("0"@.len() == 1);
    reveal_strlit("no");
    assert("no"@.len() == 2);
    assert("0"@[0] != "1"@[0]);
    reveal_strlit("expected boolean, got: ");
    lemma_change_gamepass_incognito(c, true, v);
    lemma_change_gamepass_incognito(c, false, v);
}

/// `traditional_login` is switched on by `true`, `1` or `yes` and off by `false`, `0` or
/// `no`, in any letter case; any other value is refused.
#[verifier::spinoff_prover]
pub proof fn lemma_set_traditional_login(c: ConfigModel, v: Seq<char>)
    ensures
        lower_text(v) == "true"@ || lower_text(v) == "1"@ || lower_text(v) == "yes"@ ==> field_update(c, "traditional_login"@, v) == Ok::<ConfigModel, Seq<char>>(ConfigModel { traditional_login: true, ..c }),
        lower_text(v) == "false"@ || lower_text(v) == "0"@ || lower_text(v) == "no"@ ==> field_update(c, "traditional_login"@, v) == Ok::<ConfigModel, Seq<char>>(ConfigModel { traditional_login: false, ..c }),
        !(lower_text(v) == "true"@ || lower_text(v) == "1"@ || lower_text(v) == "yes"@ || lower_text(v) == "false"@ || lower_text(v) == "0"@ || lower_text(v) == "no"@) ==> field_update(c, "traditional_login"@, v) == Err::<ConfigModel, Seq<char>>("expected boolean, got: "@ + v),
{
    lemma_decode_traditional_login(v);
    reveal_strlit("true");
    assert("true"@.len() == 4);
    reveal_strlit("1");
    assert("1"@.len() == 1);
    reveal_strlit("yes");
    assert("yes"@.len() == 3);
    reveal_strlit("false");
    assert("false"@.len() == 5);
    reveal_strlit("0");
    assert("0"@.len() == 1);
    reveal_strlit("no");
    assert("no"@.len() == 2);
    assert("0"@[0] != "1"@[0]);
    reveal_strlit("expected boolean, got: ");
    lemma_change_traditional_login(c, true, v);
    lemma_change_traditional_login(c, false, v);
}

/// `auto_kill_patcher` is switched on by `true`, `1` or `yes` and off by `false`, `0` or
/// `no`, in any letter case; any other value is refused.
#[verifier::spinoff_prover]
pub proof fn lemma_set_auto_kill_patcher(c: ConfigModel, v: Seq<char>)
    ensures
        lower_text(v) == "true"@ || lower_text(v) == "1"@ || lower_text(v) == "yes"@ ==> field_update(c, "auto_kill_patcher"@, v) == Ok::<ConfigModel, Seq<char>>(ConfigModel { auto_kill_patcher: true, ..c }),
        lower_text(v) == "false"@ || lower_text(v) == "0"@ || lower_text(v) == "no"@ ==> field_update(c, "auto_kill_patcher"@, v) == Ok::<ConfigModel, Seq<char>>(ConfigModel { auto_kill_patcher: false, ..c }),
        !(lower_text(v) == "true"@ || lower_text(v) == "1"@ || lower_text(v) == "yes"@ || lower_text(v) == "false"@ || lower_text(v) == "0"@ || lower_text(v) == "no"@) ==> field_update(c, "auto_kill_patcher"@, v) == Err::<ConfigModel, Seq<char>>("expected boolean, got: "@ + v),
{
    lemma_decode_auto_kill_patcher(v);
    reveal_strlit("true");
    assert("true"@.len() == 4);
    reveal_strlit("1");
    assert("1"@.len() == 1);
    reveal_strlit("yes");
    assert("yes"@.len() == 3);
    reveal_strlit("false");
    assert("false"@.len() == 5);
    reveal_strlit("0");
    assert("0"@.len() == 1);
    reveal_strlit("no");
    assert("no"@.len() == 2);
    assert("0"@[0] != "1"@[0]);
    reveal_strlit("expected boolean, got: ");
    lemma_change_auto_kill_patcher(c, true, v);
    lemma_change_auto_kill_patcher(c, false, v);
}

/// `auto_login` is switched on by `true`, `1` or `yes` and off by `false`, `0` or
/// `no`, in any letter case; any other value is refused.
#[verifier::spinoff_prover]
pub proof fn lemma_set_auto_login(c: ConfigModel, v: Seq<char>)
    ensures
        lower_text(v) == "true"@ || lower_text(v) == "1"@ || lower_text(v) == "yes"@ ==> field_update(c, "auto_login"@, v) == Ok::<ConfigModel, Seq<char>>(ConfigModel { auto_login: true, ..c }),
        lower_text(v) == "false"@ || lower_text(v) == "0"@ || lower_text(v) == "no"@ ==> field_update(c, "auto_login"@, v) == Ok::<ConfigModel, Seq<char>>(ConfigModel { auto_login: false, ..c }),
        !(lower_text(v) == "true"@ || lower_text(v) == "1"@ || lower_text(v) == "yes"@ || lower_text(v) == "false"@ || lower_text(v) == "0"@ || lower_text(v) == "no"@) ==> field_update(c, "auto_login"@, v) == Err::<ConfigModel, Seq<char>>("expected boolean, got: "@ + v),
{
    lemma_decode_auto_login(v);
    reveal_strlit("true");
    assert("true"@.len() == 4);
    reveal_strlit("1");
    assert("1"@.len() == 1);
    reveal_strlit("yes");
    assert("yes"@.len() == 3);
    reveal_strlit("false");
    assert("false"@.len() == 5);
    reveal_strlit("0");
    assert("0"@.len() == 1);
    reveal_strlit("no");
    assert("no"@.len() == 2);
    assert("0"@[0] != "1"@[0]);
    reveal_strlit("expected boolean, got: ");
    lemma_change_auto_login(c, true, v);
    lemma_change_auto_login(c, false, v);
}

/// `auto_launch_game` is switched on by `true`, `1` or `yes` and off by `false`, `0` or
/// `no`, in any letter case; any other value is refused.
#[verifier::spinoff_prover]
pub proof fn lemma_set_auto_launch_game(c: ConfigModel, v: Seq<char>)
    ensures
        lower_text(v) == "true"@ || lower_text(v) == "1"@ || lower_text(v) == "yes"@ ==> field_update(c, "auto_launch_game"@, v) == Ok::<ConfigModel, Seq<char>>(ConfigModel { auto_launch_game: true, ..c }),
        lower_text(v) == "false"@ || lower_text(v) == "0"@ || lower_text(v) == "no"@ ==> field_update(c, "auto_launch_game"@, v) == Ok::<ConfigModel, Seq<char>>(ConfigModel { auto_launch_game: false, ..c }),
        !(lower_text(v) == "true"@ || lower_text(v) == "1"@ || lower_text(v) == "yes"@ || lower_text(v) == "false"@ || lower_text(v) == "0"@ || lower_text(v) == "no"@) ==> field_update(c, "auto_launch_game"@, v) == Err::<ConfigModel, Seq<char>>("expected boolean, got: "@ + v),
{
    lemma_decode_auto_launch_game(v);
    reveal_strlit("true");
    assert("true"@.len() == 4);
    reveal_strlit("1");
    assert("1"@.len() == 1);
    reveal_strlit("yes");
    assert("yes"@.len() == 3);
    reveal_strlit("false");
    assert("false"@.len() == 5);
    reveal_strlit("0");
    assert("0"@.len() == 1);
    reveal_strlit("no");
    assert("no"@.len() == 2);
    assert("0"@[0] != "1"@[0]);
    reveal_strlit("expected boolean, got: ");
    lemma_change_auto_launch_game(c, true, v);
    lemma_change_auto_launch_game(c, false, v);
}

/// `web_launch_auto_launch` is switched on by `true`, `1` or `yes` and off by `false`, `0` or
/// `no`, in any letter case; any other value is refused.
#[verifier::spinoff_prover]
pub proof fn lemma_set_web_launch_auto_launch(c: ConfigModel, v: Seq<char>)
    ensures
        lower_text(v) == "true"@ || lower_text(v) == "1"@ || lower_text(v) == "yes"@ ==> field_update(c, "web_launch_auto_launch"@, v) == Ok::<ConfigModel, Seq<char>>(ConfigModel { web_launch_auto_launch: true, ..c }),
        lower_text(v) == "false"@ || lower_text(v) == "0"@ || lower_text(v) == "no"@ ==> field_update(c, "web_launch_auto_launch"@, v) == Ok::<ConfigModel, Seq<char>>(ConfigModel { web_launch_auto_launch: false, ..c }),
        !(lower_text(v) == "true"@ || lower_text(v) == "1"@ || lower_text(v) == "yes"@ || lower_text(v) == "false"@ || lower_text(v) == "0"@ || lower_text(v) == "no"@) ==> field_update(c, "web_launch_auto_launch"@, v) == Err::<ConfigModel, Seq<char>>("expected boolean, got: "@ + v),
{
    lemma_decode_web_launch_auto_launch(v);
    reveal_strlit("true");
    assert("true"@.len() == 4);
    reveal_strlit("1");
    assert("1"@.len() == 1);
    reveal_strlit("yes");
    assert("yes"@.len() == 3);
    reveal_strlit("false");
    assert("false"@.len() == 5);
    reveal_strlit("0");
    assert("0"@.len() == 1);
    reveal_strlit("no");
    assert("no"@.len() == 2);
    assert("0"@[0] != "1"@[0]);
    reveal_strlit("expected boolean, got: ");
    lemma_change_web_launch_auto_launch(c, true, v);
    lemma_change_web_launch_auto_launch(c, false, v);
}

/// `web_launch_auto_paste` is switched on by `true`, `1` or `yes` and off by `false`, `0` or
/// `no`, in any letter case; any other value is refused.
#[verifier::spinoff_prover]
pub proof fn lemma_set_web_launch_auto_paste(c: ConfigModel, v: Seq<char>)
    ensures
        lower_text(v) == "true"@ || lower_text(v) == "1"@ || lower_text(v) == "yes"@ ==> field_update(c, "web_launch_auto_paste"@, v) == Ok::<ConfigModel, Seq<char>>(ConfigModel { web_launch_auto_paste: true, ..c }),
        lower_text(v) == "false"@ || lower_text(v) == "0"@ || lower_text(v) == "no"@ ==> field_update(c, "web_launch_auto_paste"@, v) == Ok::<ConfigModel, Seq<char>>(ConfigModel { web_launch_auto_paste: false, ..c }),
        !(lower_text(v) == "true"@ || lower_text(v) == "1"@ || lower_text(v) == "yes"@ || lower_text(v) == "false"@ || lower_text(v) == "0"@ || lower_text(v) == "no"@) ==> field_update(c, "web_launch_auto_paste"@, v) == Err::<ConfigModel, Seq<char>>("expected boolean, got: "@ + v),
{
    lemma_decode_web_launch_auto_paste(v);
    reveal_strlit("true");
    assert("true"@.len() == 4);
    reveal_strlit("1");
    assert("1"@.len() == 1);
    reveal_strlit("yes");
    assert("yes"@.len() == 3);
    reveal_strlit("false");
    assert("false"@.len() == 5);
    reveal_strlit("0");
    assert("0"@.len() == 1);
    reveal_strlit("no");
    assert("no"@.len() == 2);
    assert("0"@[0] != "1"@[0]);
    reveal_strlit("expected boolean, got: ");
    lemma_change_web_launch_auto_paste(c, true, v);
    lemma_change_web_launch_auto_paste(c, false, v);
}

/// `hide_account_names` is switched on by `true`, `1` or `yes` and off by `false`, `0` or
/// `no`, in any letter case; any other value is refused.
#[verifier::spinoff_prover]
pub proof fn lemma_set_hide_account_names(c: ConfigModel, v: Seq<char>)
    ensures
        lower_text(v) == "true"@ || lower_text(v) == "1"@ || lower_text(v) == "yes"@ ==> field_update(c, "hide_account_names"@, v) == Ok::<ConfigModel, Seq<char>>(ConfigModel { hide_account_names: true, ..c }),
        lower_text(v) == "false"@ || lower_text(v) == "0"@ || lower_text(v) == "no"@ ==> field_update(c, "hide_account_names"@, v) == Ok::<ConfigModel, Seq<char>>(ConfigModel { hide_account_names: false, ..c }),
        !(lower_text(v) == "true"@ || lower_text(v) == "1"@ || lower_text(v) == "yes"@ || lower_text(v) == "false"@ || lower_text(v) == "0"@ || lower_text(v) == "no"@) ==> field_update(c, "hide_account_names"@, v) == Err::<ConfigModel, Seq<char>>("expected boolean, got: "@ + v),
{
    lemma_decode_hide_account_names(v);
    reveal_strlit("true");
    assert("true"@.len() == 4);
    reveal_strlit("1");
    assert("1"@.len() == 1);
    reveal_strlit("yes");
    assert("yes"@.len() == 3);
    reveal_strlit("false");
    assert("false"@.len() == 5);
    reveal_strlit("0");
    assert("0"@.len() == 1);
    reveal_strlit("no");
    assert("no"@.len() == 2);
    assert("0"@[0] != "1"@[0]);
    reveal_strlit("expected boolean, got: ");
    lemma_change_hide_account_names(c, true, v);
    lemma_change_hide_account_names(c, false, v);
}

/// `beanfun_rename_dismissed` is switched on by `true`, `1` or `yes` and off by `false`, `0` or
/// `no`, in any letter case; any other value is refused.
#[verifier::spinoff_prover]
pub proof fn lemma_set_beanfun_rename_dismissed(c: ConfigModel, v: Seq<char>)
    ensures
        lower_text(v) == "true"@ || lower_text(v) == "1"@ || lower_text(v) == "yes"@ ==> field_update(c, "beanfun_rename_dismissed"@, v) == Ok::<ConfigModel, Seq<char>>(ConfigModel { beanfun_rename_dismissed: true, ..c }),
        lower_text(v) == "false"@ || lower_text(v) == "0"@ || lower_text(v) == "no"@ ==> field_update(c, "beanfun_rename_dismissed"@, v) == Ok::<ConfigModel, Seq<char>>(ConfigModel { beanfun_rename_dismissed: false, ..c }),
        !(lower_text(v) == "true"@ || lower_text(v) == "1"@ || lower_text(v) == "yes"@ || lower_text(v) == "false"@ || lower_text(v) == "0"@ || lower_text(v) == "no"@) ==> field_update(c, "beanfun_rename_dismissed"@, v) == Err::<ConfigModel, Seq<char>>("expected boolean, got: "@ + v),
{
    lemma_decode_beanfun_rename_dismissed(v);
    reveal_strlit("true");
    assert("true"@.len() == 4);
    reveal_strlit("1");
    assert("1"@.len() == 1);
    reveal_strlit("yes");
    assert("yes"@.len() == 3);
    reveal_strlit("false");
    assert("false"@.len() == 5);
    reveal_strlit("0");
    assert("0"@.len() == 1);
    reveal_strlit("no");
    assert("no"@.len() == 2);
    assert("0"@[0] != "1"@[0]);
    reveal_strlit("expected boolean, got: ");
    lemma_change_beanfun_rename_dismissed(c, true, v);
    lemma_change_beanfun_rename_dismissed(c, false, v);
}

/// `cafe_mode` is switched on by `true`, `1` or `yes` and off by `false`, `0` or
/// `no`, in any letter case; any other value is refused.
#[verifier::spinoff_prover]
pub proof fn lemma_set_cafe_mode(c: ConfigModel, v: Seq<char>)
    ensures
        lower_text(v) == "true"@ || lower_text(v) == "1"@ || lower_text(v) == "yes"@ ==> field_update(c, "cafe_mode"@, v) == Ok::<ConfigModel, Seq<char>>(ConfigModel { cafe_mode: true, ..c }),
        lower_text(v) == "false"@ || lower_text(v) == "0"@ || lower_text(v) == "no"@ ==> field_update(c, "cafe_mode"@, v) == Ok::<ConfigModel, Seq<char>>(ConfigModel { cafe_mode: false, ..c }),
        !(lower_text(v) == "true"@ || lower_text(v) == "1"@ || lower_text(v) == "yes"@ || lower_text(v) == "false"@ || lower_text(v) == "0"@ || lower_text(v) == "no"@) ==> field_update(c, "cafe_mode"@, v) == Err::<ConfigModel, Seq<char>>("expected boolean, got: "@ + v),
{
    lemma_decode_cafe_mode(v);
    reveal_strlit("true");
    assert("true"@.len() == 4);
    reveal_strlit("1");
    assert("1"@.len() == 1);
    reveal_strlit("yes");
    assert("yes"@.len() == 3);
    reveal_strlit("false");
    assert("false"@.len() == 5);
    reveal_strlit("0");
    assert("0"@.len() == 1);
    reveal_strlit("no");
    assert("no"@.len() == 2);
    assert("0"@[0] != "1"@[0]);
    reveal_strlit("expected boolean, got: ");
    lemma_change_cafe_mode(c, true, v);
    lemma_change_cafe_mode(c, false, v);
}

/// `window_x` is cleared by an empty value, `null` or `none`, and otherwise
/// set to the value read as an `i32`; a value that is no `i32` is refused.
#[verifier::spinoff_prover]
pub proof fn lemma_set_window_x(c: ConfigModel, v: Seq<char>)
    ensures
        v.len() == 0 || v == "null"@ || v == "none"@ ==> field_update(c, "window_x"@, v) == Ok::<ConfigModel, Seq<char>>(ConfigModel { window_x: None, ..c }),
        !(v.len() == 0 || v == "null"@ || v == "none"@) ==> field_update(c, "window_x"@, v) == (match parse_i32_spec(v) {
            Some(n) => Ok::<ConfigModel, Seq<char>>(ConfigModel { window_x: Some(n), ..c }),
            None => Err::<ConfigModel, Seq<char>>("expected integer, got: "@ + v),
        }),
{
    lemma_decode_window_x(v);
    reveal_strlit("null");
    assert("null"@.len() == 4);
    reveal_strlit("none");
    assert("none"@.len() == 4);
    assert("none"@[1] != "null"@[1]);
    reveal_strlit("expected integer, got: ");
    lemma_change_window_x(c, None, v);
    match parse_i32_spec(v) {
        Some(n) => lemma_change_window_x(c, Some(n), v),
        None => {},
    }
}

/// `window_y` is cleared by an empty value, `null` or `none`, and otherwise
/// set to the value read as an `i32`; a value that is no `i32` is refused.
#[verifier::spinoff_prover]
pub proof fn lemma_set_window_y(c: ConfigModel, v: Seq<char>)
    ensures
        v.len() == 0 || v == "null"@ || v == "none"@ ==> field_update(c, "window_y"@, v) == Ok::<ConfigModel, Seq<char>>(ConfigModel { window_y: None, ..c }),
        !(v.len() == 0 || v == "null"@ || v == "none"@) ==> field_update(c, "window_y"@, v) == (match parse_i32_spec(v) {
            Some(n) => Ok::<ConfigModel, Seq<char>>(ConfigModel { window_y: Some(n), ..c }),
            None => Err::<ConfigModel, Seq<char>>("expected integer, got: "@ + v),
        }),
{
    lemma_decode_window_y(v);
    reveal_strlit("null");
    assert("null"@.len() == 4);
    reveal_strlit("none");
    assert("none"@.len() == 4);
    assert("none"@[1] != "null"@[1]);
    reveal_strlit("expected integer, got: ");
    lemma_change_window_y(c, None, v);
    match parse_i32_spec(v) {
        Some(n) => lemma_change_window_y(c, Some(n), v),
        None => {},
    }
}

/// `window_width` is cleared by an empty value, `null` or `none`, and otherwise
/// set to the value read as an `u32`; a value that is no `u32` is refused.
#[verifier::spinoff_prover]
pub proof fn lemma_set_window_width(c: ConfigModel, v: Seq<char>)
    ensures
        v.len() == 0 || v == "null"@ || v == "none"@ ==> field_update(c, "window_width"@, v) == Ok::<ConfigModel, Seq<char>>(ConfigModel { window_width: None, ..c }),
        !(v.len() == 0 || v == "null"@ || v == "none"@) ==> field_update(c, "window_width"@, v) == (match parse_u32_spec(v) {
            Some(n) => Ok::<ConfigModel, Seq<char>>(ConfigModel { window_width: Some(n), ..c }),
            None => Err::<ConfigModel, Seq<char>>("expected unsigned integer, got: "@ + v),
        }),
{
    lemma_decode_window_width(v);
    reveal_strlit("null");
    assert("null"@.len() == 4);
    reveal_strlit("none");
    assert("none"@.len() == 4);
    assert("none"@[1] != "null"@[1]);
    reveal_strlit("expected unsigned integer, got: ");
    lemma_change_window_width(c, None, v);
    match parse_u32_spec(v) {
        Some(n) => lemma_change_window_width(c, Some(n), v),
        None => {},
    }
}

/// `window_height` is cleared by an empty value, `null` or `none`, and otherwise
/// set to the value read as an `u32`; a value that is no `u32` is refused.
#[verifier::spinoff_prover]
pub proof fn lemma_set_window_height(c: ConfigModel, v: Seq<char>)
    ensures
        v.len() == 0 || v == "null"@ || v == "none"@ ==> field_update(c, "window_height"@, v) == Ok::<ConfigModel, Seq<char>>(ConfigModel { window_height: None, ..c }),
        !(v.len() == 0 || v == "null"@ || v == "none"@) ==> field_update(c, "window_height"@, v) == (match parse_u32_spec(v) {
            Some(n) => Ok::<ConfigModel, Seq<char>>(ConfigModel { window_height: Some(n), ..c }),
            None => Err::<ConfigModel, Seq<char>>("expected unsigned integer, got: "@ + v),
        }),
{
    lemma_decode_window_height(v);
    reveal_strlit("null");
    assert("null"@.len() == 4);
    reveal_strlit("none");
    assert("none"@.len() == 4);
    assert("none"@[1] != "null"@[1]);
    reveal_strlit("expected unsigned integer, got: ");
    lemma_change_window_height(c, None, v);
    match parse_u32_spec(v) {
        Some(n) => lemma_change_window_height(c, Some(n), v),
        None => {},
    }
}

/// `game_path` takes the value as it is given.
#[verifier::spinoff_prover]
pub proof fn lemma_set_game_path(c: ConfigModel, v: Seq<char>)
    ensures
        field_update(c, "game_path"@, v) == Ok::<ConfigModel, Seq<char>>(ConfigModel { game_path: v, ..c }),
{
    lemma_decode_game_path(v);
    lemma_change_game_path(c, v);
}

/// `locale` takes the value as it is given.
#[verifier::spinoff_prover]
pub proof fn lemma_set_locale(c: ConfigModel, v: Seq<char>)
    ensures
        field_update(c, "locale"@, v) == Ok::<ConfigModel, Seq<char>>(ConfigModel { locale: v, ..c }),
{
    lemma_decode_locale(v);
    lemma_change_locale(c, v);
}

/// The account view mode is `list` for `list` in any letter case and `card`
/// for every other value: it is never refused.
#[verifier::spinoff_prover]
pub proof fn lemma_set_account_view_mode(c: ConfigModel, v: Seq<char>)
    ensures
        lower_text(v) == "list"@ ==> field_update(c, "account_view_mode"@, v) == Ok::<ConfigModel, Seq<char>>(ConfigModel { account_view_mode: AccountViewMode::List, ..c }),
        lower_text(v) != "list"@ ==> field_update(c, "account_view_mode"@, v) == Ok::<ConfigModel, Seq<char>>(ConfigModel { account_view_mode: AccountViewMode::Card, ..c }),
{
    lemma_decode_account_view_mode(v);
    reveal_strlit("list");
    assert("list"@.len() == 4);
    reveal_strlit("card");
    assert("card"@.len() == 4);
    assert("card"@[0] != "list"@[0]);
    reveal(ini_account_view_mode);
    lemma_change_account_view_mode(c, AccountViewMode::List, v);
    lemma_change_account_view_mode(c, AccountViewMode::Card, v);
}

/// `__reset__` restores the factory settings, whatever the value.
pub proof fn lemma_reset_key(c: ConfigModel, v: Seq<char>)
    ensures
        field_update(c, "__reset__"@, v) == Ok::<ConfigModel, Seq<char>>(default_config()),
{
    lemma_decode_reset(v);
    reveal(is_reset);
}

/// A key that names no setting is refused, naming the key.
pub proof fn lemma_unknown_key(c: ConfigModel, key: Seq<char>, v: Seq<char>)
    requires
        !(key == "game_path"@ || key == "locale"@ || key == "theme"@ || key == "language"@ || key == "auto_update"@ || key == "skip_play_confirm"@ || key == "auto_start"@ || key == "region"@ || key == "debug_logging"@ || key == "gamepass_incognito"@ || key == "traditional_login"@ || key == "auto_kill_patcher"@ || key == "update_channel"@ || key == "font_size"@ || key == "window_x"@ || key == "window_y"@ || key == "window_width"@ || key == "window_height"@ || key == "accountViewMode"@ || key == "account_view_mode"@ || key == "autoLogin"@ || key == "auto_login"@ || key == "autoLaunchGame"@ || key == "auto_launch_game"@ || key == "webLaunchAutoLaunch"@ || key == "web_launch_auto_launch"@ || key == "webLaunchAutoPaste"@ || key == "web_launch_auto_paste"@ || key == "closeBehavior"@ || key == "close_behavior"@ || key == "hideAccountNames"@ || key == "hide_account_names"@ || key == "beanfunRenameDismissed"@ || key == "beanfun_rename_dismissed"@ || key == "cafeMode"@ || key == "cafe_mode"@ || key == "defaultLoginView"@ || key == "default_login_view"@ || key == "__reset__"@),
    ensures
        field_update(c, key, v) == Err::<ConfigModel, Seq<char>>("unknown config key: "@ + key),
{
}

} // verus!
