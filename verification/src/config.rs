//! Application configuration model: the persisted settings and their defaults.

use vstd::prelude::*;

verus! {

/// Service region of the Beanfun account.
#[derive(Clone, Copy, Debug, PartialEq, Eq, Structural)]
pub enum Region {
    TW,
    HK,
}

/// What happens when the user closes the main window.
#[derive(Clone, Copy, Debug, PartialEq, Eq, Structural)]
pub enum CloseBehavior {
    /// Ask the user each time (quit vs. minimize to tray).
    Ask,
    /// Quit the app.
    Quit,
    /// Minimize to the system tray.
    Tray,
}

/// UI theme selection.
#[derive(Clone, Copy, Debug, PartialEq, Eq, Structural)]
pub enum Theme {
    System,
    Dark,
    Light,
}

/// Supported UI languages.
#[derive(Clone, Copy, Debug, PartialEq, Eq, Structural)]
pub enum Language {
    EnUS,
    ZhTW,
    ZhCN,
}

/// Update channel preference.
#[derive(Clone, Copy, Debug, PartialEq, Eq, Structural)]
pub enum UpdateChannel {
    Release,
    PreRelease,
}

/// UI font size preference.
#[derive(Clone, Copy, Debug, PartialEq, Eq, Structural)]
pub enum FontSize {
    Small,
    Medium,
    Large,
    ExtraLarge,
}

/// Account grid view mode.
#[derive(Clone, Copy, Debug, PartialEq, Eq, Structural)]
pub enum AccountViewMode {
    Card,
    List,
}

/// Default login view shown on startup (TW-only; HK has no QR login).
#[derive(Clone, Copy, Debug, PartialEq, Eq, Structural)]
pub enum DefaultLoginView {
    Normal,
    Qr,
}

impl Default for CloseBehavior {
    fn default() -> (r: Self)
        ensures
            r == CloseBehavior::Ask,
    {
        CloseBehavior::Ask
    }
}

impl Default for AccountViewMode {
    fn default() -> (r: Self)
        ensures
            r == AccountViewMode::Card,
    {
        AccountViewMode::Card
    }
}

impl Default for DefaultLoginView {
    fn default() -> (r: Self)
        ensures
            r == DefaultLoginView::Normal,
    {
        DefaultLoginView::Normal
    }
}

/// Full application configuration persisted as INI.
#[derive(Clone, Debug)]
pub struct AppConfig {
    pub game_path: String,
    pub locale: String,
    pub theme: Theme,
    pub language: Language,
    pub auto_update: bool,
    pub update_channel: UpdateChannel,
    pub skip_play_confirm: bool,
    pub auto_start: bool,
    pub window_x: Option<i32>,
    pub window_y: Option<i32>,
    pub window_width: Option<u32>,
    pub window_height: Option<u32>,
    pub region: Region,
    pub debug_logging: bool,
    pub gamepass_incognito: bool,
    pub font_size: FontSize,
    /// Traditional login mode (default: true).
    /// When true, only GUID + game path are passed to LRProc.
    /// When false, also passes server/port/account/otp args.
    pub traditional_login: bool,
    /// Auto-kill Patcher.exe when launching the game (default: true).
    pub auto_kill_patcher: bool,
    /// Account grid view mode (default: card).
    pub account_view_mode: AccountViewMode,
    /// Auto-login on startup when saved credentials are available (default: false).
    pub auto_login: bool,
    /// Auto-launch game after successful login (default: false).
    pub auto_launch_game: bool,
    /// Web-launch (official-site one-click): auto-open the game (default: true).
    pub web_launch_auto_launch: bool,
    /// Web-launch: auto-fill account/OTP into the game login window (default: true).
    pub web_launch_auto_paste: bool,
    /// What to do when the window is closed (default: ask each time).
    pub close_behavior: CloseBehavior,
    /// Blur game-account / session names in the UI (default: false).
    pub hide_account_names: bool,
    /// The user dismissed the prompt suggesting the exe be renamed to
    /// `Beanfun.exe` (default: false).
    pub beanfun_rename_dismissed: bool,
    /// Café / shared-PC mode: closing the app wipes all local data (default: false).
    pub cafe_mode: bool,
    /// Default login view shown on startup (default: normal).
    pub default_login_view: DefaultLoginView,
}

/// The mathematical value of an [`AppConfig`]: texts as character sequences.
pub struct ConfigModel {
    pub game_path: Seq<char>,
    pub locale: Seq<char>,
    pub theme: Theme,
    pub language: Language,
    pub auto_update: bool,
    pub update_channel: UpdateChannel,
    pub skip_play_confirm: bool,
    pub auto_start: bool,
    pub window_x: Option<i32>,
    pub window_y: Option<i32>,
    pub window_width: Option<u32>,
    pub window_height: Option<u32>,
    pub region: Region,
    pub debug_logging: bool,
    pub gamepass_incognito: bool,
    pub font_size: FontSize,
    pub traditional_login: bool,
    pub auto_kill_patcher: bool,
    pub account_view_mode: AccountViewMode,
    pub auto_login: bool,
    pub auto_launch_game: bool,
    pub web_launch_auto_launch: bool,
    pub web_launch_auto_paste: bool,
    pub close_behavior: CloseBehavior,
    pub hide_account_names: bool,
    pub beanfun_rename_dismissed: bool,
    pub cafe_mode: bool,
    pub default_login_view: DefaultLoginView,
}

impl View for AppConfig {
    type V = ConfigModel;

    open spec fn view(&self) -> ConfigModel {
        ConfigModel {
            game_path: self.game_path@,
            locale: self.locale@,
            theme: self.theme,
            language: self.language,
            auto_update: self.auto_update,
            update_channel: self.update_channel,
            skip_play_confirm: self.skip_play_confirm,
            auto_start: self.auto_start,
            window_x: self.window_x,
            window_y: self.window_y,
            window_width: self.window_width,
            window_height: self.window_height,
            region: self.region,
            debug_logging: self.debug_logging,
            gamepass_incognito: self.gamepass_incognito,
            font_size: self.font_size,
            traditional_login: self.traditional_login,
            auto_kill_patcher: self.auto_kill_patcher,
            account_view_mode: self.account_view_mode,
            auto_login: self.auto_login,
            auto_launch_game: self.auto_launch_game,
            web_launch_auto_launch: self.web_launch_auto_launch,
            web_launch_auto_paste: self.web_launch_auto_paste,
            close_behavior: self.close_behavior,
            hide_account_names: self.hide_account_names,
            beanfun_rename_dismissed: self.beanfun_rename_dismissed,
            cafe_mode: self.cafe_mode,
            default_login_view: self.default_login_view,
        }
    }
}

/// The factory settings.
pub open spec fn default_config() -> ConfigModel {
    ConfigModel {
        game_path: Seq::empty(),
        locale: "zh-TW"@,
        theme: Theme::System,
        language: Language::ZhTW,
        auto_update: true,
        update_channel: UpdateChannel::Release,
        skip_play_confirm: true,
        auto_start: false,
        window_x: None,
        window_y: None,
        window_width: None,
        window_height: None,
        region: Region::HK,
        debug_logging: false,
        gamepass_incognito: true,
        font_size: FontSize::Medium,
        traditional_login: true,
        auto_kill_patcher: true,
        account_view_mode: AccountViewMode::Card,
        auto_login: false,
        auto_launch_game: false,
        web_launch_auto_launch: true,
        web_launch_auto_paste: true,
        close_behavior: CloseBehavior::Ask,
        hide_account_names: false,
        beanfun_rename_dismissed: false,
        cafe_mode: false,
        default_login_view: DefaultLoginView::Normal,
    }
}

/// Default for the settings that are on unless the file says otherwise.
pub fn default_true() -> (r: bool)
    ensures
        r,
{
    true
}

/// Default font size.
pub fn default_font_size() -> (r: FontSize)
    ensures
        r == FontSize::Medium,
{
    FontSize::Medium
}

impl Default for AppConfig {
    fn default() -> (r: Self)
        ensures
            r@ == default_config(),
    {
        AppConfig {
            game_path: String::new(),
            locale: "zh-TW".to_owned(),
            theme: Theme::System,
            language: Language::ZhTW,
            auto_update: true,
            update_channel: UpdateChannel::Release,
            skip_play_confirm: true,
            auto_start: false,
            window_x: None,
            window_y: None,
            window_width: None,
            window_height: None,
            region: Region::HK,
            debug_logging: false,
            gamepass_incognito: true,
            font_size: FontSize::Medium,
            traditional_login: true,
            auto_kill_patcher: true,
            account_view_mode: AccountViewMode::Card,
            auto_login: false,
            auto_launch_game: false,
            web_launch_auto_launch: true,
            web_launch_auto_paste: true,
            close_behavior: CloseBehavior::Ask,
            hide_account_names: false,
            beanfun_rename_dismissed: false,
            cafe_mode: false,
            default_login_view: DefaultLoginView::Normal,
        }
    }
}

impl PartialEq for AppConfig {
    fn eq(&self, other: &Self) -> (r: bool) {
        let same_texts = self.game_path == other.game_path && self.locale == other.locale;
        let same_x = self.window_x == other.window_x;
        let same_y = self.window_y == other.window_y;
        let same_width = self.window_width == other.window_width;
        let same_height = self.window_height == other.window_height;
        let same_rest = self.theme == other.theme && self.language == other.language && self.auto_update == other.auto_update && self.update_channel == other.update_channel && self.skip_play_confirm == other.skip_play_confirm && self.auto_start == other.auto_start && self.region == other.region && self.debug_logging == other.debug_logging && self.gamepass_incognito == other.gamepass_incognito && self.font_size == other.font_size && self.traditional_login == other.traditional_login && self.auto_kill_patcher == other.auto_kill_patcher && self.account_view_mode == other.account_view_mode && self.auto_login == other.auto_login && self.auto_launch_game == other.auto_launch_game && self.web_launch_auto_launch == other.web_launch_auto_launch && self.web_launch_auto_paste == other.web_launch_auto_paste && self.close_behavior == other.close_behavior && self.hide_account_names == other.hide_account_names && self.beanfun_rename_dismissed == other.beanfun_rename_dismissed && self.cafe_mode == other.cafe_mode && self.default_login_view == other.default_login_view;
        same_texts && same_x && same_y && same_width && same_height && same_rest
    }
}

impl vstd::std_specs::cmp::PartialEqSpecImpl for AppConfig {
    open spec fn obeys_eq_spec() -> bool {
        true
    }

    open spec fn eq_spec(&self, other: &Self) -> bool {
        &&& self.game_path@ == other.game_path@
        &&& self.locale@ == other.locale@
        &&& self.theme == other.theme
        &&& self.language == other.language
        &&& self.auto_update == other.auto_update
        &&& self.update_channel == other.update_channel
        &&& self.skip_play_confirm == other.skip_play_confirm
        &&& self.auto_start == other.auto_start
        &&& self.window_x == other.window_x
        &&& self.window_y == other.window_y
        &&& self.window_width == other.window_width
        &&& self.window_height == other.window_height
        &&& self.region == other.region
        &&& self.debug_logging == other.debug_logging
        &&& self.gamepass_incognito == other.gamepass_incognito
        &&& self.font_size == other.font_size
        &&& self.traditional_login == other.traditional_login
        &&& self.auto_kill_patcher == other.auto_kill_patcher
        &&& self.account_view_mode == other.account_view_mode
        &&& self.auto_login == other.auto_login
        &&& self.auto_launch_game == other.auto_launch_game
        &&& self.web_launch_auto_launch == other.web_launch_auto_launch
        &&& self.web_launch_auto_paste == other.web_launch_auto_paste
        &&& self.close_behavior == other.close_behavior
        &&& self.hide_account_names == other.hide_account_names
        &&& self.beanfun_rename_dismissed == other.beanfun_rename_dismissed
        &&& self.cafe_mode == other.cafe_mode
        &&& self.default_login_view == other.default_login_view
    }
}

} // verus!
