//! Decisions of the application shell: what to do when a window is moved,
//! closed or destroyed, whether a saved window position is still on a
//! monitor, what startup does, how the launcher was invoked, the tray menu
//! and web view upkeep.
//!
//! The shell performs the actions; the decisions are made here.

use vstd::prelude::*;
use crate::config::{AppConfig, CloseBehavior, ConfigModel, default_config, Language, UpdateChannel};
use crate::text::{chars_of, eq_lit, is_ws, push_char, string_of_range, trim, trim_end, trim_start, trim_range};

verus! {

/// Something that happened to one of the application's windows.
#[derive(Clone, Copy, Debug, PartialEq, Eq, Structural)]
pub enum WindowEvent {
    /// The window gained (`true`) or lost (`false`) the focus.
    Focused(bool),
    Resized,
    /// The window moved to this physical position.
    Moved { x: i32, y: i32 },
    /// The user asked to close the window (title bar X or Alt+F4).
    CloseRequested,
    Destroyed,
}

/// An event sent to the frontend.
#[derive(Clone, Copy, Debug, PartialEq, Eq, Structural)]
pub enum ShellNotice {
    /// `app-close-requested`: ask the user whether to quit or go to the tray.
    AppCloseRequested,
    /// `debug-window-closed`: the debug console was closed.
    DebugWindowClosed,
    /// `gamepass-login-cancelled`.
    GamepassLoginCancelled,
    /// `recaptcha-cancelled`.
    RecaptchaCancelled,
    /// `regular-login-cancelled`.
    RegularLoginCancelled,
}

/// One thing for the shell to do, in order.
#[derive(Clone, Copy, Debug, PartialEq, Eq, Structural)]
pub enum ShellAction {
    /// Strip the frame border and round the corners again (Windows).
    RestyleFrame,
    /// Remember the main window position in the configuration.
    RecordPosition { x: i32, y: i32 },
    /// Keep the window open for now.
    PreventClose,
    /// Café mode: delete every local trace of the user.
    WipeLocalData,
    /// Quit gracefully by closing every window.
    RequestQuit,
    /// Hide the window (minimize to the tray).
    HideWindow,
    /// Send an event to the frontend.
    Notify(ShellNotice),
    /// Clear all logged-in sessions.
    ClearSessions,
    /// Turn debug logging off in the configuration.
    DisableDebugLogging,
    /// Write the configuration file.
    SaveConfig,
    /// Close the debug console window if it is open.
    DestroyDebugConsole,
}

/// The name under which a notice is sent to the frontend.
pub open spec fn notice_name(n: ShellNotice) -> Seq<char> {
    match n {
        ShellNotice::AppCloseRequested => "app-close-requested"@,
        ShellNotice::DebugWindowClosed => "debug-window-closed"@,
        ShellNotice::GamepassLoginCancelled => "gamepass-login-cancelled"@,
        ShellNotice::RecaptchaCancelled => "recaptcha-cancelled"@,
        ShellNotice::RegularLoginCancelled => "regular-login-cancelled"@,
    }
}

/// The frontend event name of a notice.
pub fn notice_event_name(n: ShellNotice) -> (s: &'static str)
    ensures
        s@ == notice_name(n),
{
    match n {
        ShellNotice::AppCloseRequested => "app-close-requested",
        ShellNotice::DebugWindowClosed => "debug-window-closed",
        ShellNotice::GamepassLoginCancelled => "gamepass-login-cancelled",
        ShellNotice::RecaptchaCancelled => "recaptcha-cancelled",
        ShellNotice::RegularLoginCancelled => "regular-login-cancelled",
    }
}

/// What closing the main window does. Café mode overrides the configured
/// behaviour: wipe every local trace and quit. Without a readable
/// configuration, the behaviour is to ask.
pub open spec fn close_actions(config: Option<ConfigModel>) -> Seq<ShellAction> {
    let cafe = match config {
        Some(c) => c.cafe_mode,
        None => false,
    };
    let behavior = match config {
        Some(c) => c.close_behavior,
        None => CloseBehavior::Ask,
    };
    if cafe {
        seq![ShellAction::PreventClose, ShellAction::WipeLocalData, ShellAction::RequestQuit]
    } else {
        match behavior {
            CloseBehavior::Quit => seq![ShellAction::PreventClose, ShellAction::RequestQuit],
            CloseBehavior::Tray => seq![ShellAction::PreventClose, ShellAction::HideWindow],
            CloseBehavior::Ask => seq![
                ShellAction::PreventClose,
                ShellAction::Notify(ShellNotice::AppCloseRequested),
            ],
        }
    }
}

/// What the destruction of a window does, by its label.
pub open spec fn destroyed_actions(
    label: Seq<char>,
    config: Option<ConfigModel>,
    recaptcha_delivered: bool,
) -> Seq<ShellAction> {
    if label == "main"@ {
        match config {
            Some(c) => if c.cafe_mode {
                seq![ShellAction::ClearSessions, ShellAction::DestroyDebugConsole]
            } else {
                seq![
                    ShellAction::ClearSessions,
                    ShellAction::SaveConfig,
                    ShellAction::DestroyDebugConsole,
                ]
            },
            None => seq![ShellAction::DestroyDebugConsole],
        }
    } else if label == "debug-console"@ {
        match config {
            Some(c) => if c.debug_logging {
                seq![
                    ShellAction::DisableDebugLogging,
                    ShellAction::SaveConfig,
                    ShellAction::Notify(ShellNotice::DebugWindowClosed),
                ]
            } else {
                seq![ShellAction::Notify(ShellNotice::DebugWindowClosed)]
            },
            None => Seq::empty(),
        }
    } else if label == "gamepass-login"@ {
        seq![ShellAction::Notify(ShellNotice::GamepassLoginCancelled)]
    } else if label == "recaptcha_window"@ {
        if recaptcha_delivered {
            Seq::empty()
        } else {
            seq![ShellAction::Notify(ShellNotice::RecaptchaCancelled)]
        }
    } else if label == "web-login"@ {
        seq![ShellAction::Notify(ShellNotice::RegularLoginCancelled)]
    } else {
        Seq::empty()
    }
}

/// The actions for an event on the window labelled `label`.
///
/// `config` is the configuration when the shell could read it (absent when
/// the state is not set up yet or the configuration is busy);
/// `quit_requested` tells whether a real quit is in progress;
/// `recaptcha_delivered` tells whether the reCAPTCHA window delivered its token
/// (it only matters for that window).
pub open spec fn window_actions(
    label: Seq<char>,
    event: WindowEvent,
    quit_requested: bool,
    config: Option<ConfigModel>,
    recaptcha_delivered: bool,
) -> Seq<ShellAction> {
    match event {
        WindowEvent::Focused(gained) => if gained {
            seq![ShellAction::RestyleFrame]
        } else {
            Seq::empty()
        },
        WindowEvent::Resized => seq![ShellAction::RestyleFrame],
        WindowEvent::Moved { x, y } => if label == "main"@ && config is Some {
            seq![ShellAction::RestyleFrame, ShellAction::RecordPosition { x, y }]
        } else {
            seq![ShellAction::RestyleFrame]
        },
        WindowEvent::CloseRequested => if label == "main"@ && !quit_requested {
            close_actions(config)
        } else {
            Seq::empty()
        },
        WindowEvent::Destroyed => destroyed_actions(label, config, recaptcha_delivered),
    }
}

/// The configuration's view, when there is one.
pub open spec fn config_view(config: Option<&AppConfig>) -> Option<ConfigModel> {
    match config {
        Some(c) => Some(c@),
        None => None,
    }
}

fn close_request_actions(config: Option<&AppConfig>) -> (r: Vec<ShellAction>)
    ensures
        r@ == close_actions(config_view(config)),
{
    let (cafe, behavior) = match config {
        Some(c) => (c.cafe_mode, c.close_behavior),
        None => (false, CloseBehavior::Ask),
    };
    if cafe {
        return vec![ShellAction::PreventClose, ShellAction::WipeLocalData, ShellAction::RequestQuit];
    }
    match behavior {
        CloseBehavior::Quit => vec![ShellAction::PreventClose, ShellAction::RequestQuit],
        CloseBehavior::Tray => vec![ShellAction::PreventClose, ShellAction::HideWindow],
        CloseBehavior::Ask => vec![
            ShellAction::PreventClose,
            ShellAction::Notify(ShellNotice::AppCloseRequested),
        ],
    }
}

fn destroyed_window_actions(label: &String, config: Option<&AppConfig>, recaptcha_delivered: bool) -> (r: Vec<ShellAction>)
    ensures
        r@ == destroyed_actions(label@, config_view(config), recaptcha_delivered),
{
    if eq_lit(label, "main") {
        match config {
            Some(c) => if c.cafe_mode {
                vec![ShellAction::ClearSessions, ShellAction::DestroyDebugConsole]
            } else {
                vec![
                    ShellAction::ClearSessions,
                    ShellAction::SaveConfig,
                    ShellAction::DestroyDebugConsole,
                ]
            },
            None => vec![ShellAction::DestroyDebugConsole],
        }
    } else if eq_lit(label, "debug-console") {
        match config {
            Some(c) => if c.debug_logging {
                vec![
                    ShellAction::DisableDebugLogging,
                    ShellAction::SaveConfig,
                    ShellAction::Notify(ShellNotice::DebugWindowClosed),
                ]
            } else {
                vec![ShellAction::Notify(ShellNotice::DebugWindowClosed)]
            },
            None => Vec::new(),
        }
    } else if eq_lit(label, "gamepass-login") {
        vec![ShellAction::Notify(ShellNotice::GamepassLoginCancelled)]
    } else if eq_lit(label, "recaptcha_window") {
        if recaptcha_delivered {
            Vec::new()
        } else {
            vec![ShellAction::Notify(ShellNotice::RecaptchaCancelled)]
        }
    } else if eq_lit(label, "web-login") {
        vec![ShellAction::Notify(ShellNotice::RegularLoginCancelled)]
    } else {
        Vec::new()
    }
}

/// The actions for an event on the window labelled `label` (see
/// [`window_actions`]).
pub fn window_event_actions(
    label: &str,
    event: WindowEvent,
    quit_requested: bool,
    config: Option<&AppConfig>,
    recaptcha_delivered: bool,
) -> (r: Vec<ShellAction>)
    ensures
        r@ == window_actions(label@, event, quit_requested, config_view(config), recaptcha_delivered),
{
    let name: String = label.to_owned();
    match event {
        WindowEvent::Focused(gained) => if gained {
            vec![ShellAction::RestyleFrame]
        } else {
            Vec::new()
        },
        WindowEvent::Resized => vec![ShellAction::RestyleFrame],
        WindowEvent::Moved { x, y } => if eq_lit(&name, "main") && config.is_some() {
            vec![ShellAction::RestyleFrame, ShellAction::RecordPosition { x, y }]
        } else {
            vec![ShellAction::RestyleFrame]
        },
        WindowEvent::CloseRequested => if eq_lit(&name, "main") && !quit_requested {
            close_request_actions(config)
        } else {
            Vec::new()
        },
        WindowEvent::Destroyed => destroyed_window_actions(&name, config, recaptcha_delivered),
    }
}

/// In café mode, closing the main window (when no quit is under way) never
/// hides it to the tray: it wipes the local data and quits; and destroying
/// the main window never writes the configuration back.
pub proof fn lemma_cafe_mode_leaves_no_trace(c: ConfigModel, quit_requested: bool, delivered: bool)
    requires
        c.cafe_mode,
    ensures
        window_actions("main"@, WindowEvent::CloseRequested, quit_requested, Some(c), delivered)
            == (if quit_requested {
            Seq::<ShellAction>::empty()
        } else {
            seq![ShellAction::PreventClose, ShellAction::WipeLocalData, ShellAction::RequestQuit]
        }),
        !window_actions("main"@, WindowEvent::Destroyed, quit_requested, Some(c), delivered)
            .contains(ShellAction::SaveConfig),
{
    let d = window_actions("main"@, WindowEvent::Destroyed, quit_requested, Some(c), delivered);
    assert(d == seq![ShellAction::ClearSessions, ShellAction::DestroyDebugConsole]);
    if d.contains(ShellAction::SaveConfig) {
        let i = choose|i: int| 0 <= i < d.len() && d[i] == ShellAction::SaveConfig;
        assert(i == 0 || i == 1);
    }
}

/// Closing the main window while no quit is under way always keeps it open
/// first: the window itself is never simply closed.
pub proof fn lemma_main_close_is_intercepted(config: Option<ConfigModel>, delivered: bool)
    ensures
        window_actions("main"@, WindowEvent::CloseRequested, false, config, delivered).len() > 0,
        window_actions("main"@, WindowEvent::CloseRequested, false, config, delivered)[0]
            == ShellAction::PreventClose,
{
}

/// Gaining the focus, resizing and moving restyle the frame of every window,
/// whatever its label; losing the focus does nothing. Only a move of the main
/// window, with the configuration at hand, records the position moved to.
pub proof fn lemma_frame_restyled_on_every_window(
    label: Seq<char>,
    quit_requested: bool,
    config: Option<ConfigModel>,
    delivered: bool,
    x: i32,
    y: i32,
)
    ensures
        window_actions(label, WindowEvent::Focused(true), quit_requested, config, delivered)
            == seq![ShellAction::RestyleFrame],
        window_actions(label, WindowEvent::Focused(false), quit_requested, config, delivered)
            == Seq::<ShellAction>::empty(),
        window_actions(label, WindowEvent::Resized, quit_requested, config, delivered)
            == seq![ShellAction::RestyleFrame],
        window_actions(label, WindowEvent::Moved { x, y }, quit_requested, config, delivered)
            == (if label == "main"@ && config is Some {
            seq![ShellAction::RestyleFrame, ShellAction::RecordPosition { x, y }]
        } else {
            seq![ShellAction::RestyleFrame]
        }),
{
}

/// Closing the main window while no quit is under way, outside café mode,
/// follows the configured behaviour: quit, hide to the tray, or ask the
/// frontend; the window is kept open first in each case. Closing any other
/// window, or closing during a quit, is let through.
pub proof fn lemma_close_follows_behaviour(
    c: ConfigModel,
    label: Seq<char>,
    quit_requested: bool,
    delivered: bool,
)
    ensures
        !c.cafe_mode && c.close_behavior == CloseBehavior::Quit ==> window_actions(
            "main"@,
            WindowEvent::CloseRequested,
            false,
            Some(c),
            delivered,
        ) == seq![ShellAction::PreventClose, ShellAction::RequestQuit],
        !c.cafe_mode && c.close_behavior == CloseBehavior::Tray ==> window_actions(
            "main"@,
            WindowEvent::CloseRequested,
            false,
            Some(c),
            delivered,
        ) == seq![ShellAction::PreventClose, ShellAction::HideWindow],
        !c.cafe_mode && c.close_behavior == CloseBehavior::Ask ==> window_actions(
            "main"@,
            WindowEvent::CloseRequested,
            false,
            Some(c),
            delivered,
        ) == seq![ShellAction::PreventClose, ShellAction::Notify(ShellNotice::AppCloseRequested)],
        window_actions("main"@, WindowEvent::CloseRequested, false, None, delivered) == seq![
            ShellAction::PreventClose,
            ShellAction::Notify(ShellNotice::AppCloseRequested),
        ],
        label != "main"@ ==> window_actions(label, WindowEvent::CloseRequested, quit_requested, Some(c), delivered)
            == Seq::<ShellAction>::empty(),
        window_actions(label, WindowEvent::CloseRequested, true, Some(c), delivered) == Seq::<
            ShellAction,
        >::empty(),
{
}

/// Closing a login window tells the frontend that the login was cancelled,
/// whatever the configuration; the reCAPTCHA window does so only when it did
/// not deliver its token.
pub proof fn lemma_login_windows_report_cancel(config: Option<ConfigModel>, q: bool, delivered: bool)
    ensures
        window_actions("gamepass-login"@, WindowEvent::Destroyed, q, config, delivered) == seq![
            ShellAction::Notify(ShellNotice::GamepassLoginCancelled),
        ],
        window_actions("web-login"@, WindowEvent::Destroyed, q, config, delivered) == seq![
            ShellAction::Notify(ShellNotice::RegularLoginCancelled),
        ],
        window_actions("recaptcha_window"@, WindowEvent::Destroyed, q, config, false) == seq![
            ShellAction::Notify(ShellNotice::RecaptchaCancelled),
        ],
        window_actions("recaptcha_window"@, WindowEvent::Destroyed, q, config, true) == Seq::<
            ShellAction,
        >::empty(),
{
    reveal_strlit("main");
    reveal_strlit("debug-console");
    reveal_strlit("gamepass-login");
    reveal_strlit("recaptcha_window");
    reveal_strlit("web-login");
    assert("main"@.len() == 4);
    assert("debug-console"@.len() == 13);
    assert("gamepass-login"@.len() == 14);
    assert("recaptcha_window"@.len() == 16);
    assert("web-login"@.len() == 9);
}

/// Destroying the main window clears the sessions and closes the debug
/// console; outside café mode it saves the configuration in between.
/// Destroying the debug console turns debug logging off and saves only when
/// it was on, and always tells the frontend.
pub proof fn lemma_destroy_main_and_console(c: ConfigModel, q: bool, delivered: bool)
    ensures
        !c.cafe_mode ==> window_actions("main"@, WindowEvent::Destroyed, q, Some(c), delivered)
            == seq![
            ShellAction::ClearSessions,
            ShellAction::SaveConfig,
            ShellAction::DestroyDebugConsole,
        ],
        c.cafe_mode ==> window_actions("main"@, WindowEvent::Destroyed, q, Some(c), delivered)
            == seq![ShellAction::ClearSessions, ShellAction::DestroyDebugConsole],
        c.debug_logging ==> window_actions("debug-console"@, WindowEvent::Destroyed, q, Some(c), delivered)
            == seq![
            ShellAction::DisableDebugLogging,
            ShellAction::SaveConfig,
            ShellAction::Notify(ShellNotice::DebugWindowClosed),
        ],
        !c.debug_logging ==> window_actions("debug-console"@, WindowEvent::Destroyed, q, Some(c), delivered)
            == seq![ShellAction::Notify(ShellNotice::DebugWindowClosed)],
{
    reveal_strlit("main");
    reveal_strlit("debug-console");
    assert("main"@.len() == 4);
    assert("debug-console"@.len() == 13);
}

/// Records the main window's position.
pub fn record_position(config: &mut AppConfig, x: i32, y: i32)
    ensures
        final(config)@ == (ConfigModel { window_x: Some(x), window_y: Some(y), ..old(config)@ }),
{
    config.window_x = Some(x);
    config.window_y = Some(y);
}

/// Turns debug logging off.
pub fn disable_debug_logging(config: &mut AppConfig)
    ensures
        final(config)@ == (ConfigModel { debug_logging: false, ..old(config)@ }),
{
    config.debug_logging = false;
}

// ---------------------------------------------------------------------------
// Saved window position
// ---------------------------------------------------------------------------

/// A monitor's area in physical pixels.
#[derive(Clone, Copy, Debug, PartialEq, Eq, Structural)]
pub struct MonitorArea {
    pub x: i32,
    pub y: i32,
    pub width: u32,
    pub height: u32,
}

/// Right edge as the shell computes it (the width taken as an `i32`).
pub open spec fn right_edge(m: MonitorArea) -> int {
    m.x + (m.width as i32)
}

/// Bottom edge as the shell computes it (the height taken as an `i32`).
pub open spec fn bottom_edge(m: MonitorArea) -> int {
    m.y + (m.height as i32)
}

/// Whether the point lies on the monitor.
pub open spec fn on_monitor(x: i32, y: i32, m: MonitorArea) -> bool {
    x >= m.x && x < right_edge(m) && y >= m.y && y < bottom_edge(m)
}

pub open spec fn fits_i32(v: int) -> bool {
    i32::MIN <= v <= i32::MAX
}

/// The test of monitor `m` computes only edges that fit in an `i32`: the
/// right edge once the point is not left of the monitor, the bottom edge
/// once it is also left of the right edge and not above the monitor.
pub open spec fn monitor_test_fits(x: i32, y: i32, m: MonitorArea) -> bool {
    &&& x >= m.x ==> fits_i32(right_edge(m))
    &&& (x >= m.x && x < right_edge(m) && y >= m.y) ==> fits_i32(bottom_edge(m))
}

/// Testing the monitors from position `i` on, in order and stopping at the
/// first that holds the point, computes only edges that fit in an `i32`.
pub open spec fn scan_fits(x: i32, y: i32, ms: Seq<MonitorArea>, i: int) -> bool
    decreases ms.len() - i,
{
    if i < 0 || i >= ms.len() {
        true
    } else {
        monitor_test_fits(x, y, ms[i]) && (on_monitor(x, y, ms[i]) || scan_fits(x, y, ms, i + 1))
    }
}

/// For a monitor whose width and height fit in an `i32`, a point is on it
/// exactly when it lies between the left edge (included) and the right edge
/// (excluded), and between the top edge (included) and the bottom edge
/// (excluded). So a monitor holds its own top-left corner and its top and
/// left edges.
pub proof fn lemma_on_monitor_bounds(x: i32, y: i32, m: MonitorArea)
    requires
        m.width <= i32::MAX,
        m.height <= i32::MAX,
    ensures
        on_monitor(x, y, m) <==> (m.x <= x < m.x + m.width && m.y <= y < m.y + m.height),
        m.width > 0 && m.height > 0 ==> on_monitor(m.x, m.y, m),
        m.width > 0 && m.height > 0 && m.x <= x < m.x + m.width ==> on_monitor(x, m.y, m),
        m.width > 0 && m.height > 0 && m.y <= y < m.y + m.height ==> on_monitor(m.x, y, m),
{
}

/// Monitors whose right and bottom edges fit in an `i32` can always be
/// tested, wherever the point is.
pub proof fn lemma_scan_fits_on_ordinary_monitors(x: i32, y: i32, ms: Seq<MonitorArea>, i: int)
    requires
        forall|j: int|
            0 <= j < ms.len() ==> (#[trigger] ms[j]).width <= i32::MAX && ms[j].height <= i32::MAX
                && ms[j].x + ms[j].width <= i32::MAX && ms[j].y + ms[j].height <= i32::MAX,
    ensures
        scan_fits(x, y, ms, i),
    decreases ms.len() - i,
{
    if 0 <= i < ms.len() {
        let m = ms[i];
        assert(m.width <= i32::MAX && m.height <= i32::MAX);
        lemma_scan_fits_on_ordinary_monitors(x, y, ms, i + 1);
    }
}

/// Whether a saved position lies on any connected monitor.
pub fn position_on_screen(x: i32, y: i32, monitors: &Vec<MonitorArea>) -> (r: bool)
    requires
        scan_fits(x, y, monitors@, 0),
    ensures
        r == exists|i: int| 0 <= i < monitors.len() && on_monitor(x, y, #[trigger] monitors@[i]),
{
    let mut i: usize = 0;
    while i < monitors.len()
        invariant
            i <= monitors.len(),
            scan_fits(x, y, monitors@, i as int),
            forall|j: int| 0 <= j < i ==> !on_monitor(x, y, #[trigger] monitors@[j]),
        decreases monitors.len() - i,
    {
        let m = monitors[i];
        if x >= m.x {
            let right = m.x + (m.width as i32);
            if x < right && y >= m.y {
                let bottom = m.y + (m.height as i32);
                if y < bottom {
                    assert(on_monitor(x, y, monitors@[i as int]));
                    return true;
                }
            }
        }
        i = i + 1;
    }
    false
}

/// Whether the test of each monitor, in order up to the first that holds the
/// point, computes only edges that fit in an `i32` (see [`scan_fits`]).
pub fn edges_fit(x: i32, y: i32, monitors: &Vec<MonitorArea>) -> (r: bool)
    ensures
        r == scan_fits(x, y, monitors@, 0),
{
    let mut i: usize = 0;
    while i < monitors.len()
        invariant
            i <= monitors.len(),
            scan_fits(x, y, monitors@, 0) == scan_fits(x, y, monitors@, i as int),
        decreases monitors.len() - i,
    {
        let m = monitors[i];
        let right: i64 = (m.x as i64) + ((m.width as i32) as i64);
        let bottom: i64 = (m.y as i64) + ((m.height as i32) as i64);
        let right_fits = -2147483648i64 <= right && right <= 2147483647i64;
        let bottom_fits = -2147483648i64 <= bottom && bottom <= 2147483647i64;
        if x >= m.x && !right_fits {
            return false;
        }
        if x >= m.x && (x as i64) < right && y >= m.y && !bottom_fits {
            return false;
        }
        if x >= m.x && (x as i64) < right && y >= m.y && (y as i64) < bottom {
            return true;
        }
        i = i + 1;
    }
    true
}

/// Whether a saved position lies on any connected monitor, when that can be
/// told without an edge overflowing an `i32`; `None` otherwise.
pub fn position_on_screen_checked(x: i32, y: i32, monitors: &Vec<MonitorArea>) -> (r: Option<bool>)
    ensures
        r is Some <==> scan_fits(x, y, monitors@, 0),
        r matches Some(b) ==> b == exists|i: int|
            0 <= i < monitors.len() && on_monitor(x, y, #[trigger] monitors@[i]),
{
    if edges_fit(x, y, monitors) {
        Some(position_on_screen(x, y, monitors))
    } else {
        None
    }
}

/// The saved main-window position, when both coordinates are set.
pub fn saved_position(config: &AppConfig) -> (r: Option<(i32, i32)>)
    ensures
        r == (match (config.window_x, config.window_y) {
            (Some(x), Some(y)) => Some((x, y)),
            _ => None,
        }),
{
    match (config.window_x, config.window_y) {
        (Some(x), Some(y)) => Some((x, y)),
        _ => None,
    }
}

// ---------------------------------------------------------------------------
// Startup
// ---------------------------------------------------------------------------

/// The configuration to start with: the one loaded from disk, or the
/// factory settings when it could not be loaded.
pub fn startup_config(loaded: Option<AppConfig>) -> (r: AppConfig)
    ensures
        r@ == (match loaded {
            Some(c) => c@,
            None => default_config(),
        }),
{
    match loaded {
        Some(c) => c,
        None => AppConfig::default(),
    }
}

/// The game path is detected at startup only when none is set.
pub fn needs_game_path_detection(config: &AppConfig) -> (r: bool)
    ensures
        r == (config.game_path@.len() == 0),
{
    config.game_path.as_str().is_empty()
}

/// Takes a detected game path into the configuration.
pub fn set_detected_game_path(config: &mut AppConfig, path: String)
    ensures
        final(config)@ == (ConfigModel { game_path: path@, ..old(config)@ }),
{
    config.game_path = path;
}

/// The update check looks at pre-releases only on the pre-release channel.
pub fn includes_prereleases(config: &AppConfig) -> (r: bool)
    ensures
        r == (config.update_channel == UpdateChannel::PreRelease),
{
    match config.update_channel {
        UpdateChannel::PreRelease => true,
        UpdateChannel::Release => false,
    }
}

/// The web view's scale factor is forced only when the text size differs
/// from its default of 100 %.
pub fn text_scale_override_needed(text_scale: u32) -> (r: bool)
    ensures
        r == (text_scale != 100),
{
    text_scale != 100
}

// ---------------------------------------------------------------------------
// Invocation and tray menu
// ---------------------------------------------------------------------------

/// The helper script starts the launcher as `--web-launch <args>`: the tag is
/// dropped and remembered (the launch then stays quiet); any other argument
/// list is kept as it is.
pub fn split_web_launch_args(raw: Vec<String>) -> (r: (Vec<String>, bool))
    ensures
        raw.len() > 0 && raw[0]@ == "--web-launch"@ ==> r.1 && r.0@ == raw@.drop_first(),
        !(raw.len() > 0 && raw[0]@ == "--web-launch"@) ==> !r.1 && r.0@ == raw@,
{
    if raw.len() > 0 && eq_lit(&raw[0], "--web-launch") {
        let mut rest: Vec<String> = Vec::new();
        let mut i: usize = 1;
        while i < raw.len()
            invariant
                1 <= i <= raw.len(),
                rest@ == raw@.subrange(1, i as int),
            decreases raw.len() - i,
        {
            rest.push(raw[i].clone());
            assert(rest@ =~= raw@.subrange(1, i + 1));
            i = i + 1;
        }
        assert(raw@.subrange(1, raw.len() as int) =~= raw@.drop_first());
        (rest, true)
    } else {
        (raw, false)
    }
}

/// The language of the tray menu: the configured one, Traditional Chinese
/// when the configuration cannot be read.
pub open spec fn tray_language(config: Option<ConfigModel>) -> Language {
    match config {
        Some(c) => c.language,
        None => Language::ZhTW,
    }
}

/// The tray menu labels ("show the main window", "quit") in the tray
/// language.
pub fn tray_labels(config: Option<&AppConfig>) -> (r: (&'static str, &'static str))
    ensures
        tray_language(config_view(config)) == Language::EnUS ==> r.0@ == "Show MapleLink"@
            && r.1@ == "Quit"@,
        tray_language(config_view(config)) == Language::ZhCN ==> r.0@ == "显示主窗口"@ && r.1@
            == "退出"@,
        tray_language(config_view(config)) == Language::ZhTW ==> r.0@ == "顯示主視窗"@ && r.1@
            == "結束"@,
{
    let language = match config {
        Some(c) => c.language,
        None => Language::ZhTW,
    };
    match language {
        Language::EnUS => ("Show MapleLink", "Quit"),
        Language::ZhCN => ("显示主窗口", "退出"),
        Language::ZhTW => ("顯示主視窗", "結束"),
    }
}

/// What a tray menu entry asks for.
#[derive(Clone, Copy, Debug, PartialEq, Eq, Structural)]
pub enum TrayCommand {
    ShowMainWindow,
    Quit,
}

/// The command of the tray menu entry with this id (`tray_show`,
/// `tray_quit`); other ids do nothing.
pub fn tray_menu_command(id: &str) -> (r: Option<TrayCommand>)
    ensures
        r == (if id@ == "tray_show"@ {
            Some(TrayCommand::ShowMainWindow)
        } else if id@ == "tray_quit"@ {
            Some(TrayCommand::Quit)
        } else {
            None
        }),
{
    let name: String = id.to_owned();
    if eq_lit(&name, "tray_show") {
        Some(TrayCommand::ShowMainWindow)
    } else if eq_lit(&name, "tray_quit") {
        Some(TrayCommand::Quit)
    } else {
        None
    }
}

// ---------------------------------------------------------------------------
// Web view upkeep
// ---------------------------------------------------------------------------

/// The cached web view data is wiped once per build: when the build is known
/// (non-empty id) and the marker file (read as empty when missing) does not
/// hold that id, surrounding whitespace aside.
pub open spec fn cleanup_needed(build_id: Seq<char>, marker: Seq<char>) -> bool {
    build_id.len() > 0 && trim(marker) != build_id
}

/// Whether the cached web view data must be wiped for this build.
pub fn webview_cleanup_needed(build_id: &str, marker: &str) -> (r: bool)
    ensures
        r == cleanup_needed(build_id@, marker@),
{
    if build_id.is_empty() {
        return false;
    }
    let id: String = build_id.to_owned();
    let v = chars_of(marker);
    let (a, b) = trim_range(&v, 0, v.len());
    assert(v@.subrange(0, v.len() as int) =~= marker@);
    let trimmed = string_of_range(&v, a, b);
    !(trimmed == id)
}

/// Whether `p` occurs in `s` as a contiguous part.
pub open spec fn contains_text(s: Seq<char>, p: Seq<char>) -> bool {
    exists|i: int| 0 <= i && i + p.len() <= s.len() && #[trigger] s.subrange(i, i + p.len()) == p
}

/// The switch that forces the web view's device scale factor.
pub open spec fn scale_switch() -> Seq<char> {
    "--force-device-scale-factor"@
}

/// The new value of the web view's extra browser arguments once the scale
/// switch `arg` is to be added: `arg` when there were none, the old value, a
/// space and `arg` when the old value has no scale switch yet, and no change
/// (`None`) otherwise.
pub open spec fn browser_args_with(existing: Option<Seq<char>>, arg: Seq<char>) -> Option<Seq<char>> {
    match existing {
        None => Some(arg),
        Some(e) => if contains_text(e, scale_switch()) {
            None
        } else {
            Some(e + seq![' '] + arg)
        },
    }
}

/// The characters of an optional text.
pub open spec fn text_view(t: Option<&str>) -> Option<Seq<char>> {
    match t {
        Some(e) => Some(e@),
        None => None,
    }
}

/// Once the marker holds the build id that the wipe was made for, no other
/// wipe is needed for that build (an id with no surrounding whitespace, as
/// a number written out has none).
pub proof fn lemma_cleanup_once_per_build(build_id: Seq<char>)
    requires
        build_id.len() > 0 ==> !is_ws(build_id[0]) && !is_ws(build_id.last()),
    ensures
        !cleanup_needed(build_id, build_id),
{
    assert(trim_start(build_id) == build_id);
    assert(trim_end(build_id) == build_id);
}

proof fn lemma_trim_start_ws_prefix(p: Seq<char>, s: Seq<char>)
    requires
        forall|i: int| 0 <= i < p.len() ==> is_ws(#[trigger] p[i]),
    ensures
        trim_start(p + s) == trim_start(s),
    decreases p.len(),
{
    if p.len() > 0 {
        assert((p + s)[0] == p[0]);
        assert((p + s).drop_first() =~= p.drop_first() + s);
        lemma_trim_start_ws_prefix(p.drop_first(), s);
    } else {
        assert(p + s =~= s);
    }
}

proof fn lemma_trim_end_ws_suffix(s: Seq<char>, q: Seq<char>)
    requires
        forall|i: int| 0 <= i < q.len() ==> is_ws(#[trigger] q[i]),
    ensures
        trim_end(s + q) == trim_end(s),
    decreases q.len(),
{
    if q.len() > 0 {
        assert((s + q).last() == q.last());
        assert((s + q).drop_last() =~= s + q.drop_last());
        lemma_trim_end_ws_suffix(s, q.drop_last());
    } else {
        assert(s + q =~= s);
    }
}

/// A marker that holds the build id, with any whitespace around it (such as
/// a final newline), means the data was already wiped for that build; a
/// marker with another id, or none, asks for a wipe.
pub proof fn lemma_marker_whitespace_ignored(build_id: Seq<char>, p: Seq<char>, q: Seq<char>)
    requires
        build_id.len() > 0,
        !is_ws(build_id[0]),
        !is_ws(build_id.last()),
        forall|i: int| 0 <= i < p.len() ==> is_ws(#[trigger] p[i]),
        forall|i: int| 0 <= i < q.len() ==> is_ws(#[trigger] q[i]),
    ensures
        !cleanup_needed(build_id, p + build_id + q),
        cleanup_needed(build_id, Seq::empty()),
{
    lemma_trim_start_ws_prefix(p, build_id + q);
    assert(p + build_id + q =~= p + (build_id + q));
    assert((build_id + q)[0] == build_id[0]);
    assert(trim_start(build_id + q) == build_id + q);
    lemma_trim_end_ws_suffix(build_id, q);
    assert(trim_end(build_id) == build_id);
    assert(trim(Seq::<char>::empty()) =~= Seq::<char>::empty());
}

/// Adding a scale switch never adds a second one: once the arguments hold
/// what one update gave, a further update with a scale switch changes
/// nothing.
pub proof fn lemma_scale_switch_added_once(existing: Option<Seq<char>>, arg: Seq<char>, next: Seq<char>)
    requires
        contains_text(arg, scale_switch()),
        browser_args_with(existing, arg) is Some,
    ensures
        browser_args_with(browser_args_with(existing, arg), next) is None,
{
    let p = scale_switch();
    let k = choose|k: int| 0 <= k && k + p.len() <= arg.len() && #[trigger] arg.subrange(k, k + p.len()) == p;
    match existing {
        None => {},
        Some(e) => {
            let v = e + seq![' '] + arg;
            let i = e.len() + 1 + k;
            assert(v.subrange(i, i + p.len()) =~= arg.subrange(k, k + p.len()));
            assert(contains_text(v, p));
        },
    }
}

/// Whether `p` occurs in `s`.
fn find_text(s: &Vec<char>, p: &Vec<char>) -> (r: bool)
    ensures
        r == contains_text(s@, p@),
{
    if p.len() > s.len() {
        return false;
    }
    let mut i: usize = 0;
    while i <= s.len() - p.len()
        invariant
            p.len() <= s.len(),
            i <= s.len() - p.len() + 1,
            forall|k: int| 0 <= k < i ==> #[trigger] s@.subrange(k, k + p.len()) != p@,
        decreases s.len() - i,
    {
        let mut j: usize = 0;
        while j < p.len() && s[i + j] == p[j]
            invariant
                j <= p.len(),
                i + p.len() <= s.len(),
                forall|t: int| 0 <= t < j ==> s@[i + t] == p@[t],
            decreases p.len() - j,
        {
            j = j + 1;
        }
        if j == p.len() {
            assert(s@.subrange(i as int, i + p.len()) =~= p@);
            return true;
        }
        assert(s@.subrange(i as int, i + p.len())[j as int] != p@[j as int]);
        i = i + 1;
    }
    false
}

/// Appends the characters of `t` to `r`.
fn append_text(r: &mut String, t: &str)
    ensures
        final(r)@ == old(r)@ + t@,
{
    let v = chars_of(t);
    let mut i: usize = 0;
    while i < v.len()
        invariant
            i <= v.len(),
            v@ == t@,
            r@ == old(r)@ + v@.subrange(0, i as int),
        decreases v.len() - i,
    {
        push_char(r, v[i]);
        assert(v@.subrange(0, i + 1) =~= v@.subrange(0, i as int).push(v@[i as int]));
        i = i + 1;
    }
    assert(v@.subrange(0, v.len() as int) =~= v@);
}

/// The web view's extra browser arguments once the scale switch `arg` is
/// added (see [`browser_args_with`]); `None` leaves them as they are.
pub fn browser_args_update(existing: Option<&str>, arg: &str) -> (r: Option<String>)
    ensures
        r matches Some(v) ==> browser_args_with(text_view(existing), arg@) == Some(v@),
        r is None ==> browser_args_with(text_view(existing), arg@) is None,
{
    match existing {
        None => Some(arg.to_owned()),
        Some(e) => {
            let ev = chars_of(e);
            let sw = chars_of("--force-device-scale-factor");
            if find_text(&ev, &sw) {
                None
            } else {
                let mut r: String = e.to_owned();
                push_char(&mut r, ' ');
                append_text(&mut r, arg);
                assert(r@ =~= e@ + seq![' '] + arg@);
                Some(r)
            }
        },
    }
}

} // verus!
