//! The tray controller: a fixed two-item menu and the routing of tray
//! events to actions.
//!
//! The tray owns a menu with the fixed item keys `"show"` and `"quit"`.
//! Selecting `"quit"` terminates the process with exit code 0; selecting
//! `"show"`, or left-clicking the icon, makes the main window visible and
//! focused when it exists, and does nothing (never an error) when it does
//! not. Every other menu key or tray event is silently ignored.

use vstd::prelude::*;

use crate::window::{next_state, WindowRequest, WindowState};

verus! {

/// Mouse button reported with a tray-icon click.
#[derive(Clone, Copy, PartialEq, Eq, Structural, Debug)]
pub enum MouseButton {
    Left,
    Right,
    Middle,
}

/// An event reported for the tray icon itself.
#[derive(Clone, Copy, PartialEq, Eq, Structural, Debug)]
pub enum TrayEvent {
    Click { button: MouseButton },
    Other,
}

/// What the tray controller tells the host to do.
#[derive(Clone, Copy, PartialEq, Eq, Structural, Debug)]
pub enum TrayAction {
    /// Terminate the process with the given exit code.
    Exit { code: i32 },
    /// Make the main window visible and move input focus to it.
    ShowAndFocus,
    /// Do nothing.
    Ignore,
}

/// One entry of the tray menu.
#[derive(PartialEq, Eq, Debug)]
pub struct MenuEntry {
    pub id: String,
    pub label: String,
    pub enabled: bool,
}

/// String equality on views.
fn str_eq(a: &str, b: &str) -> (r: bool)
    ensures
        r == (a@ == b@),
{
    let sa = String::from_str(a);
    let sb = String::from_str(b);
    sa == sb
}

/// The action a menu selection maps to: `"quit"` exits with code 0 whatever
/// the window's state; `"show"` shows and focuses the window when one is
/// present and does nothing otherwise; any other key is ignored.
pub open spec fn menu_action(id: Seq<char>, window_present: bool) -> TrayAction {
    if id == "quit"@ {
        TrayAction::Exit { code: 0 }
    } else if id == "show"@ {
        if window_present {
            TrayAction::ShowAndFocus
        } else {
            TrayAction::Ignore
        }
    } else {
        TrayAction::Ignore
    }
}

/// The action a tray-icon event maps to: a left-button click behaves like
/// `"show"`; every other event is ignored.
pub open spec fn tray_event_action(event: TrayEvent, window_present: bool) -> TrayAction {
    if event == (TrayEvent::Click { button: MouseButton::Left }) {
        if window_present {
            TrayAction::ShowAndFocus
        } else {
            TrayAction::Ignore
        }
    } else {
        TrayAction::Ignore
    }
}

/// Routes a menu selection, identified by its string key, to the action the
/// host must perform. `window_present` says whether the main window lookup
/// succeeded.
pub fn handle_menu_selection(id: &str, window_present: bool) -> (a: TrayAction)
    ensures
        a == menu_action(id@, window_present),
{
    proof {
        reveal_strlit("quit");
        reveal_strlit("show");
    }
    if str_eq(id, "quit") {
        TrayAction::Exit { code: 0 }
    } else if str_eq(id, "show") {
        if window_present {
            TrayAction::ShowAndFocus
        } else {
            TrayAction::Ignore
        }
    } else {
        TrayAction::Ignore
    }
}

/// Routes a tray-icon event to the action the host must perform.
pub fn handle_tray_event(event: TrayEvent, window_present: bool) -> (a: TrayAction)
    ensures
        a == tray_event_action(event, window_present),
{
    match event {
        TrayEvent::Click { button: MouseButton::Left } => {
            if window_present {
                TrayAction::ShowAndFocus
            } else {
                TrayAction::Ignore
            }
        },
        _ => TrayAction::Ignore,
    }
}

/// Selecting `"quit"` exits the process with code 0 regardless of the
/// window's presence or visibility.
pub proof fn lemma_quit_always_exits(window_present: bool)
    ensures
        menu_action("quit"@, window_present) == (TrayAction::Exit { code: 0 }),
{
}

/// A `"show"` selection while the window is present makes the window
/// visible again, whatever live state it was in: the menu maps the key to
/// the show-and-focus action, and performing that action on a live window
/// ends with it visible.
pub proof fn lemma_show_selection_shows_window(s: WindowState)
    requires
        s != WindowState::Destroyed,
    ensures
        menu_action("show"@, true) == TrayAction::ShowAndFocus,
        next_state(s, WindowRequest::Show) == WindowState::Visible,
{
    reveal_strlit("show");
    reveal_strlit("quit");
    assert(("show"@).index(0) == 's');
    assert(("quit"@).index(0) == 'q');
}

/// The tray menu: exactly two enabled items, `"show"` then `"quit"`, with
/// their fixed labels. The two keys are distinct.
pub fn tray_menu() -> (m: Vec<MenuEntry>)
    ensures
        m@.len() == 2,
        m@[0].id@ == "show"@,
        m@[1].id@ == "quit"@,
        m@[0].id@ != m@[1].id@,
        m@[0].label@ == "显示主界面 / Show"@,
        m@[1].label@ == "退出 / Quit"@,
        m@[0].enabled,
        m@[1].enabled,
{
    proof {
        reveal_strlit("quit");
        reveal_strlit("show");
        assert(("show"@).index(0) == 's');
        assert(("quit"@).index(0) == 'q');
        assert("show"@ != "quit"@);
    }
    let mut m: Vec<MenuEntry> = Vec::new();
    m.push(MenuEntry {
        id: String::from_str("show"),
        label: String::from_str("显示主界面 / Show"),
        enabled: true,
    });
    m.push(MenuEntry {
        id: String::from_str("quit"),
        label: String::from_str("退出 / Quit"),
        enabled: true,
    });
    m
}

/// The identifier under which the tray icon is registered.
pub fn tray_icon_id() -> (s: String)
    ensures
        s@ == "tray"@,
{
    String::from_str("tray")
}

/// The label of the single main window the tray controller acts on.
pub fn main_window_label() -> (s: String)
    ensures
        s@ == "main"@,
{
    String::from_str("main")
}

} // verus!
