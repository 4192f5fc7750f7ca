//! The main window's lifecycle under the close-interception guard.
//!
//! The shell owns a single main window. A close request never destroys it:
//! the guard suppresses the default close behaviour and hides the window
//! instead, so the process (and the tray icon) outlives the close control.
//! The only requests that reach the window while the process runs are
//! "show" (from the tray) and "close" (from the window's close control).

use vstd::prelude::*;

verus! {

/// Observable lifecycle state of the main window. `Destroyed` is what the
/// guard exists to prevent while the process is alive.
#[derive(Clone, Copy, PartialEq, Eq, Structural, Debug)]
pub enum WindowState {
    Visible,
    Hidden,
    Destroyed,
}

/// An event the host reports for the window.
#[derive(Clone, Copy, PartialEq, Eq, Structural, Debug)]
pub enum WindowEvent {
    CloseRequested,
    Other,
}

/// What a window-event handler tells the host to do.
#[derive(Clone, Copy, PartialEq, Eq, Structural, Debug)]
pub enum WindowAction {
    /// Hide the window and suppress the default destroy.
    HideAndPreventClose,
    /// Let the close proceed and destroy the window.
    Destroy,
    /// Leave the window alone.
    Ignore,
}

/// A request that changes the window's visibility: "show" from the tray,
/// "close" from the window's close control (routed through the guard).
#[derive(Clone, Copy, PartialEq, Eq, Structural, Debug)]
pub enum WindowRequest {
    Show,
    Close,
}

/// The guard's response to a window event: a close request is answered with
/// hide-and-prevent-close, every other event is ignored. The guard never
/// chooses to destroy the window.
pub fn handle_window_event(event: WindowEvent) -> (a: WindowAction)
    ensures
        a == (if event is CloseRequested {
            WindowAction::HideAndPreventClose
        } else {
            WindowAction::Ignore
        }),
        a != WindowAction::Destroy,
{
    match event {
        WindowEvent::CloseRequested => WindowAction::HideAndPreventClose,
        WindowEvent::Other => WindowAction::Ignore,
    }
}

/// The window state after the host performs one action. A destroyed window
/// stays destroyed; otherwise hiding yields `Hidden`, destroying yields
/// `Destroyed`, and ignoring changes nothing.
pub open spec fn apply_action(s: WindowState, a: WindowAction) -> WindowState {
    if s is Destroyed {
        WindowState::Destroyed
    } else {
        match a {
            WindowAction::HideAndPreventClose => WindowState::Hidden,
            WindowAction::Destroy => WindowState::Destroyed,
            WindowAction::Ignore => s,
        }
    }
}

/// The window state after one request is handled with the guard installed:
/// "show" makes a live window visible, a close request leaves it hidden but
/// alive.
pub open spec fn next_state(s: WindowState, req: WindowRequest) -> WindowState {
    match req {
        WindowRequest::Show => if s is Destroyed {
            WindowState::Destroyed
        } else {
            WindowState::Visible
        },
        WindowRequest::Close => apply_action(s, WindowAction::HideAndPreventClose),
    }
}

/// Executable step of the visibility machine.
pub fn step(s: WindowState, req: WindowRequest) -> (r: WindowState)
    ensures
        r == next_state(s, req),
{
    match req {
        WindowRequest::Show => match s {
            WindowState::Destroyed => WindowState::Destroyed,
            _ => WindowState::Visible,
        },
        WindowRequest::Close => match s {
            WindowState::Destroyed => WindowState::Destroyed,
            _ => WindowState::Hidden,
        },
    }
}

/// The window state after a whole sequence of requests.
pub open spec fn state_after(s: WindowState, reqs: Seq<WindowRequest>) -> WindowState
    decreases reqs.len(),
{
    if reqs.len() == 0 {
        s
    } else {
        state_after(next_state(s, reqs.first()), reqs.drop_first())
    }
}

/// With the guard installed, no sequence of show and close requests ever
/// destroys a live window: close transitions it to hidden, never to
/// destroyed.
pub proof fn lemma_live_window_stays_live(s: WindowState, reqs: Seq<WindowRequest>)
    requires
        s != WindowState::Destroyed,
    ensures
        state_after(s, reqs) != WindowState::Destroyed,
    decreases reqs.len(),
{
    if reqs.len() > 0 {
        lemma_live_window_stays_live(next_state(s, reqs.first()), reqs.drop_first());
    }
}

/// Repeated close/show cycles never err and always end in a visible window
/// once the last request is a "show": whatever live state the window is in,
/// any request history whose final request is "show" leaves it visible.
pub proof fn lemma_ends_visible_after_show(s: WindowState, reqs: Seq<WindowRequest>)
    requires
        s != WindowState::Destroyed,
        reqs.len() > 0,
        reqs.last() == WindowRequest::Show,
    ensures
        state_after(s, reqs) == WindowState::Visible,
    decreases reqs.len(),
{
    if reqs.len() == 1 {
        assert(reqs.first() == reqs.last());
        assert(reqs.drop_first().len() == 0);
        assert(state_after(next_state(s, reqs.first()), reqs.drop_first())
            == next_state(s, reqs.first()));
    } else {
        let s1 = next_state(s, reqs.first());
        lemma_live_window_stays_live(s, seq![reqs.first()]);
        assert(s1 != WindowState::Destroyed);
        assert(reqs.drop_first().last() == reqs.last());
        lemma_ends_visible_after_show(s1, reqs.drop_first());
    }
}

/// One close/show cycle: closing a live window hides it, and a following
/// "show" makes it visible again.
pub proof fn lemma_close_then_show(s: WindowState)
    requires
        s != WindowState::Destroyed,
    ensures
        next_state(s, WindowRequest::Close) == WindowState::Hidden,
        next_state(next_state(s, WindowRequest::Close), WindowRequest::Show)
            == WindowState::Visible,
{
}

} // verus!
