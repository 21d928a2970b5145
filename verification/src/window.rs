//! The main window and what a close request does to it.
//!
//! Closing the window never ends the application: a close request hides the
//! window and suppresses the toolkit's own handling, which would destroy it.
//! Only the tray's quit entry ends the process. The window itself belongs to
//! the toolkit; [`MainWindow`] is the part of it that the policy is about.

use vstd::prelude::*;

verus! {

/// Whether the main window is on screen.
#[derive(Clone, Copy, Debug, PartialEq, Eq, Structural)]
pub enum Visibility {
    Visible,
    Hidden,
}

/// The main window, as far as the supervisor is concerned. A window that has
/// been destroyed is no `MainWindow` at all: it is `None` where an optional
/// window is held.
#[derive(Clone, Copy, Debug, PartialEq, Eq, Structural)]
pub struct MainWindow {
    pub visibility: Visibility,
    pub focused: bool,
}

/// An event that the toolkit reports for the main window.
#[derive(Clone, Copy, Debug, PartialEq, Eq, Structural)]
pub enum WindowEvent {
    /// The user asked for the window to be closed.
    CloseRequested,
    /// Anything else: moves, resizes, focus changes and the like.
    Other,
}

/// What the supervisor asks of the toolkit in answer to a window event.
#[derive(Clone, Copy, Debug, PartialEq, Eq, Structural)]
pub struct WindowDirective {
    /// Hide the window.
    pub hide: bool,
    /// Suppress the toolkit's own handling of a close request.
    pub prevent_close: bool,
}

/// The label under which the main window is looked up.
pub open spec fn main_window_label_spec() -> Seq<char> {
    "main"@
}

/// The label under which the main window is looked up.
pub fn main_window_label() -> (label: String)
    ensures
        label@ == main_window_label_spec(),
{
    String::from_str("main")
}

/// The policy: a close request is answered by hiding the window and
/// preventing the close; every other event is left to the toolkit.
pub open spec fn on_window_event_spec(event: WindowEvent) -> WindowDirective {
    match event {
        WindowEvent::CloseRequested => WindowDirective { hide: true, prevent_close: true },
        WindowEvent::Other => WindowDirective { hide: false, prevent_close: false },
    }
}

/// A window after it has been hidden: off screen and without input focus.
pub open spec fn hidden(window: MainWindow) -> MainWindow {
    MainWindow { visibility: Visibility::Hidden, focused: false }
}

/// What becomes of a window when the toolkit has carried out a directive for
/// an event. A close request that is not prevented destroys the window.
pub open spec fn window_after(
    window: Option<MainWindow>,
    event: WindowEvent,
    directive: WindowDirective,
) -> Option<MainWindow> {
    match window {
        None => None,
        Some(w) => {
            if event == WindowEvent::CloseRequested && !directive.prevent_close {
                None
            } else if directive.hide {
                Some(hidden(w))
            } else {
                Some(w)
            }
        },
    }
}

/// What becomes of a window when it is shown and given focus. A window that
/// does not exist stays absent.
pub open spec fn shown(window: Option<MainWindow>) -> Option<MainWindow> {
    match window {
        None => None,
        Some(_) => Some(MainWindow { visibility: Visibility::Visible, focused: true }),
    }
}

/// The window after `n` close requests in a row, each answered by the policy.
pub open spec fn after_close_requests(window: Option<MainWindow>, n: nat) -> Option<MainWindow>
    decreases n,
{
    if n == 0 {
        window
    } else {
        after_close_requests(
            window_after(
                window,
                WindowEvent::CloseRequested,
                on_window_event_spec(WindowEvent::CloseRequested),
            ),
            (n - 1) as nat,
        )
    }
}

/// Decides what to do about a window event.
pub fn on_window_event(event: WindowEvent) -> (directive: WindowDirective)
    ensures
        directive == on_window_event_spec(event),
{
    match event {
        WindowEvent::CloseRequested => WindowDirective { hide: true, prevent_close: true },
        WindowEvent::Other => WindowDirective { hide: false, prevent_close: false },
    }
}

/// Carries a directive out on a window that is tracked here.
pub fn apply_directive(
    window: &mut Option<MainWindow>,
    event: WindowEvent,
    directive: WindowDirective,
)
    ensures
        *final(window) == window_after(*old(window), event, directive),
{
    let destroyed = match event {
        WindowEvent::CloseRequested => !directive.prevent_close,
        WindowEvent::Other => false,
    };
    if destroyed {
        *window = None;
    } else if directive.hide {
        match window {
            Some(w) => {
                w.visibility = Visibility::Hidden;
                w.focused = false;
            },
            None => {},
        }
    }
}

/// Handles a window event on a tracked window: decides by the policy and
/// carries the decision out.
pub fn handle_window_event(window: &mut Option<MainWindow>, event: WindowEvent) -> (directive:
    WindowDirective)
    ensures
        directive == on_window_event_spec(event),
        *final(window) == window_after(*old(window), event, directive),
{
    let directive = on_window_event(event);
    apply_directive(window, event, directive);
    directive
}

/// Shows a tracked window and gives it focus. Returns whether there was a
/// window; where there was none, nothing happens.
pub fn show_main_window(window: &mut Option<MainWindow>) -> (found: bool)
    ensures
        found == (*old(window) is Some),
        *final(window) == shown(*old(window)),
{
    match window {
        Some(w) => {
            w.visibility = Visibility::Visible;
            w.focused = true;
            true
        },
        None => false,
    }
}

/// A close request never destroys the window and always leaves it hidden,
/// whatever state it was in.
pub proof fn law_close_request_hides(window: MainWindow)
    ensures
        window_after(
            Some(window),
            WindowEvent::CloseRequested,
            on_window_event_spec(WindowEvent::CloseRequested),
        ) == Some(hidden(window)),
        on_window_event_spec(WindowEvent::CloseRequested).prevent_close,
{
}

/// However many close requests arrive in a row, the window is never
/// destroyed, it is hidden after each of them, and it can still be shown
/// afterwards.
pub proof fn law_close_requests_never_destroy(window: MainWindow, n: nat)
    ensures
        after_close_requests(Some(window), n) is Some,
        n >= 1 ==> after_close_requests(Some(window), n) == Some(hidden(window)),
        shown(after_close_requests(Some(window), n)) == Some(
            MainWindow { visibility: Visibility::Visible, focused: true },
        ),
    decreases n,
{
    if n >= 1 {
        law_close_requests_never_destroy(hidden(window), (n - 1) as nat);
    }
}

/// Without the policy's answer a close request would destroy the window: it
/// is the prevention, not the hiding, that keeps the window alive.
pub proof fn law_unprevented_close_destroys(window: Option<MainWindow>, hide: bool)
    ensures
        window_after(
            window,
            WindowEvent::CloseRequested,
            WindowDirective { hide, prevent_close: false },
        ) is None,
{
}

} // verus!
