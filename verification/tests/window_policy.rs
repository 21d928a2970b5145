use tray_supervisor::window::{
    apply_directive, handle_window_event, main_window_label, on_window_event, show_main_window,
    MainWindow, Visibility, WindowDirective, WindowEvent,
};

fn visible() -> MainWindow {
    MainWindow { visibility: Visibility::Visible, focused: true }
}

fn hidden() -> MainWindow {
    MainWindow { visibility: Visibility::Hidden, focused: false }
}

#[test]
fn main_window_is_looked_up_as_main() {
    assert_eq!(main_window_label(), "main");
}

#[test]
fn close_request_is_answered_by_hide_and_prevent() {
    assert_eq!(
        on_window_event(WindowEvent::CloseRequested),
        WindowDirective { hide: true, prevent_close: true }
    );
}

#[test]
fn other_events_are_left_alone() {
    assert_eq!(
        on_window_event(WindowEvent::Other),
        WindowDirective { hide: false, prevent_close: false }
    );
}

#[test]
fn close_request_hides_a_visible_window() {
    let mut window = Some(visible());
    let directive = handle_window_event(&mut window, WindowEvent::CloseRequested);
    assert_eq!(directive, WindowDirective { hide: true, prevent_close: true });
    assert_eq!(window, Some(hidden()));
}

#[test]
fn close_request_keeps_a_hidden_window_hidden() {
    let mut window = Some(hidden());
    handle_window_event(&mut window, WindowEvent::CloseRequested);
    assert_eq!(window, Some(hidden()));
}

#[test]
fn close_request_on_an_unfocused_visible_window() {
    let mut window = Some(MainWindow { visibility: Visibility::Visible, focused: false });
    handle_window_event(&mut window, WindowEvent::CloseRequested);
    assert_eq!(window, Some(hidden()));
}

#[test]
fn other_event_changes_nothing() {
    let mut window = Some(visible());
    handle_window_event(&mut window, WindowEvent::Other);
    assert_eq!(window, Some(visible()));
    let mut none: Option<MainWindow> = None;
    handle_window_event(&mut none, WindowEvent::Other);
    assert_eq!(none, None);
}

#[test]
fn many_close_requests_never_destroy_the_window() {
    let mut window = Some(visible());
    for _ in 0..50 {
        handle_window_event(&mut window, WindowEvent::CloseRequested);
        assert_eq!(window, Some(hidden()));
    }
    assert!(show_main_window(&mut window));
    assert_eq!(window, Some(visible()));
}

#[test]
fn close_and_show_alternate() {
    let mut window = Some(visible());
    for _ in 0..5 {
        handle_window_event(&mut window, WindowEvent::CloseRequested);
        assert_eq!(window.unwrap().visibility, Visibility::Hidden);
        assert!(show_main_window(&mut window));
        assert_eq!(window, Some(visible()));
    }
}

#[test]
fn unprevented_close_destroys_the_window() {
    let mut window = Some(visible());
    apply_directive(
        &mut window,
        WindowEvent::CloseRequested,
        WindowDirective { hide: false, prevent_close: false },
    );
    assert_eq!(window, None);
    let mut window = Some(visible());
    apply_directive(
        &mut window,
        WindowEvent::CloseRequested,
        WindowDirective { hide: true, prevent_close: false },
    );
    assert_eq!(window, None);
}

#[test]
fn hide_without_a_close_request_hides_only() {
    let mut window = Some(visible());
    apply_directive(
        &mut window,
        WindowEvent::Other,
        WindowDirective { hide: true, prevent_close: false },
    );
    assert_eq!(window, Some(hidden()));
}

#[test]
fn prevented_close_without_hide_leaves_the_window_as_it_is() {
    let mut window = Some(visible());
    apply_directive(
        &mut window,
        WindowEvent::CloseRequested,
        WindowDirective { hide: false, prevent_close: true },
    );
    assert_eq!(window, Some(visible()));
}

#[test]
fn a_destroyed_window_stays_absent() {
    let mut window: Option<MainWindow> = None;
    handle_window_event(&mut window, WindowEvent::CloseRequested);
    assert_eq!(window, None);
    assert!(!show_main_window(&mut window));
    assert_eq!(window, None);
}
