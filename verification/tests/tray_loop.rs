use tray_supervisor::tray::{
    tray_blueprint, tray_run, tray_step, LoopState, MenuChoice, TrayAction, TrayBlueprint,
    TrayEvent, TrayMenu, TrayStep, QUIT_EXIT_CODE,
};
use tray_supervisor::window::{show_main_window, MainWindow, Visibility};

fn menu() -> TrayMenu {
    TrayMenu::new("1001".to_string(), "1002".to_string())
}

fn chosen(id: &str) -> TrayEvent {
    TrayEvent::Menu { id: id.to_string() }
}

#[test]
fn blueprint_has_the_fixed_texts() {
    assert_eq!(
        tray_blueprint(),
        TrayBlueprint {
            show_label: "Show PrivCode".to_string(),
            quit_label: "Quit".to_string(),
            tooltip: "PrivCode AI Agent".to_string(),
            icon_path: "icons/icon.ico".to_string(),
        }
    );
}

#[test]
fn menu_keeps_the_identifiers() {
    let m = menu();
    assert_eq!(m.show_id, "1001");
    assert_eq!(m.quit_id, "1002");
}

#[test]
fn choice_tells_the_entries_apart() {
    let m = menu();
    assert_eq!(m.choice(&"1001".to_string()), MenuChoice::Show);
    assert_eq!(m.choice(&"1002".to_string()), MenuChoice::Quit);
    assert_eq!(m.choice(&"1003".to_string()), MenuChoice::Unknown);
    assert_eq!(m.choice(&String::new()), MenuChoice::Unknown);
    assert_eq!(m.choice(&"10011".to_string()), MenuChoice::Unknown);
}

#[test]
fn choice_prefers_show_when_both_entries_share_an_identifier() {
    let m = TrayMenu::new("same".to_string(), "same".to_string());
    assert_eq!(m.choice(&"same".to_string()), MenuChoice::Show);
}

#[test]
fn quit_exit_code_is_zero() {
    assert_eq!(QUIT_EXIT_CODE, 0);
}

#[test]
fn show_event_asks_for_the_window_and_keeps_listening() {
    assert_eq!(
        tray_step(&menu(), LoopState::Listening, &chosen("1001")),
        TrayStep { state: LoopState::Listening, action: TrayAction::ShowWindow }
    );
}

#[test]
fn quit_event_ends_the_process_with_code_zero() {
    assert_eq!(
        tray_step(&menu(), LoopState::Listening, &chosen("1002")),
        TrayStep { state: LoopState::Terminated, action: TrayAction::ExitProcess { code: 0 } }
    );
}

#[test]
fn unknown_event_is_passed_over() {
    assert_eq!(
        tray_step(&menu(), LoopState::Listening, &chosen("77")),
        TrayStep { state: LoopState::Listening, action: TrayAction::KeepListening }
    );
}

#[test]
fn closed_channel_stops_the_loop_quietly() {
    assert_eq!(
        tray_step(&menu(), LoopState::Listening, &TrayEvent::ChannelClosed),
        TrayStep { state: LoopState::Stopped, action: TrayAction::Stop }
    );
}

#[test]
fn an_ended_loop_answers_nothing() {
    for state in [LoopState::Stopped, LoopState::Terminated] {
        for event in [chosen("1001"), chosen("1002"), chosen("x"), TrayEvent::ChannelClosed] {
            assert_eq!(
                tray_step(&menu(), state, &event),
                TrayStep { state, action: TrayAction::Stop }
            );
        }
    }
}

#[test]
fn no_event_but_quit_asks_for_the_exit() {
    let m = menu();
    let events = [chosen("1001"), chosen(""), chosen("quit"), chosen("Quit"), TrayEvent::ChannelClosed];
    for state in [LoopState::Listening, LoopState::Stopped, LoopState::Terminated] {
        for event in &events {
            let step = tray_step(&m, state, event);
            assert!(!matches!(step.action, TrayAction::ExitProcess { .. }));
        }
    }
    for state in [LoopState::Stopped, LoopState::Terminated] {
        let step = tray_step(&m, state, &chosen("1002"));
        assert!(!matches!(step.action, TrayAction::ExitProcess { .. }));
    }
}

#[test]
fn show_without_a_window_leaves_the_loop_able_to_go_on() {
    let m = menu();
    let mut window: Option<MainWindow> = None;
    let first = tray_step(&m, LoopState::Listening, &chosen("1001"));
    assert_eq!(first.action, TrayAction::ShowWindow);
    assert!(!show_main_window(&mut window));
    assert_eq!(window, None);
    assert_eq!(first.state, LoopState::Listening);
    let second = tray_step(&m, first.state, &chosen("1001"));
    assert_eq!(second, TrayStep { state: LoopState::Listening, action: TrayAction::ShowWindow });
    let third = tray_step(&m, second.state, &chosen("1002"));
    assert_eq!(third.action, TrayAction::ExitProcess { code: 0 });
}

#[test]
fn show_with_a_window_makes_it_visible_and_focused() {
    let mut window = Some(MainWindow { visibility: Visibility::Hidden, focused: false });
    assert!(show_main_window(&mut window));
    assert_eq!(window, Some(MainWindow { visibility: Visibility::Visible, focused: true }));
}

#[test]
fn run_over_no_events_keeps_listening() {
    assert_eq!(tray_run(&menu(), &vec![]), (LoopState::Listening, vec![]));
}

#[test]
fn run_answers_events_in_order() {
    let events = vec![chosen("1001"), chosen("9"), chosen("1001")];
    assert_eq!(
        tray_run(&menu(), &events),
        (
            LoopState::Listening,
            vec![TrayAction::ShowWindow, TrayAction::KeepListening, TrayAction::ShowWindow]
        )
    );
}

#[test]
fn run_ends_at_quit_and_leaves_the_rest_unanswered() {
    let events = vec![chosen("1001"), chosen("1002"), chosen("1001"), TrayEvent::ChannelClosed];
    assert_eq!(
        tray_run(&menu(), &events),
        (
            LoopState::Terminated,
            vec![TrayAction::ShowWindow, TrayAction::ExitProcess { code: 0 }]
        )
    );
}

#[test]
fn run_ends_at_channel_closure() {
    let events = vec![chosen("5"), TrayEvent::ChannelClosed, chosen("1002")];
    assert_eq!(
        tray_run(&menu(), &events),
        (LoopState::Stopped, vec![TrayAction::KeepListening, TrayAction::Stop])
    );
}

#[test]
fn run_without_a_quit_event_never_ends_the_process() {
    let mut events = Vec::new();
    for i in 0..40 {
        events.push(if i % 3 == 0 { chosen("1001") } else { chosen("other") });
    }
    let (state, actions) = tray_run(&menu(), &events);
    assert_eq!(state, LoopState::Listening);
    assert_eq!(actions.len(), 40);
    assert!(actions.iter().all(|a| !matches!(a, TrayAction::ExitProcess { .. })));
    events.push(TrayEvent::ChannelClosed);
    let (state, actions) = tray_run(&menu(), &events);
    assert_eq!(state, LoopState::Stopped);
    assert_eq!(actions.len(), 41);
    assert!(actions.iter().all(|a| !matches!(a, TrayAction::ExitProcess { .. })));
}
