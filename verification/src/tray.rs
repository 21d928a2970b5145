//! The tray icon: what it is made of, and the loop that answers its menu.
//!
//! The tray has two entries, one that shows the main window and one that
//! quits. Each entry gets an identifier when the menu is built; every menu
//! event carries the identifier of the entry that was chosen. The loop waits
//! for events for as long as the application lives. It shows the window on
//! the first entry, ends the process on the second, and stops quietly when
//! the channel it listens on is closed. The loop runs on a thread of its own;
//! this module decides what each event leads to.

use vstd::prelude::*;
use crate::window::{shown, MainWindow};

verus! {

/// The exit code of a process that was ended from the tray.
pub const QUIT_EXIT_CODE: i32 = 0;

/// The fixed texts that the tray is built from.
#[derive(Clone, Debug, PartialEq, Eq)]
pub struct TrayBlueprint {
    /// Text of the entry that shows the main window.
    pub show_label: String,
    /// Text of the entry that quits.
    pub quit_label: String,
    /// Tooltip of the tray icon.
    pub tooltip: String,
    /// Where the icon image is read from.
    pub icon_path: String,
}

/// The mathematical value of a [`TrayBlueprint`].
pub struct TrayBlueprintView {
    pub show_label: Seq<char>,
    pub quit_label: Seq<char>,
    pub tooltip: Seq<char>,
    pub icon_path: Seq<char>,
}

impl View for TrayBlueprint {
    type V = TrayBlueprintView;

    open spec fn view(&self) -> TrayBlueprintView {
        TrayBlueprintView {
            show_label: self.show_label@,
            quit_label: self.quit_label@,
            tooltip: self.tooltip@,
            icon_path: self.icon_path@,
        }
    }
}

/// The tray of this application.
pub open spec fn tray_blueprint_spec() -> TrayBlueprintView {
    TrayBlueprintView {
        show_label: "Show PrivCode"@,
        quit_label: "Quit"@,
        tooltip: "PrivCode AI Agent"@,
        icon_path: "icons/icon.ico"@,
    }
}

/// The tray of this application.
pub fn tray_blueprint() -> (blueprint: TrayBlueprint)
    ensures
        blueprint@ == tray_blueprint_spec(),
{
    TrayBlueprint {
        show_label: String::from_str("Show PrivCode"),
        quit_label: String::from_str("Quit"),
        tooltip: String::from_str("PrivCode AI Agent"),
        icon_path: String::from_str("icons/icon.ico"),
    }
}

/// The identifiers of the two menu entries, captured when the menu is built.
#[derive(Clone, Debug, PartialEq, Eq)]
pub struct TrayMenu {
    pub show_id: String,
    pub quit_id: String,
}

/// The mathematical value of a [`TrayMenu`].
pub struct TrayMenuView {
    pub show_id: Seq<char>,
    pub quit_id: Seq<char>,
}

impl View for TrayMenu {
    type V = TrayMenuView;

    open spec fn view(&self) -> TrayMenuView {
        TrayMenuView { show_id: self.show_id@, quit_id: self.quit_id@ }
    }
}

/// Which entry an identifier stands for.
#[derive(Clone, Copy, Debug, PartialEq, Eq, Structural)]
pub enum MenuChoice {
    Show,
    Quit,
    /// An identifier of neither entry.
    Unknown,
}

impl TrayMenuView {
    /// The entry that an identifier stands for. The show entry is looked at
    /// first, so it wins should both entries ever carry the same identifier.
    pub open spec fn choice(self, id: Seq<char>) -> MenuChoice {
        if id == self.show_id {
            MenuChoice::Show
        } else if id == self.quit_id {
            MenuChoice::Quit
        } else {
            MenuChoice::Unknown
        }
    }
}

impl TrayMenu {
    /// Captures the identifiers of the two entries.
    pub fn new(show_id: String, quit_id: String) -> (menu: TrayMenu)
        ensures
            menu@ == (TrayMenuView { show_id: show_id@, quit_id: quit_id@ }),
    {
        TrayMenu { show_id, quit_id }
    }

    /// The entry that an identifier stands for.
    pub fn choice(&self, id: &String) -> (choice: MenuChoice)
        ensures
            choice == self@.choice(id@),
    {
        if *id == self.show_id {
            MenuChoice::Show
        } else if *id == self.quit_id {
            MenuChoice::Quit
        } else {
            MenuChoice::Unknown
        }
    }
}

/// What the loop receives.
#[derive(Clone, Debug, PartialEq, Eq)]
pub enum TrayEvent {
    /// A menu entry was chosen; `id` is the identifier that the event carries.
    Menu { id: String },
    /// The channel has no sender left.
    ChannelClosed,
}

/// The state of the loop.
#[derive(Clone, Copy, Debug, PartialEq, Eq, Structural)]
pub enum LoopState {
    /// Waiting for the next event.
    Listening,
    /// The channel was closed; the loop has ended, the process lives on.
    Stopped,
    /// Quit was chosen; the process is being ended.
    Terminated,
}

/// What the loop asks for in answer to an event.
#[derive(Clone, Copy, Debug, PartialEq, Eq, Structural)]
pub enum TrayAction {
    /// Show the main window and give it focus, if it exists; then go on
    /// listening.
    ShowWindow,
    /// End the process at once with this exit code.
    ExitProcess { code: i32 },
    /// Nothing; go on listening.
    KeepListening,
    /// Leave the loop without a word.
    Stop,
}

/// One turn of the loop: the state after the event, and what to do.
#[derive(Clone, Copy, Debug, PartialEq, Eq, Structural)]
pub struct TrayStep {
    pub state: LoopState,
    pub action: TrayAction,
}

/// The transitions of the loop. A loop that has ended stays ended.
pub open spec fn tray_step_spec(menu: TrayMenuView, state: LoopState, event: TrayEvent) -> TrayStep {
    match state {
        LoopState::Listening => match event {
            TrayEvent::Menu { id } => match menu.choice(id@) {
                MenuChoice::Show => TrayStep {
                    state: LoopState::Listening,
                    action: TrayAction::ShowWindow,
                },
                MenuChoice::Quit => TrayStep {
                    state: LoopState::Terminated,
                    action: TrayAction::ExitProcess { code: QUIT_EXIT_CODE },
                },
                MenuChoice::Unknown => TrayStep {
                    state: LoopState::Listening,
                    action: TrayAction::KeepListening,
                },
            },
            TrayEvent::ChannelClosed => TrayStep {
                state: LoopState::Stopped,
                action: TrayAction::Stop,
            },
        },
        _ => TrayStep { state, action: TrayAction::Stop },
    }
}

/// What an action of the loop does to the main window: showing it is the only
/// one that touches it, and that one does nothing where no window exists.
pub open spec fn window_after_action(window: Option<MainWindow>, action: TrayAction) -> Option<
    MainWindow,
> {
    match action {
        TrayAction::ShowWindow => shown(window),
        _ => window,
    }
}

/// The state of the loop after a whole sequence of events.
pub open spec fn tray_run_spec(menu: TrayMenuView, state: LoopState, events: Seq<TrayEvent>) -> LoopState
    decreases events.len(),
{
    if events.len() == 0 {
        state
    } else {
        tray_run_spec(menu, tray_step_spec(menu, state, events[0]).state, events.skip(1))
    }
}

/// The actions that the loop asks for over a whole sequence of events: one
/// for each event that arrives while it is listening, none after that.
pub open spec fn tray_actions_spec(menu: TrayMenuView, state: LoopState, events: Seq<TrayEvent>) -> Seq<
    TrayAction,
>
    decreases events.len(),
{
    if events.len() == 0 || state != LoopState::Listening {
        Seq::empty()
    } else {
        seq![tray_step_spec(menu, state, events[0]).action] + tray_actions_spec(
            menu,
            tray_step_spec(menu, state, events[0]).state,
            events.skip(1),
        )
    }
}

/// Takes the loop one event further.
pub fn tray_step(menu: &TrayMenu, state: LoopState, event: &TrayEvent) -> (step: TrayStep)
    ensures
        step == tray_step_spec(menu@, state, *event),
{
    match state {
        LoopState::Listening => match event {
            TrayEvent::Menu { id } => match menu.choice(id) {
                MenuChoice::Show => TrayStep {
                    state: LoopState::Listening,
                    action: TrayAction::ShowWindow,
                },
                MenuChoice::Quit => TrayStep {
                    state: LoopState::Terminated,
                    action: TrayAction::ExitProcess { code: QUIT_EXIT_CODE },
                },
                MenuChoice::Unknown => TrayStep {
                    state: LoopState::Listening,
                    action: TrayAction::KeepListening,
                },
            },
            TrayEvent::ChannelClosed => TrayStep {
                state: LoopState::Stopped,
                action: TrayAction::Stop,
            },
        },
        _ => TrayStep { state, action: TrayAction::Stop },
    }
}

/// Runs the loop over events that are already at hand, as far as it gets:
/// returns the state it ends in and the action of every event it answered.
/// Events that come after the one that ended the loop get no answer.
pub fn tray_run(menu: &TrayMenu, events: &Vec<TrayEvent>) -> (result: (LoopState, Vec<TrayAction>))
    ensures
        result.0 == tray_run_spec(menu@, LoopState::Listening, events@),
        result.1@ == tray_actions_spec(menu@, LoopState::Listening, events@),
{
    let mut state = LoopState::Listening;
    let mut actions: Vec<TrayAction> = Vec::new();
    let mut i: usize = 0;
    proof {
        assert(events@.take(0) =~= Seq::<TrayEvent>::empty());
    }
    while i < events.len() && matches!(state, LoopState::Listening)
        invariant
            i <= events.len(),
            state == tray_run_spec(menu@, LoopState::Listening, events@.take(i as int)),
            actions@ == tray_actions_spec(menu@, LoopState::Listening, events@.take(i as int)),
        decreases events.len() - i,
    {
        let step = tray_step(menu, state, &events[i]);
        proof {
            lemma_run_extends(menu@, LoopState::Listening, events@.take(i as int), events@[i as int]);
            assert(events@.take(i as int).push(events@[i as int]) =~= events@.take(i + 1));
        }
        actions.push(step.action);
        state = step.state;
        i += 1;
    }
    proof {
        lemma_run_concat(menu@, LoopState::Listening, events@.take(i as int), events@.skip(i as int));
        if i < events.len() {
            lemma_ended_loop_stays(menu@, state, events@.skip(i as int));
        }
        assert(events@.take(i as int) + events@.skip(i as int) =~= events@);
        assert(actions@ + Seq::<TrayAction>::empty() =~= actions@);
    }
    (state, actions)
}

/// A loop that has ended stays where it is and answers nothing more.
pub proof fn lemma_ended_loop_stays(menu: TrayMenuView, state: LoopState, events: Seq<TrayEvent>)
    requires
        state != LoopState::Listening,
    ensures
        tray_run_spec(menu, state, events) == state,
        tray_actions_spec(menu, state, events) == Seq::<TrayAction>::empty(),
    decreases events.len(),
{
    if events.len() > 0 {
        lemma_ended_loop_stays(menu, state, events.skip(1));
    }
}

/// Running over two sequences one after the other is running over their
/// concatenation.
pub proof fn lemma_run_concat(menu: TrayMenuView, state: LoopState, first: Seq<TrayEvent>, rest: Seq<TrayEvent>)
    ensures
        tray_run_spec(menu, state, first + rest) == tray_run_spec(
            menu,
            tray_run_spec(menu, state, first),
            rest,
        ),
        tray_actions_spec(menu, state, first + rest) == tray_actions_spec(menu, state, first)
            + tray_actions_spec(menu, tray_run_spec(menu, state, first), rest),
    decreases first.len(),
{
    if first.len() == 0 {
        assert(first + rest =~= rest);
        assert(tray_actions_spec(menu, state, first) + tray_actions_spec(menu, state, rest)
            =~= tray_actions_spec(menu, state, rest));
    } else {
        assert((first + rest).skip(1) =~= first.skip(1) + rest);
        let next = tray_step_spec(menu, state, first[0]);
        lemma_run_concat(menu, next.state, first.skip(1), rest);
        if state == LoopState::Listening {
            assert(tray_actions_spec(menu, state, first + rest) =~= tray_actions_spec(
                menu,
                state,
                first,
            ) + tray_actions_spec(menu, tray_run_spec(menu, state, first), rest));
        } else {
            lemma_ended_loop_stays(menu, state, first);
            lemma_ended_loop_stays(menu, state, rest);
            lemma_ended_loop_stays(menu, state, first + rest);
            assert(Seq::<TrayAction>::empty() + Seq::<TrayAction>::empty() =~= Seq::<
                TrayAction,
            >::empty());
        }
    }
}

/// Running over a sequence and then one more event is running over the
/// sequence with that event at its end; the event is answered if the loop
/// was still listening when it came.
pub proof fn lemma_run_extends(menu: TrayMenuView, state: LoopState, events: Seq<TrayEvent>, last: TrayEvent)
    ensures
        tray_run_spec(menu, state, events.push(last)) == tray_step_spec(
            menu,
            tray_run_spec(menu, state, events),
            last,
        ).state,
        tray_actions_spec(menu, state, events.push(last)) == if tray_run_spec(menu, state, events)
            == LoopState::Listening {
            tray_actions_spec(menu, state, events).push(
                tray_step_spec(menu, LoopState::Listening, last).action,
            )
        } else {
            tray_actions_spec(menu, state, events)
        },
{
    let reached = tray_run_spec(menu, state, events);
    let one = seq![last];
    lemma_run_concat(menu, state, events, one);
    assert(events.push(last) =~= events + one);
    assert(one.skip(1) =~= Seq::<TrayEvent>::empty());
    assert(tray_run_spec(menu, reached, one) == tray_step_spec(menu, reached, last).state) by {
        reveal_with_fuel(tray_run_spec, 2);
    }
    if reached == LoopState::Listening {
        assert(tray_actions_spec(menu, reached, one) =~= seq![
            tray_step_spec(menu, reached, last).action,
        ]) by {
            reveal_with_fuel(tray_actions_spec, 2);
        }
        assert(tray_actions_spec(menu, state, events) + seq![
            tray_step_spec(menu, reached, last).action,
        ] =~= tray_actions_spec(menu, state, events).push(
            tray_step_spec(menu, reached, last).action,
        ));
    } else {
        assert(tray_actions_spec(menu, state, events) + Seq::<TrayAction>::empty()
            =~= tray_actions_spec(menu, state, events));
    }
}

/// The process is ended by the quit entry and by nothing else: an event asks
/// for the exit exactly when the loop is listening and the event carries the
/// identifier of the quit entry (and not also that of the show entry), and
/// the exit code is then zero.
pub proof fn law_only_quit_terminates(menu: TrayMenuView, state: LoopState, event: TrayEvent)
    ensures
        tray_step_spec(menu, state, event).action is ExitProcess <==> {
            &&& state == LoopState::Listening
            &&& event matches TrayEvent::Menu { id }
            &&& menu.choice(id@) == MenuChoice::Quit
        },
        tray_step_spec(menu, state, event).action is ExitProcess ==> tray_step_spec(
            menu,
            state,
            event,
        ).action == (TrayAction::ExitProcess { code: 0 }),
        tray_step_spec(menu, state, event).state == LoopState::Terminated <==> state
            == LoopState::Terminated || tray_step_spec(menu, state, event).action is ExitProcess,
{
}

/// Whether an event carries the identifier that stands for the quit entry.
pub open spec fn is_quit_event(menu: TrayMenuView, event: TrayEvent) -> bool {
    event matches TrayEvent::Menu { id } && menu.choice(id@) == MenuChoice::Quit
}

/// However many events arrive and whatever they are, a loop that never
/// receives the quit entry's identifier never ends the process, and none of
/// its answers asks for the exit.
pub proof fn law_no_quit_no_termination(menu: TrayMenuView, events: Seq<TrayEvent>)
    requires
        forall|i: int| 0 <= i < events.len() ==> !is_quit_event(menu, #[trigger] events[i]),
    ensures
        tray_run_spec(menu, LoopState::Listening, events) != LoopState::Terminated,
        forall|j: int|
            0 <= j < tray_actions_spec(menu, LoopState::Listening, events).len()
                ==> !(#[trigger] tray_actions_spec(menu, LoopState::Listening, events)[j]
                is ExitProcess),
    decreases events.len(),
{
    if events.len() > 0 {
        let init = events.drop_last();
        let last = events.last();
        law_no_quit_no_termination(menu, init);
        lemma_run_extends(menu, LoopState::Listening, init, last);
        assert(init.push(last) =~= events);
        assert(!is_quit_event(menu, events[events.len() - 1]));
    }
}

/// Where the two entries carry different identifiers, an event with the quit
/// entry's identifier always ends the process of a listening loop.
pub proof fn law_quit_event_terminates(menu: TrayMenuView, id: String)
    requires
        menu.show_id != menu.quit_id,
        id@ == menu.quit_id,
    ensures
        tray_step_spec(menu, LoopState::Listening, TrayEvent::Menu { id }) == (TrayStep {
            state: LoopState::Terminated,
            action: TrayAction::ExitProcess { code: 0 },
        }),
{
}

/// A show event that finds no window changes nothing and leaves the loop
/// listening: whatever event comes next is answered as if the show event had
/// never arrived.
pub proof fn law_show_without_window_is_harmless(menu: TrayMenuView, id: String, next: TrayEvent)
    requires
        menu.choice(id@) == MenuChoice::Show,
    ensures
        tray_step_spec(menu, LoopState::Listening, TrayEvent::Menu { id }) == (TrayStep {
            state: LoopState::Listening,
            action: TrayAction::ShowWindow,
        }),
        window_after_action(None, TrayAction::ShowWindow) is None,
        tray_run_spec(menu, LoopState::Listening, seq![TrayEvent::Menu { id }, next])
            == tray_step_spec(menu, LoopState::Listening, next).state,
{
    let events = seq![TrayEvent::Menu { id }, next];
    assert(events.skip(1) =~= seq![next]);
    assert(seq![next].skip(1) =~= Seq::<TrayEvent>::empty());
    reveal_with_fuel(tray_run_spec, 3);
}

} // verus!
