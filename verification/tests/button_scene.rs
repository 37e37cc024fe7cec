use jam_engine::button::{
    observe_button, process_buttons, step_button, ButtonPressedEvent, ButtonRecord, ButtonState,
    InteractionSignal, SignalEvent,
};
use jam_engine::scene::{GameState, SceneBinding, SceneHook, SceneMachine};

#[test]
fn click_click_hover_commits_exactly_one_press() {
    // raw signal sequence [Clicked, Clicked, Hovered] from the released
    // state: the repeated click is not a change and is not re-observed,
    // so the event fires exactly once, on the third signal
    let mut b = ButtonRecord::new(44);
    let mut fired_on: Vec<usize> = Vec::new();
    let signals = [
        InteractionSignal::Clicked,
        InteractionSignal::Clicked,
        InteractionSignal::Hovered,
    ];
    for (frame, signal) in signals.iter().enumerate() {
        let (next, fired) = observe_button(b, *signal);
        b = next;
        if fired {
            fired_on.push(frame);
        }
    }
    assert_eq!(fired_on, vec![2]);
    assert_eq!(b.state, ButtonState::Released);
}

#[test]
fn raw_machine_presses_and_commits() {
    let (s1, fired1) = step_button(ButtonState::Released, InteractionSignal::Clicked);
    assert_eq!(s1, ButtonState::Pressed);
    assert!(!fired1);
    let (s2, fired2) = step_button(s1, InteractionSignal::Hovered);
    assert_eq!(s2, ButtonState::Released);
    assert!(fired2);
}

#[test]
fn click_then_idle_is_a_cancelled_press() {
    // press, move off the button, release: no event, state back to released
    let mut buttons = vec![ButtonRecord::new(7)];
    let e1 = process_buttons(&mut buttons, &vec![SignalEvent {
        id: 7,
        signal: InteractionSignal::Clicked,
    }]);
    assert!(e1.is_empty());
    assert_eq!(buttons[0].state, ButtonState::Pressed);
    let e2 = process_buttons(&mut buttons, &vec![SignalEvent {
        id: 7,
        signal: InteractionSignal::Idle,
    }]);
    assert!(e2.is_empty());
    assert_eq!(buttons[0].state, ButtonState::Released);
}

#[test]
fn buttons_without_a_signal_keep_their_state() {
    let mut buttons = vec![
        ButtonRecord { id: 1, state: ButtonState::Pressed, last_signal: InteractionSignal::Clicked },
        ButtonRecord { id: 2, state: ButtonState::Released, last_signal: InteractionSignal::Idle },
    ];
    let events = process_buttons(&mut buttons, &vec![SignalEvent {
        id: 1,
        signal: InteractionSignal::Hovered,
    }]);
    assert_eq!(events.len(), 1);
    assert_eq!(events[0].0, 1);
    assert_eq!(buttons[0].state, ButtonState::Released);
    assert_eq!(buttons[1].state, ButtonState::Released);
}

#[test]
fn default_button_state_is_released() {
    assert_eq!(ButtonState::default(), ButtonState::Released);
}

#[test]
fn cauldron_button_exits_main_then_enters_cauldron() {
    let mut machine = SceneMachine::new(GameState::Main);
    let bindings = vec![
        SceneBinding { button_id: 10, target: GameState::Cauldron },
        SceneBinding { button_id: 11, target: GameState::Main },
    ];
    machine.route_button_events(&vec![ButtonPressedEvent(10)], &bindings);
    let hooks = machine.advance();
    // on_exit(Main) exactly once, then on_enter(Cauldron) exactly once,
    // with no other scene's update hook in between
    assert_eq!(hooks, vec![
        SceneHook::Exit(GameState::Main),
        SceneHook::Enter(GameState::Cauldron),
    ]);
    assert_eq!(machine.current, GameState::Cauldron);
    // the following frame just updates the new scene
    let hooks = machine.advance();
    assert_eq!(hooks, vec![SceneHook::Update(GameState::Cauldron)]);
}

#[test]
fn return_button_goes_back_to_main() {
    let mut machine = SceneMachine::new(GameState::Cauldron);
    let bindings = vec![SceneBinding { button_id: 11, target: GameState::Main }];
    machine.route_button_events(&vec![ButtonPressedEvent(11)], &bindings);
    let hooks = machine.advance();
    assert_eq!(hooks, vec![
        SceneHook::Exit(GameState::Cauldron),
        SceneHook::Enter(GameState::Main),
    ]);
}

#[test]
fn last_transition_request_of_a_frame_wins() {
    let mut machine = SceneMachine::new(GameState::Main);
    let bindings = vec![
        SceneBinding { button_id: 10, target: GameState::Cauldron },
        SceneBinding { button_id: 11, target: GameState::Main },
    ];
    // two requests in one frame: the later one replaces the earlier one,
    // and a request for the active scene is dropped
    machine.route_button_events(
        &vec![ButtonPressedEvent(10), ButtonPressedEvent(11)],
        &bindings,
    );
    assert_eq!(machine.pending, Some(GameState::Cauldron));
    let hooks = machine.advance();
    assert_eq!(hooks, vec![
        SceneHook::Exit(GameState::Main),
        SceneHook::Enter(GameState::Cauldron),
    ]);
}

#[test]
fn unbound_buttons_request_nothing() {
    let mut machine = SceneMachine::new(GameState::Main);
    let bindings = vec![SceneBinding { button_id: 10, target: GameState::Cauldron }];
    machine.route_button_events(&vec![ButtonPressedEvent(99)], &bindings);
    let hooks = machine.advance();
    assert_eq!(hooks, vec![SceneHook::Update(GameState::Main)]);
    assert_eq!(machine.current, GameState::Main);
}
