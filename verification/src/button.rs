//! The UI button state machine: press-down on a click, commit and emit on
//! a release that is still over the button, cancel silently otherwise.

use vstd::prelude::*;

verus! {

/// State of one UI button.
#[derive(Clone, Copy, Debug, PartialEq, Eq, Structural)]
pub enum ButtonState {
    Pressed,
    Released,
}

impl Default for ButtonState {
    /// A button starts released.
    fn default() -> (r: ButtonState)
        ensures
            r == ButtonState::Released,
    {
        ButtonState::Released
    }
}

/// The three-valued interaction signal a button entity observes in one
/// frame: the pointer clicked it, merely hovers over it, or neither.
#[derive(Clone, Copy, Debug, PartialEq, Eq, Structural)]
pub enum InteractionSignal {
    Clicked,
    Hovered,
    Idle,
}

/// Emitted once when a button click commits: pressed, then released while
/// the pointer was still over the button.
#[derive(Clone, Copy, Debug, PartialEq, Eq, Structural)]
pub struct ButtonPressedEvent(pub u64);

/// The transition function of the button state machine. A click on a
/// released button presses it, emitting nothing yet. A hover signal on a
/// pressed button is the committed click: the button releases and the
/// event fires. Any other signal on a pressed button releases it silently:
/// pressing, dragging off the button and releasing is a cancelled click.
pub open spec fn button_step(state: ButtonState, signal: InteractionSignal) -> (ButtonState, bool) {
    match (state, signal) {
        (ButtonState::Released, InteractionSignal::Clicked) => (ButtonState::Pressed, false),
        (ButtonState::Released, _) => (ButtonState::Released, false),
        (ButtonState::Pressed, InteractionSignal::Hovered) => (ButtonState::Released, true),
        (ButtonState::Pressed, _) => (ButtonState::Released, false),
    }
}

/// A `ButtonPressedEvent` fires on exactly one transition: a pressed
/// button that observes a hover signal.
pub proof fn lemma_button_emits_iff_committed(state: ButtonState, signal: InteractionSignal)
    ensures
        button_step(state, signal).1 <==> (state == ButtonState::Pressed && signal
            == InteractionSignal::Hovered),
{
}

/// One UI button entity: its identifier, its state, and the signal it
/// observed last. Only a change of signal drives the machine: a signal
/// equal to the last observed one is not re-observed, so holding the
/// button down across many frames is a single press.
#[derive(Clone, Copy, Debug, PartialEq, Eq, Structural)]
pub struct ButtonRecord {
    pub id: u64,
    pub state: ButtonState,
    pub last_signal: InteractionSignal,
}

impl ButtonRecord {
    /// A fresh button: released, nothing observed yet.
    pub fn new(id: u64) -> (b: ButtonRecord)
        ensures
            b == (ButtonRecord {
                id,
                state: ButtonState::Released,
                last_signal: InteractionSignal::Idle,
            }),
    {
        ButtonRecord { id, state: ButtonState::Released, last_signal: InteractionSignal::Idle }
    }
}

/// One button observing this frame's raw signal: an unchanged signal is
/// not re-observed and leaves the button as it is; a changed one steps
/// the state machine and is recorded.
pub open spec fn observe_step(b: ButtonRecord, signal: InteractionSignal) -> (ButtonRecord, bool) {
    if signal == b.last_signal {
        (b, false)
    } else {
        (
            ButtonRecord {
                id: b.id,
                state: button_step(b.state, signal).0,
                last_signal: signal,
            },
            button_step(b.state, signal).1,
        )
    }
}

/// The interaction signal observed on one button entity this frame.
#[derive(Clone, Copy, Debug, PartialEq, Eq, Structural)]
pub struct SignalEvent {
    pub id: u64,
    pub signal: InteractionSignal,
}

/// The signal addressed to the given identifier: the first matching entry
/// at or after `i`, if any.
pub open spec fn signal_from(signals: Seq<SignalEvent>, id: u64, i: int) -> Option<
    InteractionSignal,
>
    decreases signals.len() - i,
{
    if i < 0 || i >= signals.len() {
        Option::None
    } else if signals[i].id == id {
        Option::Some(signals[i].signal)
    } else {
        signal_from(signals, id, i + 1)
    }
}

/// One button after a frame's signals: observing its own signal if one
/// arrived, untouched otherwise.
pub open spec fn button_after(b: ButtonRecord, signals: Seq<SignalEvent>) -> ButtonRecord {
    match signal_from(signals, b.id, 0) {
        Option::Some(s) => observe_step(b, s).0,
        Option::None => b,
    }
}

/// The committed clicks of a frame, in button order: one event for every
/// button whose transition fired.
pub open spec fn pressed_from(buttons: Seq<ButtonRecord>, signals: Seq<SignalEvent>, i: int) -> Seq<
    u64,
>
    decreases buttons.len() - i,
{
    if i < 0 || i >= buttons.len() {
        Seq::empty()
    } else {
        let rest = pressed_from(buttons, signals, i + 1);
        match signal_from(signals, buttons[i].id, 0) {
            Option::Some(s) => if observe_step(buttons[i], s).1 {
                seq![buttons[i].id] + rest
            } else {
                rest
            },
            Option::None => rest,
        }
    }
}

/// Executable transition of one button.
pub fn step_button(state: ButtonState, signal: InteractionSignal) -> (r: (ButtonState, bool))
    ensures
        r == button_step(state, signal),
{
    match (state, signal) {
        (ButtonState::Released, InteractionSignal::Clicked) => (ButtonState::Pressed, false),
        (ButtonState::Released, _) => (ButtonState::Released, false),
        (ButtonState::Pressed, InteractionSignal::Hovered) => (ButtonState::Released, true),
        (ButtonState::Pressed, _) => (ButtonState::Released, false),
    }
}

/// Executable observation of one raw signal by one button.
pub fn observe_button(b: ButtonRecord, signal: InteractionSignal) -> (r: (ButtonRecord, bool))
    ensures
        r == observe_step(b, signal),
{
    if signal == b.last_signal {
        (b, false)
    } else {
        let (state, fired) = step_button(b.state, signal);
        (ButtonRecord { id: b.id, state, last_signal: signal }, fired)
    }
}

/// The signal addressed to the given identifier, if any.
fn find_signal(signals: &Vec<SignalEvent>, id: u64) -> (r: Option<InteractionSignal>)
    ensures
        r == signal_from(signals@, id, 0),
{
    let n = signals.len();
    let mut i: usize = 0;
    while i < n
        invariant
            0 <= i <= n,
            n == signals@.len(),
            signal_from(signals@, id, 0) == signal_from(signals@, id, i as int),
        decreases n - i,
    {
        if signals[i].id == id {
            return Option::Some(signals[i].signal);
        }
        i += 1;
    }
    Option::None
}

/// Steps every button by the signal addressed to it this frame and
/// returns the committed clicks, in button order.
pub fn process_buttons(buttons: &mut Vec<ButtonRecord>, signals: &Vec<SignalEvent>) -> (events: Vec<
    ButtonPressedEvent,
>)
    ensures
        final(buttons)@.len() == old(buttons)@.len(),
        forall|i: int|
            0 <= i < old(buttons)@.len() ==> #[trigger] final(buttons)@[i] == button_after(
                old(buttons)@[i],
                signals@,
            ),
        events@.map_values(|ev: ButtonPressedEvent| ev.0) == pressed_from(
            old(buttons)@,
            signals@,
            0,
        ),
{
    let ghost b0 = buttons@;
    let n = buttons.len();
    let mut events: Vec<ButtonPressedEvent> = Vec::new();
    let mut i: usize = 0;
    while i < n
        invariant
            0 <= i <= n,
            n == buttons@.len(),
            b0.len() == n,
            b0 == old(buttons)@,
            forall|k: int|
                0 <= k < i ==> #[trigger] buttons@[k] == button_after(b0[k], signals@),
            forall|k: int| i <= k < n ==> #[trigger] buttons@[k] == b0[k],
            events@.map_values(|ev: ButtonPressedEvent| ev.0) + pressed_from(
                b0,
                signals@,
                i as int,
            ) == pressed_from(b0, signals@, 0),
        decreases n - i,
    {
        let ghost prev = buttons@;
        let ghost prev_events = events@;
        let b = buttons[i];
        assert(b == b0[i as int]);
        match find_signal(signals, b.id) {
            Option::Some(s) => {
                let (stepped, fired) = observe_button(b, s);
                buttons.set(i, stepped);
                if fired {
                    events.push(ButtonPressedEvent(b.id));
                }
                proof {
                    assert forall|k: int| 0 <= k < n && k != i implies #[trigger] buttons@[k]
                        == prev[k] by {}
                    assert(buttons@[i as int] == button_after(b0[i as int], signals@));
                    if fired {
                        assert(events@.map_values(|ev: ButtonPressedEvent| ev.0)
                            =~= prev_events.map_values(|ev: ButtonPressedEvent| ev.0).push(b.id));
                    }
                    assert(events@.map_values(|ev: ButtonPressedEvent| ev.0) + pressed_from(
                        b0,
                        signals@,
                        i + 1,
                    ) =~= prev_events.map_values(|ev: ButtonPressedEvent| ev.0) + pressed_from(
                        b0,
                        signals@,
                        i as int,
                    ));
                }
            },
            Option::None => {
                assert(buttons@[i as int] == button_after(b0[i as int], signals@));
            },
        }
        i += 1;
    }
    proof {
        assert(pressed_from(b0, signals@, n as int) =~= Seq::<u64>::empty());
        assert(events@.map_values(|ev: ButtonPressedEvent| ev.0) =~= pressed_from(
            b0,
            signals@,
            0,
        ));
    }
    events
}

} // verus!
