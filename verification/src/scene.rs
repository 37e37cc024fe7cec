//! The scene state machine: a closed set of named scenes, exactly one
//! active at a time, with enter/update/exit lifecycle hooks. Transitions
//! are requested by marked buttons through `ButtonPressedEvent`s.

use vstd::prelude::*;

use crate::button::ButtonPressedEvent;

verus! {

/// Label of the single driving schedule stage.
#[derive(Clone, Copy, Debug, PartialEq, Eq, Structural, Hash, PartialOrd, Ord)]
pub enum GameStage {
    Main,
}

/// The closed set of scenes.
#[derive(Clone, Copy, Debug, PartialEq, Eq, Structural)]
pub enum GameState {
    Main,
    Cauldron,
}

/// A lifecycle hook invocation: run once when a scene becomes active, once
/// per frame while it is, and once when it is left.
#[derive(Clone, Copy, Debug, PartialEq, Eq, Structural)]
pub enum SceneHook {
    Enter(GameState),
    Update(GameState),
    Exit(GameState),
}

/// The scene state machine: one active scene and at most one pending
/// transition request. Within a frame, a later request replaces an
/// earlier one (last request wins), and a request for the scene that is
/// already active is dropped.
#[derive(Clone, Copy, Debug, PartialEq, Eq, Structural)]
pub struct SceneMachine {
    pub current: GameState,
    pub pending: Option<GameState>,
}

/// A transition request: recorded unless it names the active scene.
pub open spec fn request_spec(m: SceneMachine, target: GameState) -> SceneMachine {
    if target != m.current {
        SceneMachine { current: m.current, pending: Option::Some(target) }
    } else {
        m
    }
}

/// One frame of the scene machine: on a pending transition, the old scene
/// exits, the new one enters, and nothing else runs in between; otherwise
/// the active scene updates. The pending slot is drained either way.
pub open spec fn advance_spec(m: SceneMachine) -> (SceneMachine, Seq<SceneHook>) {
    match m.pending {
        Option::Some(next) => if next != m.current {
            (
                SceneMachine { current: next, pending: Option::None },
                seq![SceneHook::Exit(m.current), SceneHook::Enter(next)],
            )
        } else {
            (
                SceneMachine { current: m.current, pending: Option::None },
                seq![SceneHook::Update(m.current)],
            )
        },
        Option::None => (
            SceneMachine { current: m.current, pending: Option::None },
            seq![SceneHook::Update(m.current)],
        ),
    }
}

/// A binding from a marked button entity to the scene it requests.
#[derive(Clone, Copy, Debug, PartialEq, Eq, Structural)]
pub struct SceneBinding {
    pub button_id: u64,
    pub target: GameState,
}

/// The scene bound to the given button, if any: the first matching
/// binding at or after `i` wins.
pub open spec fn binding_target(bindings: Seq<SceneBinding>, id: u64, i: int) -> Option<GameState>
    decreases bindings.len() - i,
{
    if i < 0 || i >= bindings.len() {
        Option::None
    } else if bindings[i].button_id == id {
        Option::Some(bindings[i].target)
    } else {
        binding_target(bindings, id, i + 1)
    }
}

/// The machine after the button events at index `i` and beyond were
/// routed, in order: every event from a bound button files a request, and
/// the last request wins.
pub open spec fn route_spec(
    m: SceneMachine,
    events: Seq<ButtonPressedEvent>,
    bindings: Seq<SceneBinding>,
    i: int,
) -> SceneMachine
    decreases events.len() - i,
{
    if i < 0 || i >= events.len() {
        m
    } else {
        let m1 = match binding_target(bindings, events[i].0, 0) {
            Option::Some(target) => request_spec(m, target),
            Option::None => m,
        };
        route_spec(m1, events, bindings, i + 1)
    }
}

impl SceneMachine {
    /// A machine starting in the given scene, with nothing pending.
    pub fn new(initial: GameState) -> (m: SceneMachine)
        ensures
            m.current == initial,
            m.pending == Option::<GameState>::None,
    {
        SceneMachine { current: initial, pending: Option::None }
    }

    /// Files a transition request, exactly as `request_spec` describes.
    pub fn request(&mut self, target: GameState)
        ensures
            *final(self) == request_spec(*old(self), target),
    {
        if target != self.current {
            self.pending = Option::Some(target);
        }
    }

    /// Runs one frame of the machine and returns the lifecycle hooks to
    /// invoke, in order, exactly as `advance_spec` describes.
    pub fn advance(&mut self) -> (hooks: Vec<SceneHook>)
        ensures
            *final(self) == advance_spec(*old(self)).0,
            hooks@ == advance_spec(*old(self)).1,
    {
        match self.pending {
            Option::Some(next) => {
                self.pending = Option::None;
                if next != self.current {
                    let was = self.current;
                    self.current = next;
                    let mut hooks: Vec<SceneHook> = Vec::new();
                    hooks.push(SceneHook::Exit(was));
                    hooks.push(SceneHook::Enter(next));
                    assert(hooks@ =~= advance_spec(*old(self)).1);
                    hooks
                } else {
                    let mut hooks: Vec<SceneHook> = Vec::new();
                    hooks.push(SceneHook::Update(self.current));
                    assert(hooks@ =~= advance_spec(*old(self)).1);
                    hooks
                }
            },
            Option::None => {
                let mut hooks: Vec<SceneHook> = Vec::new();
                hooks.push(SceneHook::Update(self.current));
                assert(hooks@ =~= advance_spec(*old(self)).1);
                hooks
            },
        }
    }

    /// Routes a frame's button events through the given bindings, exactly
    /// as `route_spec` describes.
    pub fn route_button_events(
        &mut self,
        events: &Vec<ButtonPressedEvent>,
        bindings: &Vec<SceneBinding>,
    )
        ensures
            *final(self) == route_spec(*old(self), events@, bindings@, 0),
    {
        let n = events.len();
        let mut i: usize = 0;
        while i < n
            invariant
                0 <= i <= n,
                n == events@.len(),
                route_spec(*old(self), events@, bindings@, 0) == route_spec(
                    *self,
                    events@,
                    bindings@,
                    i as int,
                ),
            decreases n - i,
        {
            let ev = events[i];
            match self.lookup_binding(bindings, ev.0) {
                Option::Some(target) => {
                    self.request(target);
                },
                Option::None => {},
            }
            i += 1;
        }
    }

    /// The scene bound to the given button, if any.
    fn lookup_binding(&self, bindings: &Vec<SceneBinding>, id: u64) -> (r: Option<GameState>)
        ensures
            r == binding_target(bindings@, id, 0),
    {
        let n = bindings.len();
        let mut i: usize = 0;
        while i < n
            invariant
                0 <= i <= n,
                n == bindings@.len(),
                binding_target(bindings@, id, 0) == binding_target(bindings@, id, i as int),
            decreases n - i,
        {
            if bindings[i].button_id == id {
                return Option::Some(bindings[i].target);
            }
            i += 1;
        }
        Option::None
    }
}

} // verus!
