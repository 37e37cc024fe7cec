//! Drop resolution: when a drag ends, scan the drop targets for one whose
//! box contains the cursor, emit the drop events, and return every dropped
//! entity to the idle phase.

use vstd::prelude::*;

use crate::geom::{contains_point, point_in_box, PointView};
use crate::world::{
    cursor_ok, entities_bounded, DragPhase, EntityRecord, EntityView, World, WorldView,
};

verus! {

/// Emitted once for every entity whose drag ended this frame, whether or
/// not it landed on a target.
#[derive(Clone, Copy, Debug, PartialEq, Eq, Structural)]
pub struct DroppedEvent(pub u64);

/// Emitted in addition to `DroppedEvent` when the drop landed on a target:
/// `src` was dropped onto `dst`.
#[derive(Clone, Copy, Debug, PartialEq, Eq, Structural)]
pub struct DroppedOntoEvent {
    pub src: u64,
    pub dst: u64,
}

/// A drop target able to receive a drop at cursor position `p`: it carries
/// the capability, is not itself being dragged, and its box contains `p`.
pub open spec fn open_target(e: EntityView, p: PointView) -> bool {
    e.drop_target && e.phase != DragPhase::Dragging && contains_point(e.position, e.half_extent, p)
}

/// Index of the last entity before `n` that can receive a drop at `p`, or
/// -1 when none can.
pub open spec fn target_before(s: Seq<EntityView>, p: PointView, n: int) -> int
    decreases n,
{
    if n <= 0 || n > s.len() {
        -1
    } else if open_target(s[n - 1], p) {
        n - 1
    } else {
        target_before(s, p, n - 1)
    }
}

/// The winning drop target: the highest-index entity able to receive a
/// drop at `p`, or -1 when none can. The highest index wins: this is the
/// engine's documented tie-break when several drop targets overlap.
pub open spec fn drop_target_index(s: Seq<EntityView>, p: PointView) -> int {
    target_before(s, p, s.len() as int)
}

/// The drop events for the entities at index `i` and beyond, in index
/// order, given the winning target index `t`. Every dropped entity yields
/// one `DroppedEvent`; when a target won, it also yields one
/// `DroppedOntoEvent` naming that target.
pub open spec fn drop_events_from(s: Seq<EntityView>, t: int, i: int) -> (Seq<u64>, Seq<
    DroppedOntoEvent,
>)
    decreases s.len() - i,
{
    if i < 0 || i >= s.len() {
        (Seq::empty(), Seq::empty())
    } else {
        let rest = drop_events_from(s, t, i + 1);
        if s[i].phase == DragPhase::Dropped {
            (
                seq![s[i].id] + rest.0,
                if 0 <= t < s.len() {
                    seq![DroppedOntoEvent { src: s[i].id, dst: s[t].id }] + rest.1
                } else {
                    rest.1
                },
            )
        } else {
            rest
        }
    }
}

/// One entity after drop resolution: a dropped entity returns to idle.
pub open spec fn clear_dropped(e: EntityView) -> EntityView {
    if e.phase == DragPhase::Dropped {
        EntityView { phase: DragPhase::Idle, ..e }
    } else {
        e
    }
}

/// The whole drop-resolution step: the events computed over the incoming
/// state, and the state with every `Dropped` phase cleared.
pub open spec fn drop_step(w: WorldView) -> (WorldView, Seq<u64>, Seq<DroppedOntoEvent>) {
    let t = drop_target_index(w.entities, w.cursor.world);
    let evs = drop_events_from(w.entities, t, 0);
    (
        WorldView {
            entities: Seq::new(w.entities.len(), |i: int| clear_dropped(w.entities[i])),
            cursor: w.cursor,
        },
        evs.0,
        evs.1,
    )
}

/// Properties of the target scan: a non-negative result is in range, can
/// receive the drop, and no later index can; a negative result means no
/// index below `n` can.
pub proof fn lemma_target_before_props(s: Seq<EntityView>, p: PointView, n: int)
    requires
        0 <= n <= s.len(),
    ensures
        -1 <= target_before(s, p, n) < n || (n == 0 && target_before(s, p, n) == -1),
        target_before(s, p, n) == -1 ==> forall|k: int| 0 <= k < n ==> !open_target(
            #[trigger] s[k],
            p,
        ),
        target_before(s, p, n) >= 0 ==> (target_before(s, p, n) < n && open_target(
            s[target_before(s, p, n)],
            p,
        ) && forall|k: int| target_before(s, p, n) < k < n ==> !open_target(#[trigger] s[k], p)),
    decreases n,
{
    if n > 0 && !open_target(s[n - 1], p) {
        lemma_target_before_props(s, p, n - 1);
    }
}

/// Two entity lists that agree, index by index, on identifiers and on
/// whether each entity can receive a drop at `p`, have the same winning
/// target index.
pub proof fn lemma_target_before_congruent(
    s1: Seq<EntityView>,
    s2: Seq<EntityView>,
    p: PointView,
    n: int,
)
    requires
        s1.len() == s2.len(),
        0 <= n <= s1.len(),
        forall|i: int|
            0 <= i < s1.len() ==> (open_target(#[trigger] s1[i], p) == open_target(s2[i], p)
                && s1[i].id == s2[i].id),
    ensures
        target_before(s1, p, n) == target_before(s2, p, n),
    decreases n,
{
    if n > 0 && !open_target(s1[n - 1], p) {
        lemma_target_before_congruent(s1, s2, p, n - 1);
    }
}

/// A list without dropped entities at or after `i` yields no drop events.
pub proof fn lemma_drop_events_empty(s: Seq<EntityView>, t: int, i: int)
    requires
        forall|k: int| i <= k < s.len() ==> (#[trigger] s[k]).phase != DragPhase::Dropped,
    ensures
        drop_events_from(s, t, i).0 == Seq::<u64>::empty(),
        drop_events_from(s, t, i).1 == Seq::<DroppedOntoEvent>::empty(),
    decreases s.len() - i,
{
    if 0 <= i < s.len() {
        lemma_drop_events_empty(s, t, i + 1);
    }
}

/// A list whose only dropped entity at or after `i` is the one at index
/// `a` yields exactly one `DroppedEvent`, and exactly one
/// `DroppedOntoEvent` naming the target `t` when `t` is a real index.
pub proof fn lemma_drop_events_single(s: Seq<EntityView>, t: int, i: int, a: int)
    requires
        0 <= i <= a < s.len(),
        s[a].phase == DragPhase::Dropped,
        forall|k: int|
            i <= k < s.len() && k != a ==> (#[trigger] s[k]).phase != DragPhase::Dropped,
    ensures
        drop_events_from(s, t, i).0 == seq![s[a].id],
        0 <= t < s.len() ==> drop_events_from(s, t, i).1 == seq![
            DroppedOntoEvent { src: s[a].id, dst: s[t].id },
        ],
        !(0 <= t < s.len()) ==> drop_events_from(s, t, i).1 == Seq::<DroppedOntoEvent>::empty(),
    decreases s.len() - i,
{
    if i == a {
        lemma_drop_events_empty(s, t, i + 1);
        assert(drop_events_from(s, t, i).0 =~= seq![s[a].id]);
        if 0 <= t < s.len() {
            assert(drop_events_from(s, t, i).1 =~= seq![
                DroppedOntoEvent { src: s[a].id, dst: s[t].id },
            ]);
        }
    } else {
        lemma_drop_events_single(s, t, i + 1, a);
    }
}

impl World {
    /// Index of the winning drop target for the current cursor position,
    /// as `drop_target_index` describes; `None` when no target contains
    /// the cursor.
    fn find_drop_target(&self) -> (r: Option<usize>)
        requires
            cursor_ok(self@.cursor),
            entities_bounded(self@.entities),
        ensures
            match r {
                Option::Some(b) => 0 <= b < self@.entities.len() && drop_target_index(
                    self@.entities,
                    self@.cursor.world,
                ) == b,
                Option::None => drop_target_index(self@.entities, self@.cursor.world) == -1,
            },
    {
        let n = self.entities.len();
        let mut best: Option<usize> = Option::None;
        let mut i: usize = 0;
        while i < n
            invariant
                0 <= i <= n,
                n == self@.entities.len(),
                self@.entities.len() == self.entities@.len(),
                cursor_ok(self@.cursor),
                entities_bounded(self@.entities),
                match best {
                    Option::Some(b) => 0 <= b < i && target_before(
                        self@.entities,
                        self@.cursor.world,
                        i as int,
                    ) == b,
                    Option::None => target_before(self@.entities, self@.cursor.world, i as int)
                        == -1,
                },
            decreases n - i,
        {
            let e = self.entities[i];
            assert(e@ == self@.entities[i as int]);
            if e.drop_target && e.phase != DragPhase::Dragging && point_in_box(
                e.position,
                e.half_extent,
                self.cursor.world,
            ) {
                assert(open_target(self@.entities[i as int], self@.cursor.world));
                best = Option::Some(i);
            } else {
                assert(!open_target(self@.entities[i as int], self@.cursor.world));
            }
            i += 1;
        }
        best
    }

    /// Resolves every drop of this frame, exactly as `drop_step` describes:
    /// returns the `DroppedEvent`s and `DroppedOntoEvent`s in entity index
    /// order and clears every `Dropped` phase.
    pub fn resolve_drops(&mut self) -> (r: (Vec<DroppedEvent>, Vec<DroppedOntoEvent>))
        requires
            cursor_ok(old(self)@.cursor),
            entities_bounded(old(self)@.entities),
        ensures
            final(self)@ == drop_step(old(self)@).0,
            r.0@.map_values(|ev: DroppedEvent| ev.0) == drop_step(old(self)@).1,
            r.1@ == drop_step(old(self)@).2,
            final(self)@.cursor == old(self)@.cursor,
    {
        let ghost w0 = self@;
        let target = self.find_drop_target();
        let ghost t = drop_target_index(w0.entities, w0.cursor.world);
        let n = self.entities.len();
        let mut dropped: Vec<DroppedEvent> = Vec::new();
        let mut onto: Vec<DroppedOntoEvent> = Vec::new();
        let mut i: usize = 0;
        while i < n
            invariant
                0 <= i <= n,
                n == self@.entities.len(),
                self@.entities.len() == self.entities@.len(),
                self.cursor == old(self).cursor,
                self@.cursor == w0.cursor,
                w0 == old(self)@,
                n == w0.entities.len(),
                t == drop_target_index(w0.entities, w0.cursor.world),
                match target {
                    Option::Some(b) => 0 <= b < n && t == b,
                    Option::None => t == -1,
                },
                forall|k: int|
                    0 <= k < i ==> #[trigger] self@.entities[k] == clear_dropped(w0.entities[k]),
                forall|k: int| i <= k < n ==> #[trigger] self@.entities[k] == w0.entities[k],
                dropped@.map_values(|ev: DroppedEvent| ev.0) + drop_events_from(
                    w0.entities,
                    t,
                    i as int,
                ).0 == drop_events_from(w0.entities, t, 0).0,
                onto@ + drop_events_from(w0.entities, t, i as int).1 == drop_events_from(
                    w0.entities,
                    t,
                    0,
                ).1,
            decreases n - i,
        {
            let ghost prev = self@.entities;
            let ghost prev_dropped = dropped@;
            let ghost prev_onto = onto@;
            let e = self.entities[i];
            assert(e@ == w0.entities[i as int]);
            if e.phase == DragPhase::Dropped {
                dropped.push(DroppedEvent(e.id));
                match target {
                    Option::Some(b) => {
                        let d = self.entities[b];
                        proof {
                            assert(d@ == self@.entities[b as int]);
                            if (b as int) < (i as int) {
                                assert(self@.entities[b as int] == clear_dropped(
                                    w0.entities[b as int],
                                ));
                            } else {
                                assert(self@.entities[b as int] == w0.entities[b as int]);
                            }
                            assert(d@.id == w0.entities[b as int].id);
                        }
                        onto.push(DroppedOntoEvent { src: e.id, dst: d.id });
                    },
                    Option::None => {},
                }
                self.entities.set(i, EntityRecord { phase: DragPhase::Idle, ..e });
                proof {
                    assert forall|k: int| 0 <= k < n && k != i implies #[trigger] self@.entities[k]
                        == prev[k] by {
                        assert(self.entities@[k]@ == prev[k]);
                    }
                    assert(self@.entities[i as int] == clear_dropped(w0.entities[i as int]));
                    assert(dropped@.map_values(|ev: DroppedEvent| ev.0) =~= prev_dropped.map_values(
                        |ev: DroppedEvent| ev.0,
                    ).push(e.id));
                    assert(dropped@.map_values(|ev: DroppedEvent| ev.0) + drop_events_from(
                        w0.entities,
                        t,
                        i + 1,
                    ).0 =~= prev_dropped.map_values(|ev: DroppedEvent| ev.0) + drop_events_from(
                        w0.entities,
                        t,
                        i as int,
                    ).0);
                    assert(onto@ + drop_events_from(w0.entities, t, i + 1).1 =~= prev_onto
                        + drop_events_from(w0.entities, t, i as int).1);
                }
            } else {
                proof {
                    assert(self@.entities[i as int] == clear_dropped(w0.entities[i as int]));
                    assert(drop_events_from(w0.entities, t, i + 1) == drop_events_from(
                        w0.entities,
                        t,
                        i as int,
                    ));
                }
            }
            i += 1;
        }
        proof {
            assert(self@.entities =~= drop_step(w0).0.entities);
            assert(self@ == drop_step(w0).0);
            assert(drop_events_from(w0.entities, t, n as int).0 =~= Seq::<u64>::empty());
            assert(drop_events_from(w0.entities, t, n as int).1 =~= Seq::<
                DroppedOntoEvent,
            >::empty());
            assert(dropped@.map_values(|ev: DroppedEvent| ev.0) =~= drop_step(w0).1);
            assert(onto@ =~= drop_step(w0).2);
        }
        (dropped, onto)
    }
}

} // verus!
