//! The drag controller: a per-entity state machine `Idle -> Dragging ->
//! Dropped -> Idle` driven by pointer-button edges, plus the rigid follow
//! that keeps a dragged entity at the cursor position plus a frozen offset.

use vstd::prelude::*;

use crate::geom::{contains_point, point_in_box, Point2, PointView};
use crate::world::{
    any_dragging, cursor_ok, entities_bounded, hover_consistent_undragged, CursorView, DragPhase,
    EntityRecord, EntityView, World, WorldView,
};

verus! {

/// Edge state of the pointer button in one frame.
#[derive(Clone, Copy, Debug, PartialEq, Eq, Structural)]
pub enum PointerEdge {
    /// The button went down this frame.
    Down,
    /// The button went up this frame.
    Up,
    /// No edge this frame (held or idle).
    Steady,
}

/// Emitted once when an entity is picked up.
#[derive(Clone, Copy, Debug, PartialEq, Eq, Structural)]
pub struct DraggedEvent(pub u64);

/// An entity the pointer can pick up: hovered, draggable, and idle. An
/// entity already being dragged is never eligible to be picked up again.
pub open spec fn can_pick(e: EntityView) -> bool {
    e.hovered && e.draggable && e.phase == DragPhase::Idle
}

/// Index of the first entity at or after `i` that the pointer would pick
/// up, or -1 when none qualifies. The lowest index wins: this is the
/// engine's documented tie-break when several hovered draggables overlap.
pub open spec fn pick_from(s: Seq<EntityView>, i: int) -> int
    decreases s.len() - i,
{
    if i < 0 || i >= s.len() {
        -1
    } else if can_pick(s[i]) {
        i
    } else {
        pick_from(s, i + 1)
    }
}

/// The pointer-down step. If no drag is in progress and some entity can be
/// picked, the first such entity starts dragging, the drag offset is frozen
/// as entity position minus cursor position, and one `DraggedEvent` with
/// the entity's identifier is emitted. Otherwise nothing changes.
pub open spec fn press_step(w: WorldView) -> (WorldView, Seq<u64>) {
    let p = pick_from(w.entities, 0);
    if any_dragging(w.entities) || p < 0 {
        (w, Seq::empty())
    } else {
        let e = w.entities[p];
        (
            WorldView {
                entities: w.entities.update(p, EntityView { phase: DragPhase::Dragging, ..e }),
                cursor: CursorView {
                    world: w.cursor.world,
                    offset: PointView {
                        x: e.position.x - w.cursor.world.x,
                        y: e.position.y - w.cursor.world.y,
                    },
                    moved: w.cursor.moved,
                },
            },
            seq![e.id],
        )
    }
}

/// One entity after the pointer-up step: a dragging entity moves to the
/// `Dropped` phase. Its hover mark, which the hover pass skipped while the
/// entity was dragged, is refreshed at the same time: it keeps the mark iff
/// it has a hover-relevant capability and its box contains the cursor.
pub open spec fn release_entity(e: EntityView, cursor_world: PointView) -> EntityView {
    if e.phase == DragPhase::Dragging {
        EntityView {
            phase: DragPhase::Dropped,
            hovered: (e.hoverable || e.drop_target) && contains_point(
                e.position,
                e.half_extent,
                cursor_world,
            ),
            ..e
        }
    } else {
        e
    }
}

/// The pointer-up step over the whole world.
pub open spec fn release_step(w: WorldView) -> WorldView {
    WorldView {
        entities: Seq::new(
            w.entities.len(),
            |i: int| release_entity(w.entities[i], w.cursor.world),
        ),
        cursor: w.cursor,
    }
}

/// The drag controller's reaction to this frame's pointer edge.
pub open spec fn pointer_step(w: WorldView, edge: PointerEdge) -> (WorldView, Seq<u64>) {
    match edge {
        PointerEdge::Down => press_step(w),
        PointerEdge::Up => (release_step(w), Seq::empty()),
        PointerEdge::Steady => (w, Seq::empty()),
    }
}

/// One entity after the follow step: a dragging entity sits at the cursor's
/// world position plus the frozen drag offset; no smoothing, no physics.
pub open spec fn follow_entity(e: EntityView, c: CursorView) -> EntityView {
    if e.phase == DragPhase::Dragging {
        EntityView {
            position: PointView { x: c.world.x + c.offset.x, y: c.world.y + c.offset.y },
            ..e
        }
    } else {
        e
    }
}

/// The follow step over the whole world.
pub open spec fn follow_step(w: WorldView) -> WorldView {
    WorldView {
        entities: Seq::new(w.entities.len(), |i: int| follow_entity(w.entities[i], w.cursor)),
        cursor: w.cursor,
    }
}

impl World {
    /// The pointer-down reaction, exactly as `press_step` describes.
    pub fn press_pointer(&mut self) -> (dragged: Vec<DraggedEvent>)
        requires
            cursor_ok(old(self)@.cursor),
            entities_bounded(old(self)@.entities),
            hover_consistent_undragged(old(self)@),
        ensures
            final(self)@ == press_step(old(self)@).0,
            dragged@.map_values(|ev: DraggedEvent| ev.0) == press_step(old(self)@).1,
            cursor_ok(final(self)@.cursor),
    {
        let ghost w0 = self@;
        if self.drag_in_progress() {
            let r: Vec<DraggedEvent> = Vec::new();
            assert(r@.map_values(|ev: DraggedEvent| ev.0) =~= press_step(w0).1);
            return r;
        }
        let n = self.entities.len();
        let mut i: usize = 0;
        while i < n
            invariant
                0 <= i <= n,
                n == self@.entities.len(),
                self@.entities.len() == self.entities@.len(),
                self@ == w0,
                w0 == old(self)@,
                cursor_ok(w0.cursor),
                entities_bounded(w0.entities),
                hover_consistent_undragged(w0),
                !any_dragging(w0.entities),
                pick_from(w0.entities, 0) == pick_from(w0.entities, i as int),
            decreases n - i,
        {
            let e = self.entities[i];
            assert(e@ == w0.entities[i as int]);
            if e.hovered && e.draggable && e.phase == DragPhase::Idle {
                assert(can_pick(w0.entities[i as int]));
                assert(pick_from(w0.entities, 0) == i);
                let off = Point2 {
                    x: e.position.x - self.cursor.world.x,
                    y: e.position.y - self.cursor.world.y,
                };
                self.cursor.offset = off;
                self.entities.set(i, EntityRecord { phase: DragPhase::Dragging, ..e });
                let mut r: Vec<DraggedEvent> = Vec::new();
                r.push(DraggedEvent(e.id));
                proof {
                    assert(contains_point(
                        w0.entities[i as int].position,
                        w0.entities[i as int].half_extent,
                        w0.cursor.world,
                    ));
                    assert(self@.entities =~= press_step(w0).0.entities);
                    assert(self@ == press_step(w0).0);
                    assert(r@.map_values(|ev: DraggedEvent| ev.0) =~= press_step(w0).1);
                }
                return r;
            }
            assert(!can_pick(w0.entities[i as int]));
            i += 1;
        }
        assert(pick_from(w0.entities, 0) == -1);
        let r: Vec<DraggedEvent> = Vec::new();
        assert(r@.map_values(|ev: DraggedEvent| ev.0) =~= press_step(w0).1);
        r
    }

    /// The pointer-up reaction, exactly as `release_step` describes.
    pub fn release_pointer(&mut self)
        requires
            cursor_ok(old(self)@.cursor),
            entities_bounded(old(self)@.entities),
        ensures
            final(self)@ == release_step(old(self)@),
            final(self)@.cursor == old(self)@.cursor,
    {
        let ghost w0 = self@;
        let n = self.entities.len();
        let mut i: usize = 0;
        while i < n
            invariant
                0 <= i <= n,
                n == self@.entities.len(),
                self@.entities.len() == self.entities@.len(),
                self.cursor == old(self).cursor,
                self@.cursor == w0.cursor,
                w0 == old(self)@,
                cursor_ok(w0.cursor),
                entities_bounded(w0.entities),
                n == w0.entities.len(),
                forall|k: int|
                    0 <= k < i ==> #[trigger] self@.entities[k] == release_entity(
                        w0.entities[k],
                        w0.cursor.world,
                    ),
                forall|k: int| i <= k < n ==> #[trigger] self@.entities[k] == w0.entities[k],
            decreases n - i,
        {
            let ghost prev = self@.entities;
            let e = self.entities[i];
            assert(e@ == w0.entities[i as int]);
            if e.phase == DragPhase::Dragging {
                let keeps = (e.hoverable || e.drop_target) && point_in_box(
                    e.position,
                    e.half_extent,
                    self.cursor.world,
                );
                self.entities.set(
                    i,
                    EntityRecord { phase: DragPhase::Dropped, hovered: keeps, ..e },
                );
                proof {
                    assert forall|k: int| 0 <= k < n && k != i implies #[trigger] self@.entities[k]
                        == prev[k] by {
                        assert(self.entities@[k]@ == prev[k]);
                    }
                    assert(self@.entities[i as int] == release_entity(
                        w0.entities[i as int],
                        w0.cursor.world,
                    ));
                }
            } else {
                assert(self@.entities[i as int] == release_entity(
                    w0.entities[i as int],
                    w0.cursor.world,
                ));
            }
            i += 1;
        }
        proof {
            assert(self@.entities =~= release_step(w0).entities);
            assert(self@ == release_step(w0));
        }
    }

    /// The drag controller's reaction to this frame's pointer edge, exactly
    /// as `pointer_step` describes.
    pub fn apply_pointer(&mut self, edge: PointerEdge) -> (dragged: Vec<DraggedEvent>)
        requires
            cursor_ok(old(self)@.cursor),
            entities_bounded(old(self)@.entities),
            hover_consistent_undragged(old(self)@),
        ensures
            final(self)@ == pointer_step(old(self)@, edge).0,
            dragged@.map_values(|ev: DraggedEvent| ev.0) == pointer_step(old(self)@, edge).1,
            cursor_ok(final(self)@.cursor),
    {
        match edge {
            PointerEdge::Down => self.press_pointer(),
            PointerEdge::Up => {
                self.release_pointer();
                let r: Vec<DraggedEvent> = Vec::new();
                assert(r@.map_values(|ev: DraggedEvent| ev.0) =~= Seq::<u64>::empty());
                r
            },
            PointerEdge::Steady => {
                let r: Vec<DraggedEvent> = Vec::new();
                assert(r@.map_values(|ev: DraggedEvent| ev.0) =~= Seq::<u64>::empty());
                r
            },
        }
    }

    /// Moves every dragging entity to the cursor position plus the frozen
    /// drag offset, exactly as `follow_step` describes.
    pub fn follow_cursor(&mut self)
        requires
            cursor_ok(old(self)@.cursor),
        ensures
            final(self)@ == follow_step(old(self)@),
            final(self)@.cursor == old(self)@.cursor,
    {
        let ghost w0 = self@;
        let n = self.entities.len();
        let mut i: usize = 0;
        while i < n
            invariant
                0 <= i <= n,
                n == self@.entities.len(),
                self@.entities.len() == self.entities@.len(),
                self.cursor == old(self).cursor,
                self@.cursor == w0.cursor,
                w0 == old(self)@,
                cursor_ok(w0.cursor),
                n == w0.entities.len(),
                forall|k: int|
                    0 <= k < i ==> #[trigger] self@.entities[k] == follow_entity(
                        w0.entities[k],
                        w0.cursor,
                    ),
                forall|k: int| i <= k < n ==> #[trigger] self@.entities[k] == w0.entities[k],
            decreases n - i,
        {
            let ghost prev = self@.entities;
            let e = self.entities[i];
            assert(e@ == w0.entities[i as int]);
            if e.phase == DragPhase::Dragging {
                let pos = Point2 {
                    x: self.cursor.world.x + self.cursor.offset.x,
                    y: self.cursor.world.y + self.cursor.offset.y,
                };
                self.entities.set(i, EntityRecord { position: pos, ..e });
                proof {
                    assert forall|k: int| 0 <= k < n && k != i implies #[trigger] self@.entities[k]
                        == prev[k] by {
                        assert(self.entities@[k]@ == prev[k]);
                    }
                    assert(self@.entities[i as int] == follow_entity(
                        w0.entities[i as int],
                        w0.cursor,
                    ));
                }
            } else {
                assert(self@.entities[i as int] == follow_entity(w0.entities[i as int], w0.cursor));
            }
            i += 1;
        }
        proof {
            assert(self@.entities =~= follow_step(w0).entities);
            assert(self@ == follow_step(w0));
        }
    }
}

} // verus!
