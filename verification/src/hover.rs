//! Hover detection: when the cursor moved this frame, recompute the hover
//! mark of every candidate entity from the cursor's world position.

use vstd::prelude::*;

use crate::geom::{contains_point, point_in_box, PointView};
use crate::world::{
    any_dragging, cursor_ok, entities_bounded, DragPhase, EntityRecord, EntityView, World,
    WorldView,
};

verus! {

/// The hover flag a candidate entity receives. An entity that is a drop
/// target but not hoverable is forced to "not hovered" unless a drag is in
/// progress: drop zones light up only while something is being carried.
/// Every other candidate is hovered iff its box contains the cursor.
pub open spec fn hover_flag(e: EntityView, cursor_world: PointView, dragging: bool) -> bool {
    if e.drop_target && !e.hoverable && !dragging {
        false
    } else {
        contains_point(e.position, e.half_extent, cursor_world)
    }
}

/// One entity after the hover pass. Entities currently being dragged and
/// entities with neither hover capability nor drop-target capability are
/// left untouched; every other entity gets the flag computed above.
pub open spec fn hovered_entity(e: EntityView, cursor_world: PointView, dragging: bool) -> EntityView {
    if e.phase == DragPhase::Dragging || !(e.hoverable || e.drop_target) {
        e
    } else {
        EntityView { hovered: hover_flag(e, cursor_world, dragging), ..e }
    }
}

/// The hover pass over the whole world. It runs only when the cursor moved
/// this frame; otherwise hover state holds over from the previous frame.
pub open spec fn hover_step(w: WorldView) -> WorldView {
    if !w.cursor.moved {
        w
    } else {
        WorldView {
            entities: Seq::new(
                w.entities.len(),
                |i: int| hovered_entity(w.entities[i], w.cursor.world, any_dragging(w.entities)),
            ),
            cursor: w.cursor,
        }
    }
}

impl World {
    /// Recomputes the hover mark of every candidate entity, exactly as
    /// `hover_step` describes.
    pub fn detect_hover(&mut self)
        requires
            cursor_ok(old(self)@.cursor),
            entities_bounded(old(self)@.entities),
        ensures
            final(self)@ == hover_step(old(self)@),
    {
        if !self.cursor.moved {
            return ;
        }
        let dragging = self.drag_in_progress();
        let ghost w0 = self@;
        let n = self.entities.len();
        let mut i: usize = 0;
        while i < n
            invariant
                0 <= i <= n,
                n == self@.entities.len(),
                self@.entities.len() == self.entities@.len(),
                self.cursor == old(self).cursor,
                self@.cursor == w0.cursor,
                w0 == old(self)@,
                w0.cursor.moved,
                cursor_ok(w0.cursor),
                entities_bounded(w0.entities),
                n == w0.entities.len(),
                dragging == any_dragging(w0.entities),
                forall|k: int|
                    0 <= k < i ==> #[trigger] self@.entities[k] == hovered_entity(
                        w0.entities[k],
                        w0.cursor.world,
                        dragging,
                    ),
                forall|k: int| i <= k < n ==> #[trigger] self@.entities[k] == w0.entities[k],
            decreases n - i,
        {
            let ghost prev = self@.entities;
            let e = self.entities[i];
            assert(e@ == w0.entities[i as int]);
            if e.phase != DragPhase::Dragging && (e.hoverable || e.drop_target) {
                let flag: bool = if e.drop_target && !e.hoverable && !dragging {
                    false
                } else {
                    point_in_box(e.position, e.half_extent, self.cursor.world)
                };
                self.entities.set(i, EntityRecord { hovered: flag, ..e });
                proof {
                    assert forall|k: int| 0 <= k < n && k != i implies #[trigger] self@.entities[k]
                        == prev[k] by {
                        assert(self.entities@[k]@ == prev[k]);
                    }
                    assert(self@.entities[i as int] == hovered_entity(
                        w0.entities[i as int],
                        w0.cursor.world,
                        dragging,
                    ));
                }
            } else {
                assert(self@.entities[i as int] == hovered_entity(
                    w0.entities[i as int],
                    w0.cursor.world,
                    dragging,
                ));
            }
            i += 1;
        }
        proof {
            assert(self@.entities =~= hover_step(w0).entities);
            assert(self@ == hover_step(old(self)@));
        }
    }
}

} // verus!
