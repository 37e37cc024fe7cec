//! The engine's cross-component laws, stated and proved over the frame
//! transition `frame_spec`.

use vstd::prelude::*;

use crate::drag::{follow_entity, pick_from, release_entity, PointerEdge};
use crate::frame::{
    eq_but_hover, frame_spec, input_ok, lemma_frame_preserves_wf, lemma_pick_from_props,
    stage_cursor, stage_follow, stage_hover, stage_pointer, FrameInputView,
};
use crate::geom::PointView;
use crate::hover::hovered_entity;
use crate::resolve::{
    clear_dropped, drop_target_index, lemma_drop_events_empty, lemma_drop_events_single,
    lemma_target_before_congruent, lemma_target_before_props, open_target, DroppedOntoEvent,
};
use crate::world::{any_dragging, wf, DragPhase, EntityView, WorldView};

verus! {

/// While an entity is being dragged, it sits exactly at the cursor's world
/// position plus the drag offset, in every well-formed state.
pub proof fn lemma_dragging_follows_cursor(w: WorldView, i: int)
    requires
        wf(w),
        0 <= i < w.entities.len(),
        w.entities[i].phase == DragPhase::Dragging,
    ensures
        w.entities[i].position == (PointView {
            x: w.cursor.world.x + w.cursor.offset.x,
            y: w.cursor.world.y + w.cursor.offset.y,
        }),
{
}

/// Across a frame whose pointer button is not released, a dragged entity
/// stays dragged, its identifier and half extent are untouched, the drag
/// offset frozen at pick-up time is never recomputed, and the entity again
/// sits at the (possibly moved) cursor position plus that same offset.
pub proof fn lemma_drag_offset_fixed(w: WorldView, inp: FrameInputView, i: int)
    requires
        wf(w),
        input_ok(inp),
        inp.edge != PointerEdge::Up,
        0 <= i < w.entities.len(),
        w.entities[i].phase == DragPhase::Dragging,
    ensures
        frame_spec(w, inp).0.entities.len() == w.entities.len(),
        frame_spec(w, inp).0.entities[i].phase == DragPhase::Dragging,
        frame_spec(w, inp).0.entities[i].id == w.entities[i].id,
        frame_spec(w, inp).0.cursor.offset == w.cursor.offset,
        frame_spec(w, inp).0.entities[i].position == (PointView {
            x: frame_spec(w, inp).0.cursor.world.x + w.cursor.offset.x,
            y: frame_spec(w, inp).0.cursor.world.y + w.cursor.offset.y,
        }),
{
    lemma_frame_preserves_wf(w, inp);
    let w2 = stage_hover(w, inp);
    assert(eq_but_hover(w.entities[i], w2.entities[i])) by {
        if w2.cursor.moved {
            assert(w2.entities[i] == hovered_entity(
                w.entities[i],
                w2.cursor.world,
                any_dragging(w2.entities),
            ));
        }
    }
    assert(w2.entities[i].phase == DragPhase::Dragging);
    assert(any_dragging(w2.entities));
    let w3 = stage_pointer(w, inp).0;
    assert(w3 == w2);
    let w4 = stage_follow(w, inp);
    assert(w4.entities[i] == follow_entity(w3.entities[i], w3.cursor));
    let w5 = frame_spec(w, inp).0;
    assert(w5.entities[i] == clear_dropped(w4.entities[i]));
}

/// Both entities agree on identifier, box extent and declared
/// capabilities: everything the engine itself never changes.
pub open spec fn eq_static(a: EntityView, b: EntityView) -> bool {
    &&& a.id == b.id
    &&& a.half_extent == b.half_extent
    &&& a.hoverable == b.hoverable
    &&& a.draggable == b.draggable
    &&& a.drop_target == b.drop_target
}

/// A frame neither creates nor destroys entities, and never touches an
/// entity's identifier, box extent or declared capabilities: the engine
/// maintains only hover state, drag state and the position of what it
/// carries.
pub proof fn lemma_frame_keeps_entities(w: WorldView, inp: FrameInputView, i: int)
    requires
        wf(w),
        input_ok(inp),
        0 <= i < w.entities.len(),
    ensures
        frame_spec(w, inp).0.entities.len() == w.entities.len(),
        eq_static(w.entities[i], frame_spec(w, inp).0.entities[i]),
{
    lemma_frame_preserves_wf(w, inp);
    let w1 = stage_cursor(w, inp);
    let w2 = stage_hover(w, inp);
    assert(w1.entities == w.entities);
    assert(eq_static(w.entities[i], w2.entities[i])) by {
        if w1.cursor.moved {
            assert(w2.entities[i] == hovered_entity(
                w1.entities[i],
                w1.cursor.world,
                any_dragging(w1.entities),
            ));
        }
    }
    assert(w2.entities.len() == w.entities.len());
    let w3 = stage_pointer(w, inp).0;
    assert(eq_static(w2.entities[i], w3.entities[i]) && w3.entities.len()
        == w2.entities.len()) by {
        match inp.edge {
            PointerEdge::Down => {
                let p = pick_from(w2.entities, 0);
                lemma_pick_from_props(w2.entities, 0);
                if !(any_dragging(w2.entities) || p < 0) {
                    assert(w3.entities == w2.entities.update(
                        p,
                        EntityView { phase: DragPhase::Dragging, ..w2.entities[p] },
                    ));
                }
            },
            PointerEdge::Up => {
                assert(w3.entities[i] == release_entity(w2.entities[i], w2.cursor.world));
            },
            PointerEdge::Steady => {},
        }
    }
    let w4 = stage_follow(w, inp);
    assert(w4.entities.len() == w3.entities.len());
    assert(w4.entities[i] == follow_entity(w3.entities[i], w3.cursor));
    let w5 = frame_spec(w, inp).0;
    assert(w5.entities.len() == w4.entities.len());
    assert(w5.entities[i] == clear_dropped(w4.entities[i]));
}

/// One frame that presses the pointer button without moving it, in a
/// world where nothing is dragged and something can be picked: exactly one
/// `DraggedEvent` is emitted, naming the first pickable entity, no drop
/// events arise, the picked entity starts dragging without moving, and
/// every other entity is untouched.
pub proof fn lemma_press_frame_still(w: WorldView, inp: FrameInputView)
    requires
        wf(w),
        input_ok(inp),
        inp.moved_to is None,
        inp.edge == PointerEdge::Down,
        !any_dragging(w.entities),
        pick_from(w.entities, 0) >= 0,
    ensures
        wf(frame_spec(w, inp).0),
        frame_spec(w, inp).0.entities.len() == w.entities.len(),
        frame_spec(w, inp).0.cursor.world == w.cursor.world,
        frame_spec(w, inp).1.dragged == seq![w.entities[pick_from(w.entities, 0)].id],
        frame_spec(w, inp).1.dropped == Seq::<u64>::empty(),
        frame_spec(w, inp).1.dropped_onto == Seq::<DroppedOntoEvent>::empty(),
        frame_spec(w, inp).0.entities[pick_from(w.entities, 0)] == (EntityView {
            phase: DragPhase::Dragging,
            ..w.entities[pick_from(w.entities, 0)]
        }),
        forall|i: int|
            0 <= i < w.entities.len() && i != pick_from(w.entities, 0)
                ==> #[trigger] frame_spec(w, inp).0.entities[i] == w.entities[i],
{
    lemma_frame_preserves_wf(w, inp);
    let n = w.entities.len() as int;
    let p = pick_from(w.entities, 0);
    lemma_pick_from_props(w.entities, 0);
    let e = w.entities[p];
    let w2 = stage_hover(w, inp);
    assert(w2.entities == w.entities);
    assert(w2.cursor.world == w.cursor.world);
    assert(w2.cursor.offset == w.cursor.offset);
    let pr = stage_pointer(w, inp);
    let w3 = pr.0;
    assert(w3.entities == w.entities.update(p, EntityView { phase: DragPhase::Dragging, ..e }));
    assert(pr.1 == seq![e.id]);
    let w4 = stage_follow(w, inp);
    assert forall|i: int| 0 <= i < n && i != p implies #[trigger] w4.entities[i]
        == w.entities[i] by {
        assert(w3.entities[i] == w.entities[i]);
        if w.entities[i].phase == DragPhase::Dragging {
            assert(any_dragging(w.entities));
        }
        assert(w4.entities[i] == follow_entity(w3.entities[i], w3.cursor));
    }
    assert(w4.entities[p] == follow_entity(w3.entities[p], w3.cursor));
    assert(w4.entities[p].position == e.position);
    assert(w4.entities[p] == (EntityView { phase: DragPhase::Dragging, ..e }));
    assert forall|k: int|
        0 <= k < n implies (#[trigger] w4.entities[k]).phase != DragPhase::Dropped by {
        if k != p {
            assert(w4.entities[k] == w.entities[k]);
        }
    }
    lemma_drop_events_empty(
        w4.entities,
        drop_target_index(w4.entities, w4.cursor.world),
        0,
    );
    let w5 = frame_spec(w, inp).0;
    assert forall|i: int| 0 <= i < n && i != p implies #[trigger] w5.entities[i]
        == w.entities[i] by {
        assert(w5.entities[i] == clear_dropped(w4.entities[i]));
    }
    assert(w5.entities[p] == clear_dropped(w4.entities[p]));
}

/// One frame that releases the pointer button without moving it, in a
/// world where the entity at `a` is being dragged and is not itself a drop
/// target: no `DraggedEvent`, exactly one `DroppedEvent` naming `a`, and
/// exactly one `DroppedOntoEvent` iff some drop target's box contains the
/// cursor, naming the winning (highest-index) target. The entity returns
/// to idle; every other entity is untouched.
pub proof fn lemma_release_frame_still(w: WorldView, inp: FrameInputView, a: int)
    requires
        wf(w),
        input_ok(inp),
        inp.moved_to is None,
        inp.edge == PointerEdge::Up,
        0 <= a < w.entities.len(),
        w.entities[a].phase == DragPhase::Dragging,
        !w.entities[a].drop_target,
    ensures
        wf(frame_spec(w, inp).0),
        frame_spec(w, inp).0.entities.len() == w.entities.len(),
        frame_spec(w, inp).0.cursor.world == w.cursor.world,
        frame_spec(w, inp).1.dragged == Seq::<u64>::empty(),
        frame_spec(w, inp).1.dropped == seq![w.entities[a].id],
        drop_target_index(w.entities, w.cursor.world) < 0 ==> frame_spec(w, inp).1.dropped_onto
            == Seq::<DroppedOntoEvent>::empty(),
        drop_target_index(w.entities, w.cursor.world) >= 0 ==> frame_spec(w, inp).1.dropped_onto
            == seq![
            DroppedOntoEvent {
                src: w.entities[a].id,
                dst: w.entities[drop_target_index(w.entities, w.cursor.world)].id,
            },
        ],
        frame_spec(w, inp).0.entities[a].phase == DragPhase::Idle,
        frame_spec(w, inp).0.entities[a].id == w.entities[a].id,
        forall|i: int|
            0 <= i < w.entities.len() && i != a ==> #[trigger] frame_spec(w, inp).0.entities[i]
                == w.entities[i],
{
    lemma_frame_preserves_wf(w, inp);
    let n = w.entities.len() as int;
    let w2 = stage_hover(w, inp);
    assert(w2.entities == w.entities);
    assert(w2.cursor.world == w.cursor.world);
    let w3 = stage_pointer(w, inp).0;
    assert forall|i: int| 0 <= i < n && i != a implies #[trigger] w3.entities[i]
        == w.entities[i] by {
        assert(w3.entities[i] == release_entity(w.entities[i], w.cursor.world));
        if w.entities[i].phase == DragPhase::Dragging {
            assert(false);
        }
    }
    assert(w3.entities[a] == release_entity(w.entities[a], w.cursor.world));
    assert(w3.entities[a].phase == DragPhase::Dropped);
    assert(w3.entities[a].id == w.entities[a].id);
    assert(!w3.entities[a].drop_target);
    let w4 = stage_follow(w, inp);
    assert forall|i: int| 0 <= i < n implies #[trigger] w4.entities[i] == w3.entities[i] by {
        assert(w4.entities[i] == follow_entity(w3.entities[i], w3.cursor));
        if i != a && w.entities[i].phase == DragPhase::Dragging {
            assert(false);
        }
    }
    let t = drop_target_index(w4.entities, w4.cursor.world);
    assert forall|i: int|
        0 <= i < n implies (open_target(#[trigger] w4.entities[i], w.cursor.world) == open_target(
        w.entities[i],
        w.cursor.world,
    ) && w4.entities[i].id == w.entities[i].id) by {
        if i != a {
            assert(w4.entities[i] == w.entities[i]);
        }
    }
    lemma_target_before_congruent(w4.entities, w.entities, w.cursor.world, n);
    assert(t == drop_target_index(w.entities, w.cursor.world));
    assert forall|k: int|
        0 <= k < n && k != a implies (#[trigger] w4.entities[k]).phase != DragPhase::Dropped by {
        assert(w4.entities[k] == w.entities[k]);
    }
    lemma_drop_events_single(w4.entities, t, 0, a);
    assert(frame_spec(w, inp).1.dropped =~= seq![w.entities[a].id]);
    if t >= 0 {
        lemma_target_before_props(w4.entities, w4.cursor.world, n);
        assert(open_target(w4.entities[t], w.cursor.world));
        assert(frame_spec(w, inp).1.dropped_onto =~= seq![
            DroppedOntoEvent { src: w.entities[a].id, dst: w.entities[t].id },
        ]);
    }
    let w5 = frame_spec(w, inp).0;
    assert forall|i: int| 0 <= i < n && i != a implies #[trigger] w5.entities[i]
        == w.entities[i] by {
        assert(w5.entities[i] == clear_dropped(w4.entities[i]));
    }
    assert(w5.entities[a] == clear_dropped(w4.entities[a]));
}

/// A pointer press followed immediately by a release, with no movement in
/// between, produces exactly one `DraggedEvent` and exactly one
/// `DroppedEvent`, both naming the picked entity, and exactly one
/// `DroppedOntoEvent` iff the release point lies over a drop target.
pub proof fn lemma_press_then_release(w: WorldView, down: FrameInputView, up: FrameInputView)
    requires
        wf(w),
        input_ok(down),
        input_ok(up),
        down.moved_to is None,
        down.edge == PointerEdge::Down,
        up.moved_to is None,
        up.edge == PointerEdge::Up,
        !any_dragging(w.entities),
        pick_from(w.entities, 0) >= 0,
        !w.entities[pick_from(w.entities, 0)].drop_target,
    ensures
        frame_spec(w, down).1.dragged == seq![w.entities[pick_from(w.entities, 0)].id],
        frame_spec(w, down).1.dropped == Seq::<u64>::empty(),
        frame_spec(w, down).1.dropped_onto == Seq::<DroppedOntoEvent>::empty(),
        frame_spec(frame_spec(w, down).0, up).1.dragged == Seq::<u64>::empty(),
        frame_spec(frame_spec(w, down).0, up).1.dropped == seq![
            w.entities[pick_from(w.entities, 0)].id,
        ],
        drop_target_index(w.entities, w.cursor.world) < 0 ==> frame_spec(
            frame_spec(w, down).0,
            up,
        ).1.dropped_onto == Seq::<DroppedOntoEvent>::empty(),
        drop_target_index(w.entities, w.cursor.world) >= 0 ==> frame_spec(
            frame_spec(w, down).0,
            up,
        ).1.dropped_onto == seq![
            DroppedOntoEvent {
                src: w.entities[pick_from(w.entities, 0)].id,
                dst: w.entities[drop_target_index(w.entities, w.cursor.world)].id,
            },
        ],
{
    let n = w.entities.len() as int;
    let p = pick_from(w.entities, 0);
    lemma_pick_from_props(w.entities, 0);
    lemma_press_frame_still(w, down);
    let wa = frame_spec(w, down).0;
    assert(wa.entities[p].phase == DragPhase::Dragging);
    assert(!wa.entities[p].drop_target);
    assert(wa.cursor.world == w.cursor.world);
    lemma_release_frame_still(wa, up, p);
    assert forall|i: int|
        0 <= i < n implies (open_target(#[trigger] wa.entities[i], w.cursor.world) == open_target(
        w.entities[i],
        w.cursor.world,
    ) && wa.entities[i].id == w.entities[i].id) by {
        if i != p {
            assert(wa.entities[i] == w.entities[i]);
        }
    }
    lemma_target_before_congruent(wa.entities, w.entities, w.cursor.world, n);
    lemma_target_before_props(w.entities, w.cursor.world, n);
    let t = drop_target_index(w.entities, w.cursor.world);
    assert(drop_target_index(wa.entities, wa.cursor.world) == t);
    if t >= 0 {
        assert(frame_spec(wa, up).1.dropped_onto =~= seq![
            DroppedOntoEvent { src: w.entities[p].id, dst: w.entities[t].id },
        ]) by {
            assert(wa.entities[t].id == w.entities[t].id);
            assert(wa.entities[p].id == w.entities[p].id);
        }
    }
    assert(frame_spec(wa, up).1.dropped =~= seq![w.entities[p].id]);
}

/// Dropping a dragged entity over several overlapping drop targets
/// produces exactly one `DroppedOntoEvent`, never one per target, and its
/// destination is the highest-index target containing the cursor.
pub proof fn lemma_overlapping_targets_one_event(
    w: WorldView,
    inp: FrameInputView,
    a: int,
    x: int,
    y: int,
)
    requires
        wf(w),
        input_ok(inp),
        inp.moved_to is None,
        inp.edge == PointerEdge::Up,
        0 <= a < w.entities.len(),
        w.entities[a].phase == DragPhase::Dragging,
        !w.entities[a].drop_target,
        0 <= x < y < w.entities.len(),
        open_target(w.entities[x], w.cursor.world),
        open_target(w.entities[y], w.cursor.world),
    ensures
        frame_spec(w, inp).1.dropped_onto.len() == 1,
        frame_spec(w, inp).1.dropped_onto[0].src == w.entities[a].id,
        y <= drop_target_index(w.entities, w.cursor.world) < w.entities.len(),
        frame_spec(w, inp).1.dropped_onto[0].dst == w.entities[drop_target_index(
            w.entities,
            w.cursor.world,
        )].id,
{
    let n = w.entities.len() as int;
    lemma_release_frame_still(w, inp, a);
    let t = drop_target_index(w.entities, w.cursor.world);
    lemma_target_before_props(w.entities, w.cursor.world, n);
    if t < 0 {
        assert(!open_target(w.entities[y], w.cursor.world));
    }
    if t < y {
        assert(!open_target(w.entities[y], w.cursor.world));
    }
}

} // verus!
