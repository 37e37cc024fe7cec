//! One engine frame: cursor tracking, hover detection, the drag
//! controller, position integration and drop resolution, in that mandated
//! order, together with the proof that a frame preserves well-formedness.

use vstd::prelude::*;

use crate::cursor::{cursor_step, opt_point_view, pointer_input_ok};
use crate::drag::{
    can_pick, follow_entity, follow_step, pick_from, pointer_step, release_entity, DraggedEvent,
    PointerEdge,
};
use crate::geom::{contains_point, Point2, PointView, WindowSize, WindowView};
use crate::hover::{hover_step, hovered_entity};
use crate::resolve::{clear_dropped, drop_step, DroppedEvent, DroppedOntoEvent};
use crate::world::{
    any_dragging, cursor_ok, drag_follows, entities_bounded, hover_consistent,
    hover_consistent_undragged, hover_marks_ok, ids_unique, no_dropped, single_drag, wf, DragPhase,
    EntityView, World, WorldView,
};

verus! {

/// All pointer input the engine consumes in one frame: the screen position
/// of the first pointer-moved event if one arrived, the pointer-button
/// edge, the window dimensions and the camera translation.
#[derive(Clone, Copy, Debug, PartialEq, Eq, Structural)]
pub struct FrameInput {
    pub moved_to: Option<Point2>,
    pub edge: PointerEdge,
    pub window: WindowSize,
    pub camera: Point2,
}

/// Mathematical image of the frame input.
pub ghost struct FrameInputView {
    pub moved_to: Option<PointView>,
    pub edge: PointerEdge,
    pub window: WindowView,
    pub camera: PointView,
}

impl View for FrameInput {
    type V = FrameInputView;

    open spec fn view(&self) -> FrameInputView {
        FrameInputView {
            moved_to: opt_point_view(self.moved_to),
            edge: self.edge,
            window: self.window@,
            camera: self.camera@,
        }
    }
}

/// Bounded frame input: what the engine requires of the application.
pub open spec fn input_ok(inp: FrameInputView) -> bool {
    pointer_input_ok(inp.moved_to, inp.window, inp.camera)
}

/// The events one frame produces.
pub struct FrameOutput {
    pub dragged: Vec<DraggedEvent>,
    pub dropped: Vec<DroppedEvent>,
    pub dropped_onto: Vec<DroppedOntoEvent>,
}

/// Mathematical image of the frame output: the carried identifiers, in
/// emission order.
pub ghost struct FrameOutputView {
    pub dragged: Seq<u64>,
    pub dropped: Seq<u64>,
    pub dropped_onto: Seq<DroppedOntoEvent>,
}

impl View for FrameOutput {
    type V = FrameOutputView;

    open spec fn view(&self) -> FrameOutputView {
        FrameOutputView {
            dragged: self.dragged@.map_values(|ev: DraggedEvent| ev.0),
            dropped: self.dropped@.map_values(|ev: DroppedEvent| ev.0),
            dropped_onto: self.dropped_onto@,
        }
    }
}

/// The world after cursor tracking.
pub open spec fn stage_cursor(w: WorldView, inp: FrameInputView) -> WorldView {
    WorldView {
        entities: w.entities,
        cursor: cursor_step(w.cursor, inp.moved_to, inp.window, inp.camera),
    }
}

/// The world after cursor tracking and hover detection.
pub open spec fn stage_hover(w: WorldView, inp: FrameInputView) -> WorldView {
    hover_step(stage_cursor(w, inp))
}

/// The world and the drag events after the drag controller ran.
pub open spec fn stage_pointer(w: WorldView, inp: FrameInputView) -> (WorldView, Seq<u64>) {
    pointer_step(stage_hover(w, inp), inp.edge)
}

/// The world after position integration.
pub open spec fn stage_follow(w: WorldView, inp: FrameInputView) -> WorldView {
    follow_step(stage_pointer(w, inp).0)
}

/// One whole frame: the final world and the events of the frame.
pub open spec fn frame_spec(w: WorldView, inp: FrameInputView) -> (WorldView, FrameOutputView) {
    let dr = drop_step(stage_follow(w, inp));
    (
        dr.0,
        FrameOutputView {
            dragged: stage_pointer(w, inp).1,
            dropped: dr.1,
            dropped_onto: dr.2,
        },
    )
}

/// Both entities agree on every field except possibly the hover mark.
pub open spec fn eq_but_hover(a: EntityView, b: EntityView) -> bool {
    &&& a.id == b.id
    &&& a.position == b.position
    &&& a.half_extent == b.half_extent
    &&& a.hoverable == b.hoverable
    &&& a.draggable == b.draggable
    &&& a.drop_target == b.drop_target
    &&& a.phase == b.phase
}

/// The drag offset of a hovered entity that is being dragged lies strictly
/// within that entity's half extent: the invariant that keeps the offset
/// bounded across a drag.
pub open spec fn dragging_hover_tight(w: WorldView) -> bool {
    forall|i: int|
        0 <= i < w.entities.len() && (#[trigger] w.entities[i]).phase == DragPhase::Dragging
            && w.entities[i].hovered ==> (-w.entities[i].half_extent.x < w.cursor.offset.x
            < w.entities[i].half_extent.x && -w.entities[i].half_extent.y < w.cursor.offset.y
            < w.entities[i].half_extent.y)
}

/// What holds after cursor tracking and hover detection, given a
/// well-formed world and bounded input.
proof fn lemma_prefix_stages(w: WorldView, inp: FrameInputView)
    requires
        wf(w),
        input_ok(inp),
    ensures
        stage_hover(w, inp).entities.len() == w.entities.len(),
        cursor_ok(stage_hover(w, inp).cursor),
        stage_hover(w, inp).cursor.offset == w.cursor.offset,
        entities_bounded(stage_hover(w, inp).entities),
        ids_unique(stage_hover(w, inp).entities),
        hover_marks_ok(stage_hover(w, inp).entities),
        hover_consistent_undragged(stage_hover(w, inp)),
        single_drag(stage_hover(w, inp).entities),
        no_dropped(stage_hover(w, inp).entities),
        dragging_hover_tight(stage_hover(w, inp)),
        forall|i: int|
            0 <= i < w.entities.len() ==> eq_but_hover(
                #[trigger] w.entities[i],
                stage_hover(w, inp).entities[i],
            ),
{
    let w1 = stage_cursor(w, inp);
    let w2 = stage_hover(w, inp);
    assert(cursor_ok(w1.cursor));
    assert(w2.cursor == w1.cursor);
    let n = w.entities.len() as int;
    if !w1.cursor.moved {
        assert(w2 == w1);
        assert(w1.cursor.world == w.cursor.world);
        assert forall|i: int| 0 <= i < n implies eq_but_hover(
            #[trigger] w.entities[i],
            w2.entities[i],
        ) by {}
    } else {
        let dragging = any_dragging(w1.entities);
        assert forall|i: int| 0 <= i < n implies eq_but_hover(
            #[trigger] w.entities[i],
            w2.entities[i],
        ) && (w2.entities[i].hovered ==> (w2.entities[i].hoverable
            || w2.entities[i].drop_target)) && (w2.entities[i].hovered && w2.entities[i].phase
            != DragPhase::Dragging ==> contains_point(
            w2.entities[i].position,
            w2.entities[i].half_extent,
            w2.cursor.world,
        )) by {
            let e = w1.entities[i];
            assert(w2.entities[i] == hovered_entity(e, w1.cursor.world, dragging));
            if e.phase == DragPhase::Dragging || !(e.hoverable || e.drop_target) {
                assert(w2.entities[i] == e);
            }
        }
    }
    assert forall|i: int|
        0 <= i < n && (#[trigger] w2.entities[i]).phase == DragPhase::Dragging
            && w2.entities[i].hovered implies (-w2.entities[i].half_extent.x < w2.cursor.offset.x
        < w2.entities[i].half_extent.x && -w2.entities[i].half_extent.y < w2.cursor.offset.y
        < w2.entities[i].half_extent.y) by {
        assert(eq_but_hover(w.entities[i], w2.entities[i]));
        if w1.cursor.moved {
            assert(w2.entities[i] == hovered_entity(w.entities[i], w1.cursor.world, any_dragging(
                w1.entities,
            )));
            assert(w2.entities[i] == w.entities[i]);
        }
        assert(w.entities[i].hovered);
        assert(contains_point(w.entities[i].position, w.entities[i].half_extent, w.cursor.world));
        assert(w.entities[i].position == PointView {
            x: w.cursor.world.x + w.cursor.offset.x,
            y: w.cursor.world.y + w.cursor.offset.y,
        });
    }
}

/// Properties of the pick scan: a non-negative result is in range, can be
/// picked, and nothing before it can; a negative result means nothing at
/// or after `i` can be picked.
pub proof fn lemma_pick_from_props(s: Seq<EntityView>, i: int)
    requires
        0 <= i <= s.len(),
    ensures
        pick_from(s, i) == -1 || (i <= pick_from(s, i) < s.len() && can_pick(
            s[pick_from(s, i)],
        )),
        pick_from(s, i) == -1 ==> forall|k: int| i <= k < s.len() ==> !can_pick(#[trigger] s[k]),
        forall|k: int| i <= k < pick_from(s, i) ==> !can_pick(#[trigger] s[k]),
    decreases s.len() - i,
{
    if i < s.len() && !can_pick(s[i]) {
        lemma_pick_from_props(s, i + 1);
    }
}

/// What holds after the drag controller ran, given the facts established
/// by the prefix stages.
proof fn lemma_pointer_stage(w2: WorldView, edge: PointerEdge)
    requires
        cursor_ok(w2.cursor),
        entities_bounded(w2.entities),
        ids_unique(w2.entities),
        hover_marks_ok(w2.entities),
        hover_consistent_undragged(w2),
        single_drag(w2.entities),
        no_dropped(w2.entities),
        dragging_hover_tight(w2),
    ensures
        pointer_step(w2, edge).0.entities.len() == w2.entities.len(),
        cursor_ok(pointer_step(w2, edge).0.cursor),
        pointer_step(w2, edge).0.cursor.world == w2.cursor.world,
        entities_bounded(pointer_step(w2, edge).0.entities),
        ids_unique(pointer_step(w2, edge).0.entities),
        hover_marks_ok(pointer_step(w2, edge).0.entities),
        hover_consistent_undragged(pointer_step(w2, edge).0),
        single_drag(pointer_step(w2, edge).0.entities),
        dragging_hover_tight(pointer_step(w2, edge).0),
{
    let w3 = pointer_step(w2, edge).0;
    let n = w2.entities.len() as int;
    match edge {
        PointerEdge::Down => {
            let p = pick_from(w2.entities, 0);
            lemma_pick_from_props(w2.entities, 0);
            if any_dragging(w2.entities) || p < 0 {
                assert(w3 == w2);
            } else {
                let e = w2.entities[p];
                assert(can_pick(e));
                assert(contains_point(e.position, e.half_extent, w2.cursor.world));
                assert forall|i: int| 0 <= i < n && i != p implies #[trigger] w3.entities[i]
                    == w2.entities[i] by {}
                assert(w3.entities[p] == (EntityView { phase: DragPhase::Dragging, ..e }));
                assert forall|i: int|
                    0 <= i < n && (#[trigger] w3.entities[i]).phase
                        == DragPhase::Dragging implies i == p by {
                    if i != p {
                        assert(w2.entities[i].phase == DragPhase::Dragging);
                        assert(any_dragging(w2.entities));
                    }
                }
            }
        },
        PointerEdge::Up => {
            assert forall|i: int| 0 <= i < n implies (#[trigger] w3.entities[i]) == release_entity(
                w2.entities[i],
                w2.cursor.world,
            ) by {}
            assert forall|i: int|
                0 <= i < n implies (#[trigger] w3.entities[i]).phase != DragPhase::Dragging by {
                assert(w3.entities[i] == release_entity(w2.entities[i], w2.cursor.world));
            }
        },
        PointerEdge::Steady => {
            assert(w3 == w2);
        },
    }
}

/// What holds after position integration, given the facts established by
/// the drag controller stage.
proof fn lemma_follow_stage(w3: WorldView)
    requires
        cursor_ok(w3.cursor),
        entities_bounded(w3.entities),
        ids_unique(w3.entities),
        hover_marks_ok(w3.entities),
        hover_consistent_undragged(w3),
        single_drag(w3.entities),
        dragging_hover_tight(w3),
    ensures
        follow_step(w3).entities.len() == w3.entities.len(),
        follow_step(w3).cursor == w3.cursor,
        entities_bounded(follow_step(w3).entities),
        ids_unique(follow_step(w3).entities),
        hover_marks_ok(follow_step(w3).entities),
        hover_consistent(follow_step(w3)),
        single_drag(follow_step(w3).entities),
        drag_follows(follow_step(w3)),
{
    let w4 = follow_step(w3);
    let n = w3.entities.len() as int;
    assert forall|i: int| 0 <= i < n implies (#[trigger] w4.entities[i]) == follow_entity(
        w3.entities[i],
        w3.cursor,
    ) by {}
    assert forall|i: int|
        0 <= i < n && (#[trigger] w4.entities[i]).hovered implies contains_point(
        w4.entities[i].position,
        w4.entities[i].half_extent,
        w4.cursor.world,
    ) by {
        assert(w4.entities[i] == follow_entity(w3.entities[i], w3.cursor));
        if w3.entities[i].phase == DragPhase::Dragging {
            assert(w3.entities[i].hovered);
        }
    }
}

/// What holds after drop resolution, given the facts established by the
/// follow stage: the world is well-formed again.
proof fn lemma_drop_stage(w4: WorldView)
    requires
        cursor_ok(w4.cursor),
        entities_bounded(w4.entities),
        ids_unique(w4.entities),
        hover_marks_ok(w4.entities),
        hover_consistent(w4),
        single_drag(w4.entities),
        drag_follows(w4),
    ensures
        wf(drop_step(w4).0),
{
    let w5 = drop_step(w4).0;
    let n = w4.entities.len() as int;
    assert forall|i: int| 0 <= i < n implies (#[trigger] w5.entities[i]) == clear_dropped(
        w4.entities[i],
    ) by {}
    assert forall|i: int, j: int|
        0 <= i < n && 0 <= j < n && (#[trigger] w5.entities[i]).phase == DragPhase::Dragging && (
        #[trigger] w5.entities[j]).phase == DragPhase::Dragging implies i == j by {
        assert(w5.entities[i] == clear_dropped(w4.entities[i]));
        assert(w5.entities[j] == clear_dropped(w4.entities[j]));
    }
}

/// A frame maps a well-formed world to a well-formed world, and every
/// intermediate stage keeps the bounds the executable phases need.
pub proof fn lemma_frame_preserves_wf(w: WorldView, inp: FrameInputView)
    requires
        wf(w),
        input_ok(inp),
    ensures
        wf(frame_spec(w, inp).0),
        cursor_ok(stage_hover(w, inp).cursor),
        entities_bounded(stage_hover(w, inp).entities),
        hover_consistent_undragged(stage_hover(w, inp)),
        cursor_ok(stage_pointer(w, inp).0.cursor),
        entities_bounded(stage_pointer(w, inp).0.entities),
        cursor_ok(stage_follow(w, inp).cursor),
        entities_bounded(stage_follow(w, inp).entities),
{
    lemma_prefix_stages(w, inp);
    lemma_pointer_stage(stage_hover(w, inp), inp.edge);
    lemma_follow_stage(stage_pointer(w, inp).0);
    lemma_drop_stage(stage_follow(w, inp));
}

impl World {
    /// Runs one whole engine frame in the mandated phase order and returns
    /// the frame's events, exactly as `frame_spec` describes. The world
    /// stays well-formed.
    pub fn frame(&mut self, input: &FrameInput) -> (out: FrameOutput)
        requires
            wf(old(self)@),
            input_ok(input@),
        ensures
            final(self)@ == frame_spec(old(self)@, input@).0,
            out@ == frame_spec(old(self)@, input@).1,
            wf(final(self)@),
    {
        let ghost w0 = self@;
        proof {
            lemma_frame_preserves_wf(w0, input@);
        }
        self.track_cursor(input.moved_to, input.window, input.camera);
        assert(self@ == stage_cursor(w0, input@));
        self.detect_hover();
        assert(self@ == stage_hover(w0, input@));
        let dragged = self.apply_pointer(input.edge);
        assert(self@ == stage_pointer(w0, input@).0);
        self.follow_cursor();
        assert(self@ == stage_follow(w0, input@));
        let (dropped, dropped_onto) = self.resolve_drops();
        let out = FrameOutput { dragged, dropped, dropped_onto };
        proof {
            assert(self@ == frame_spec(w0, input@).0);
            assert(out@ == frame_spec(w0, input@).1);
        }
        out
    }
}

} // verus!
