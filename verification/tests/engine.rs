use jam_engine::drag::PointerEdge;
use jam_engine::frame::FrameInput;
use jam_engine::geom::{cursor_to_world, point_in_box, Point2, WindowSize};
use jam_engine::world::{DragPhase, World};

fn window() -> WindowSize {
    WindowSize { width: 800, height: 600 }
}

fn still(edge: PointerEdge) -> FrameInput {
    FrameInput { moved_to: None, edge, window: window(), camera: Point2 { x: 0, y: 0 } }
}

fn moved(x: i64, y: i64, edge: PointerEdge) -> FrameInput {
    FrameInput {
        moved_to: Some(Point2 { x, y }),
        edge,
        window: window(),
        camera: Point2 { x: 0, y: 0 },
    }
}

#[test]
fn screen_center_maps_to_camera_translation() {
    let cam = Point2 { x: 37, y: -90 };
    let r = cursor_to_world(window(), cam, Point2 { x: 400, y: 300 });
    assert_eq!(r, cam);

    let odd = WindowSize { width: 801, height: 601 };
    let r = cursor_to_world(odd, cam, Point2 { x: 400, y: 300 });
    assert_eq!(r, cam);
}

#[test]
fn cursor_conversion_recenters_then_translates() {
    let r = cursor_to_world(window(), Point2 { x: 0, y: 0 }, Point2 { x: 0, y: 0 });
    assert_eq!(r, Point2 { x: -400, y: -300 });
    let r = cursor_to_world(window(), Point2 { x: 10, y: 20 }, Point2 { x: 500, y: 250 });
    assert_eq!(r, Point2 { x: 110, y: -30 });
}

#[test]
fn hover_test_is_strict_on_every_edge() {
    let center = Point2 { x: 0, y: 0 };
    let half = Point2 { x: 50, y: 30 };
    assert!(point_in_box(center, half, Point2 { x: 0, y: 0 }));
    assert!(point_in_box(center, half, Point2 { x: 49, y: 29 }));
    assert!(point_in_box(center, half, Point2 { x: -49, y: -29 }));
    // boundary-touching counts as outside, on all four edges
    assert!(!point_in_box(center, half, Point2 { x: 50, y: 0 }));
    assert!(!point_in_box(center, half, Point2 { x: -50, y: 0 }));
    assert!(!point_in_box(center, half, Point2 { x: 0, y: 30 }));
    assert!(!point_in_box(center, half, Point2 { x: 0, y: -30 }));
    assert!(!point_in_box(center, half, Point2 { x: 51, y: 0 }));
}

#[test]
fn spawn_refuses_duplicate_identifiers() {
    let mut w = World::new();
    assert!(w.spawn(1, Point2 { x: 0, y: 0 }, Point2 { x: 10, y: 10 }, true, true, false));
    assert!(!w.spawn(1, Point2 { x: 5, y: 5 }, Point2 { x: 10, y: 10 }, true, false, false));
    assert_eq!(w.len(), 1);
}

#[test]
fn hover_marks_follow_cursor_movement() {
    let mut w = World::new();
    assert!(w.spawn(7, Point2 { x: 100, y: 100 }, Point2 { x: 20, y: 20 }, true, false, false));
    let out = w.frame(&moved(500, 400, PointerEdge::Steady));
    // screen (500, 400) -> world (100, 100), inside the box
    assert!(w.entities[0].hovered);
    assert!(out.dragged.is_empty() && out.dropped.is_empty() && out.dropped_onto.is_empty());
    w.frame(&moved(0, 0, PointerEdge::Steady));
    assert!(!w.entities[0].hovered);
}

#[test]
fn hover_state_holds_when_cursor_does_not_move() {
    let mut w = World::new();
    assert!(w.spawn(7, Point2 { x: 100, y: 100 }, Point2 { x: 20, y: 20 }, true, false, false));
    w.frame(&moved(500, 400, PointerEdge::Steady));
    assert!(w.entities[0].hovered);
    w.frame(&still(PointerEdge::Steady));
    assert!(w.entities[0].hovered);
}

#[test]
fn drop_target_glows_only_while_something_is_dragged() {
    let mut w = World::new();
    // a draggable token at the origin and a pure drop target at (100, 100)
    assert!(w.spawn(1, Point2 { x: 0, y: 0 }, Point2 { x: 30, y: 30 }, true, true, false));
    assert!(w.spawn(2, Point2 { x: 100, y: 100 }, Point2 { x: 40, y: 40 }, false, false, true));
    // hover over the target with no drag in progress: forced unhovered
    w.frame(&moved(500, 400, PointerEdge::Steady));
    assert!(!w.entities[1].hovered);
    // pick up the token, carry it over the target: now it glows
    w.frame(&moved(400, 300, PointerEdge::Steady));
    w.frame(&still(PointerEdge::Down));
    assert_eq!(w.entities[0].phase, DragPhase::Dragging);
    w.frame(&moved(500, 400, PointerEdge::Steady));
    assert!(w.entities[1].hovered);
}

#[test]
fn dragged_entity_tracks_cursor_with_fixed_offset() {
    let mut w = World::new();
    assert!(w.spawn(3, Point2 { x: 110, y: 95 }, Point2 { x: 30, y: 30 }, true, true, false));
    // cursor to world (100, 100): inside the box, offset becomes (10, -5)
    w.frame(&moved(500, 400, PointerEdge::Steady));
    let out = w.frame(&still(PointerEdge::Down));
    assert_eq!(out.dragged.len(), 1);
    assert_eq!(out.dragged[0].0, 3);
    // picking up does not snap the entity
    assert_eq!(w.entities[0].position, Point2 { x: 110, y: 95 });
    assert_eq!(w.cursor.offset, Point2 { x: 10, y: -5 });
    // every later frame: position == cursor world + the same offset
    w.frame(&moved(460, 360, PointerEdge::Steady));
    assert_eq!(w.cursor.world, Point2 { x: 60, y: 60 });
    assert_eq!(w.entities[0].position, Point2 { x: 70, y: 55 });
    assert_eq!(w.cursor.offset, Point2 { x: 10, y: -5 });
    w.frame(&moved(200, 500, PointerEdge::Steady));
    assert_eq!(w.cursor.world, Point2 { x: -200, y: 200 });
    assert_eq!(w.entities[0].position, Point2 { x: -190, y: 195 });
    assert_eq!(w.cursor.offset, Point2 { x: 10, y: -5 });
}

#[test]
fn press_and_release_without_movement_fire_one_drag_and_one_drop() {
    let mut w = World::new();
    assert!(w.spawn(3, Point2 { x: 100, y: 100 }, Point2 { x: 30, y: 30 }, true, true, false));
    w.frame(&moved(500, 400, PointerEdge::Steady));
    let down = w.frame(&still(PointerEdge::Down));
    assert_eq!(down.dragged.len(), 1);
    assert_eq!(down.dragged[0].0, 3);
    assert!(down.dropped.is_empty() && down.dropped_onto.is_empty());
    let up = w.frame(&still(PointerEdge::Up));
    assert!(up.dragged.is_empty());
    assert_eq!(up.dropped.len(), 1);
    assert_eq!(up.dropped[0].0, 3);
    // nothing under the cursor but the token itself, which is no target
    assert!(up.dropped_onto.is_empty());
    assert_eq!(w.entities[0].phase, DragPhase::Idle);
}

#[test]
fn release_over_a_target_adds_a_dropped_onto_event() {
    let mut w = World::new();
    assert!(w.spawn(3, Point2 { x: 100, y: 100 }, Point2 { x: 30, y: 30 }, true, true, false));
    assert!(w.spawn(9, Point2 { x: 90, y: 110 }, Point2 { x: 60, y: 60 }, false, false, true));
    w.frame(&moved(500, 400, PointerEdge::Steady));
    w.frame(&still(PointerEdge::Down));
    let up = w.frame(&still(PointerEdge::Up));
    assert_eq!(up.dropped.len(), 1);
    assert_eq!(up.dropped_onto.len(), 1);
    assert_eq!(up.dropped_onto[0].src, 3);
    assert_eq!(up.dropped_onto[0].dst, 9);
}

#[test]
fn overlapping_targets_yield_one_event_for_the_later_one() {
    let mut w = World::new();
    assert!(w.spawn(3, Point2 { x: 100, y: 100 }, Point2 { x: 30, y: 30 }, true, true, false));
    // two overlapping drop targets both containing the cursor position
    assert!(w.spawn(20, Point2 { x: 95, y: 95 }, Point2 { x: 50, y: 50 }, false, false, true));
    assert!(w.spawn(21, Point2 { x: 105, y: 105 }, Point2 { x: 50, y: 50 }, false, false, true));
    w.frame(&moved(500, 400, PointerEdge::Steady));
    w.frame(&still(PointerEdge::Down));
    let up = w.frame(&still(PointerEdge::Up));
    // exactly one event, never one per target; the highest index wins
    assert_eq!(up.dropped_onto.len(), 1);
    assert_eq!(up.dropped_onto[0].src, 3);
    assert_eq!(up.dropped_onto[0].dst, 21);
}

#[test]
fn first_hovered_draggable_wins_the_pick() {
    let mut w = World::new();
    assert!(w.spawn(5, Point2 { x: 100, y: 100 }, Point2 { x: 40, y: 40 }, true, true, false));
    assert!(w.spawn(6, Point2 { x: 105, y: 105 }, Point2 { x: 40, y: 40 }, true, true, false));
    w.frame(&moved(500, 400, PointerEdge::Steady));
    assert!(w.entities[0].hovered && w.entities[1].hovered);
    let out = w.frame(&still(PointerEdge::Down));
    assert_eq!(out.dragged.len(), 1);
    assert_eq!(out.dragged[0].0, 5);
    assert_eq!(w.entities[0].phase, DragPhase::Dragging);
    assert_eq!(w.entities[1].phase, DragPhase::Idle);
}

#[test]
fn press_with_nothing_hovered_does_nothing() {
    let mut w = World::new();
    assert!(w.spawn(5, Point2 { x: 100, y: 100 }, Point2 { x: 10, y: 10 }, true, true, false));
    w.frame(&moved(0, 0, PointerEdge::Steady));
    let out = w.frame(&still(PointerEdge::Down));
    assert!(out.dragged.is_empty());
    assert_eq!(w.entities[0].phase, DragPhase::Idle);
}

#[test]
fn no_new_pick_while_a_drag_is_in_progress() {
    let mut w = World::new();
    assert!(w.spawn(5, Point2 { x: 100, y: 100 }, Point2 { x: 40, y: 40 }, true, true, false));
    assert!(w.spawn(6, Point2 { x: 105, y: 105 }, Point2 { x: 40, y: 40 }, true, true, false));
    w.frame(&moved(500, 400, PointerEdge::Steady));
    w.frame(&still(PointerEdge::Down));
    // a second press edge while entity 5 is carried picks nothing new
    let out = w.frame(&still(PointerEdge::Down));
    assert!(out.dragged.is_empty());
    assert_eq!(w.entities[1].phase, DragPhase::Idle);
}

#[test]
fn set_position_moves_idle_entities_and_refuses_dragged_ones() {
    let mut w = World::new();
    assert!(w.spawn(5, Point2 { x: 100, y: 100 }, Point2 { x: 40, y: 40 }, true, true, false));
    assert!(w.set_position(5, Point2 { x: 200, y: 200 }));
    assert_eq!(w.entities[0].position, Point2 { x: 200, y: 200 });
    assert!(!w.set_position(99, Point2 { x: 0, y: 0 }));
    w.frame(&moved(600, 500, PointerEdge::Steady));
    w.frame(&still(PointerEdge::Down));
    assert_eq!(w.entities[0].phase, DragPhase::Dragging);
    assert!(!w.set_position(5, Point2 { x: 0, y: 0 }));
}

#[test]
fn released_entity_can_be_picked_up_again_without_movement() {
    let mut w = World::new();
    assert!(w.spawn(3, Point2 { x: 100, y: 100 }, Point2 { x: 30, y: 30 }, true, true, false));
    w.frame(&moved(500, 400, PointerEdge::Steady));
    w.frame(&still(PointerEdge::Down));
    w.frame(&still(PointerEdge::Up));
    // the token sits under the cursor again and is still hovered, so a
    // second press without any movement picks it right back up
    assert!(w.entities[0].hovered);
    let out = w.frame(&still(PointerEdge::Down));
    assert_eq!(out.dragged.len(), 1);
    assert_eq!(out.dragged[0].0, 3);
}

#[test]
fn hover_mark_is_refreshed_when_a_carried_entity_is_released() {
    let mut w = World::new();
    assert!(w.spawn(3, Point2 { x: 100, y: 100 }, Point2 { x: 30, y: 30 }, true, true, false));
    assert!(w.spawn(4, Point2 { x: -200, y: -200 }, Point2 { x: 30, y: 30 }, true, true, false));
    // pick up token 3 and carry it to empty ground, then release; the
    // carried token still follows the cursor, so it stays hovered, while
    // token 4, nowhere near the cursor, keeps its own (empty) mark
    w.frame(&moved(500, 400, PointerEdge::Steady));
    w.frame(&still(PointerEdge::Down));
    w.frame(&moved(300, 200, PointerEdge::Steady));
    w.frame(&still(PointerEdge::Up));
    assert!(w.entities[0].hovered);
    assert!(!w.entities[1].hovered);
    assert_eq!(w.entities[0].phase, DragPhase::Idle);
}

#[test]
fn spawn_refuses_out_of_bounds_boxes() {
    let mut w = World::new();
    // negative half extents and far-out positions are configuration
    // errors the engine rejects up front
    assert!(!w.spawn(1, Point2 { x: 0, y: 0 }, Point2 { x: -1, y: 10 }, true, true, false));
    assert!(!w.spawn(1, Point2 { x: 99999999999, y: 0 }, Point2 { x: 1, y: 1 }, true, true, false));
    assert_eq!(w.len(), 0);
}

#[test]
fn despawn_removes_exactly_the_named_entity() {
    let mut w = World::new();
    assert!(w.spawn(1, Point2 { x: 0, y: 0 }, Point2 { x: 10, y: 10 }, true, true, false));
    assert!(w.spawn(2, Point2 { x: 50, y: 50 }, Point2 { x: 10, y: 10 }, true, true, false));
    assert!(w.despawn(1));
    assert_eq!(w.len(), 1);
    assert_eq!(w.entities[0].id, 2);
    assert!(!w.despawn(1));
}
