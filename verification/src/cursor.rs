//! Cursor tracking: convert the frame's pointer-moved event (if any) into a
//! world-space cursor position and maintain the moved-this-frame flag.

use vstd::prelude::*;

use crate::geom::{
    cursor_to_world, point_within, screen_to_world, window_ok, Point2, PointView, WindowSize,
    WindowView, MAX_DIM,
};
use crate::world::{cursor_ok, CursorView, World};

verus! {

/// Mathematical image of an optional screen point.
pub open spec fn opt_point_view(o: Option<Point2>) -> Option<PointView> {
    match o {
        Option::Some(p) => Option::Some(p@),
        Option::None => Option::None,
    }
}

/// Bounded pointer input for one frame: the screen coordinate, if the
/// pointer moved, plus window dimensions and camera translation.
pub open spec fn pointer_input_ok(
    moved_to: Option<PointView>,
    window: WindowView,
    camera: PointView,
) -> bool {
    &&& window_ok(window)
    &&& point_within(camera, MAX_DIM as int)
    &&& match moved_to {
        Option::Some(p) => point_within(p, MAX_DIM as int),
        Option::None => true,
    }
}

/// The cursor after tracking one frame's pointer input. When the pointer
/// moved, the world position becomes the converted screen coordinate and
/// the moved flag is set; otherwise the position holds and the flag is
/// cleared. The drag offset is never touched here.
pub open spec fn cursor_step(
    c: CursorView,
    moved_to: Option<PointView>,
    window: WindowView,
    camera: PointView,
) -> CursorView {
    match moved_to {
        Option::Some(p) => CursorView {
            world: screen_to_world(window, camera, p),
            offset: c.offset,
            moved: true,
        },
        Option::None => CursorView { world: c.world, offset: c.offset, moved: false },
    }
}

impl World {
    /// Updates the cursor singleton from this frame's pointer input,
    /// exactly as `cursor_step` describes. Entities are untouched.
    pub fn track_cursor(&mut self, moved_to: Option<Point2>, window: WindowSize, camera: Point2)
        requires
            cursor_ok(old(self)@.cursor),
            pointer_input_ok(opt_point_view(moved_to), window@, camera@),
        ensures
            final(self)@.cursor == cursor_step(
                old(self)@.cursor,
                opt_point_view(moved_to),
                window@,
                camera@,
            ),
            final(self)@.entities == old(self)@.entities,
            cursor_ok(final(self)@.cursor),
    {
        match moved_to {
            Option::Some(p) => {
                self.cursor.world = cursor_to_world(window, camera, p);
                self.cursor.moved = true;
            },
            Option::None => {
                self.cursor.moved = false;
            },
        }
    }
}

} // verus!
