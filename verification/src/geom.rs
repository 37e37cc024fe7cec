//! Integer plane geometry: points, window dimensions, the hover test over
//! axis-aligned boxes, and the screen-to-world coordinate conversion.

use vstd::prelude::*;

verus! {

/// Upper bound, in pixels, on window dimensions, screen coordinates, camera
/// translations and bounding-box half extents. Every sum the engine forms
/// stays within a few multiples of this bound, far from `i64` overflow.
pub const MAX_DIM: i64 = 1048576;

/// A two-dimensional point or vector in whole pixels.
#[derive(Clone, Copy, Debug, PartialEq, Eq, Structural)]
pub struct Point2 {
    pub x: i64,
    pub y: i64,
}

/// Window dimensions in whole pixels.
#[derive(Clone, Copy, Debug, PartialEq, Eq, Structural)]
pub struct WindowSize {
    pub width: i64,
    pub height: i64,
}

/// Mathematical image of a point: a pair of unbounded integers.
pub ghost struct PointView {
    pub x: int,
    pub y: int,
}

/// Mathematical image of a window size.
pub ghost struct WindowView {
    pub width: int,
    pub height: int,
}

impl View for Point2 {
    type V = PointView;

    open spec fn view(&self) -> PointView {
        PointView { x: self.x as int, y: self.y as int }
    }
}

impl View for WindowSize {
    type V = WindowView;

    open spec fn view(&self) -> WindowView {
        WindowView { width: self.width as int, height: self.height as int }
    }
}

/// Both coordinates of `p` lie in `[-bound, bound]`.
pub open spec fn point_within(p: PointView, bound: int) -> bool {
    -bound <= p.x <= bound && -bound <= p.y <= bound
}

/// A window size the engine accepts: non-negative and bounded.
pub open spec fn window_ok(w: WindowView) -> bool {
    0 <= w.width <= MAX_DIM && 0 <= w.height <= MAX_DIM
}

/// Bound on cursor world coordinates: the conversion below maps bounded
/// screen input to at most this magnitude.
pub open spec fn world_bound() -> int {
    3 * (MAX_DIM as int)
}

/// Bound on entity positions: a dragged entity follows the cursor at an
/// offset of at most one half extent, so positions stay within this.
pub open spec fn pos_bound() -> int {
    4 * (MAX_DIM as int)
}

/// The hover test. A point is inside the box with the given center and half
/// extent iff it lies strictly between `center - half` and `center + half`
/// on both axes; a point exactly on an edge counts as outside.
pub open spec fn contains_point(center: PointView, half: PointView, p: PointView) -> bool {
    center.x - half.x < p.x < center.x + half.x && center.y - half.y < p.y < center.y + half.y
}

/// The screen-to-world conversion: recenter the screen coordinate on the
/// middle of the window, then translate by the camera position.
pub open spec fn screen_to_world(window: WindowView, camera: PointView, screen: PointView) -> PointView {
    PointView {
        x: screen.x - window.width / 2 + camera.x,
        y: screen.y - window.height / 2 + camera.y,
    }
}

/// Executable hover test.
pub fn point_in_box(center: Point2, half: Point2, p: Point2) -> (r: bool)
    requires
        point_within(center@, pos_bound()),
        point_within(half@, MAX_DIM as int),
        point_within(p@, world_bound()),
    ensures
        r == contains_point(center@, half@, p@),
{
    center.x - half.x < p.x && p.x < center.x + half.x && center.y - half.y < p.y && p.y
        < center.y + half.y
}

/// Executable screen-to-world conversion.
pub fn cursor_to_world(window: WindowSize, camera: Point2, screen: Point2) -> (r: Point2)
    requires
        window_ok(window@),
        point_within(camera@, MAX_DIM as int),
        point_within(screen@, MAX_DIM as int),
    ensures
        r@ == screen_to_world(window@, camera@, screen@),
        point_within(r@, world_bound()),
{
    Point2 { x: screen.x - window.width / 2 + camera.x, y: screen.y - window.height / 2 + camera.y }
}

/// Converting the screen point at the exact center of the window yields the
/// camera translation itself, for every window size and camera position.
pub proof fn lemma_center_maps_to_camera(window: WindowView, camera: PointView)
    ensures
        screen_to_world(
            window,
            camera,
            PointView { x: window.width / 2, y: window.height / 2 },
        ) == camera,
{
}

/// A point lying exactly on any edge of a box is classified as outside.
pub proof fn lemma_boundary_outside(center: PointView, half: PointView, p: PointView)
    requires
        p.x == center.x - half.x || p.x == center.x + half.x || p.y == center.y - half.y || p.y
            == center.y + half.y,
    ensures
        !contains_point(center, half, p),
{
}

} // verus!
