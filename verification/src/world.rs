//! The engine's state: a cursor singleton and a list of entity records, each
//! carrying its bounding box, capability flags and drag phase, together with
//! the well-formedness invariant that every frame preserves.

use vstd::prelude::*;

use crate::geom::{
    contains_point, point_within, pos_bound, world_bound, Point2, PointView, MAX_DIM,
};

verus! {

/// Phase of the per-entity drag state machine.
#[derive(Clone, Copy, Debug, PartialEq, Eq, Structural)]
pub enum DragPhase {
    /// Not being dragged.
    Idle,
    /// Currently carried by the pointer; the engine moves the entity to the
    /// cursor position plus the drag offset every frame.
    Dragging,
    /// Released this frame; held only until drop resolution runs, which
    /// returns the entity to `Idle` in the same frame.
    Dropped,
}

/// One spatially interactive entity: an opaque identifier, a bounding box
/// given by center position and half extent, the capabilities declared at
/// spawn time, and the transient hover and drag state the engine maintains.
#[derive(Clone, Copy, Debug, PartialEq, Eq, Structural)]
pub struct EntityRecord {
    /// Opaque identifier, unique within a `World`.
    pub id: u64,
    /// Center of the bounding box; also the entity's drawn position.
    pub position: Point2,
    /// Half extent of the bounding box on each axis.
    pub half_extent: Point2,
    /// Eligible for pointer-hover highlighting.
    pub hoverable: bool,
    /// Can be picked up by the pointer.
    pub draggable: bool,
    /// Can receive a dropped entity.
    pub drop_target: bool,
    /// Hover state, maintained by the engine.
    pub hovered: bool,
    /// Drag state, maintained by the engine.
    pub phase: DragPhase,
}

/// Cursor singleton: world position, the offset frozen at drag start, and
/// whether a pointer-moved event arrived this frame.
#[derive(Clone, Copy, Debug, PartialEq, Eq, Structural)]
pub struct CursorState {
    pub world: Point2,
    pub offset: Point2,
    pub moved: bool,
}

/// Mathematical image of an entity record.
pub ghost struct EntityView {
    pub id: u64,
    pub position: PointView,
    pub half_extent: PointView,
    pub hoverable: bool,
    pub draggable: bool,
    pub drop_target: bool,
    pub hovered: bool,
    pub phase: DragPhase,
}

/// Mathematical image of the cursor singleton.
pub ghost struct CursorView {
    pub world: PointView,
    pub offset: PointView,
    pub moved: bool,
}

/// Mathematical image of the whole engine state.
pub ghost struct WorldView {
    pub entities: Seq<EntityView>,
    pub cursor: CursorView,
}

impl View for EntityRecord {
    type V = EntityView;

    open spec fn view(&self) -> EntityView {
        EntityView {
            id: self.id,
            position: self.position@,
            half_extent: self.half_extent@,
            hoverable: self.hoverable,
            draggable: self.draggable,
            drop_target: self.drop_target,
            hovered: self.hovered,
            phase: self.phase,
        }
    }
}

impl View for CursorState {
    type V = CursorView;

    open spec fn view(&self) -> CursorView {
        CursorView { world: self.world@, offset: self.offset@, moved: self.moved }
    }
}

/// The engine state: every interactive entity plus the cursor singleton.
pub struct World {
    pub entities: Vec<EntityRecord>,
    pub cursor: CursorState,
}

impl View for World {
    type V = WorldView;

    open spec fn view(&self) -> WorldView {
        WorldView {
            entities: self.entities@.map_values(|e: EntityRecord| e@),
            cursor: self.cursor@,
        }
    }
}

/// Dimensional sanity of one entity: non-negative, bounded half extents and
/// a bounded position.
pub open spec fn entity_dims_ok(e: EntityView) -> bool {
    &&& 0 <= e.half_extent.x <= MAX_DIM
    &&& 0 <= e.half_extent.y <= MAX_DIM
    &&& point_within(e.position, pos_bound())
}

/// Bounds on the cursor singleton: the world position lies within what the
/// coordinate conversion can produce, and the drag offset within one half
/// extent.
pub open spec fn cursor_ok(c: CursorView) -> bool {
    &&& point_within(c.world, world_bound())
    &&& point_within(c.offset, MAX_DIM as int)
}

/// Some entity is currently being dragged.
pub open spec fn any_dragging(s: Seq<EntityView>) -> bool {
    exists|i: int| 0 <= i < s.len() && s[i].phase == DragPhase::Dragging
}

/// All entities have bounded boxes.
pub open spec fn entities_bounded(s: Seq<EntityView>) -> bool {
    forall|i: int| 0 <= i < s.len() ==> entity_dims_ok(#[trigger] s[i])
}

/// Identifiers are pairwise distinct.
pub open spec fn ids_unique(s: Seq<EntityView>) -> bool {
    forall|i: int, j: int| 0 <= i < j < s.len() ==> #[trigger] s[i].id != #[trigger] s[j].id
}

/// Only hoverable entities and drop targets hold the hover mark.
pub open spec fn hover_marks_ok(s: Seq<EntityView>) -> bool {
    forall|i: int|
        0 <= i < s.len() && (#[trigger] s[i]).hovered ==> (s[i].hoverable || s[i].drop_target)
}

/// A hovered entity's box really contains the cursor's world position:
/// hover state is geometrically consistent.
pub open spec fn hover_consistent(w: WorldView) -> bool {
    forall|i: int|
        0 <= i < w.entities.len() && (#[trigger] w.entities[i]).hovered ==> contains_point(
            w.entities[i].position,
            w.entities[i].half_extent,
            w.cursor.world,
        )
}

/// Like `hover_consistent`, but demanded only of entities that are not
/// currently being dragged: the hover pass skips a dragged entity, so its
/// mark may go stale until its release refreshes it.
pub open spec fn hover_consistent_undragged(w: WorldView) -> bool {
    forall|i: int|
        0 <= i < w.entities.len() && (#[trigger] w.entities[i]).hovered && w.entities[i].phase
            != DragPhase::Dragging ==> contains_point(
            w.entities[i].position,
            w.entities[i].half_extent,
            w.cursor.world,
        )
}

/// No entity is in the transient `Dropped` phase.
pub open spec fn no_dropped(s: Seq<EntityView>) -> bool {
    forall|i: int| 0 <= i < s.len() ==> (#[trigger] s[i]).phase != DragPhase::Dropped
}

/// At most one entity is being dragged (single-pointer model).
pub open spec fn single_drag(s: Seq<EntityView>) -> bool {
    forall|i: int, j: int|
        0 <= i < s.len() && 0 <= j < s.len() && (#[trigger] s[i]).phase == DragPhase::Dragging && (
        #[trigger] s[j]).phase == DragPhase::Dragging ==> i == j
}

/// A dragged entity sits exactly at the cursor's world position plus the
/// drag offset frozen at pick-up time.
pub open spec fn drag_follows(w: WorldView) -> bool {
    forall|i: int|
        0 <= i < w.entities.len() && (#[trigger] w.entities[i]).phase == DragPhase::Dragging
            ==> w.entities[i].position == PointView {
            x: w.cursor.world.x + w.cursor.offset.x,
            y: w.cursor.world.y + w.cursor.offset.y,
        }
}

/// Well-formedness of the engine state, preserved by every frame.
pub open spec fn wf(w: WorldView) -> bool {
    &&& cursor_ok(w.cursor)
    &&& entities_bounded(w.entities)
    &&& ids_unique(w.entities)
    &&& hover_marks_ok(w.entities)
    &&& hover_consistent(w)
    &&& no_dropped(w.entities)
    &&& single_drag(w.entities)
    &&& drag_follows(w)
}

/// Index of the first entity carrying the given identifier, at or after
/// `i`; -1 when none does.
pub open spec fn find_index(s: Seq<EntityView>, id: u64, i: int) -> int
    decreases s.len() - i,
{
    if i < 0 || i >= s.len() {
        -1
    } else if s[i].id == id {
        i
    } else {
        find_index(s, id, i + 1)
    }
}

impl World {
    /// An empty world: no entities, cursor at the origin.
    pub fn new() -> (w: World)
        ensures
            w@.entities.len() == 0,
            w@.cursor.world == (PointView { x: 0, y: 0 }),
            w@.cursor.offset == (PointView { x: 0, y: 0 }),
            !w@.cursor.moved,
            wf(w@),
    {
        World {
            entities: Vec::new(),
            cursor: CursorState {
                world: Point2 { x: 0, y: 0 },
                offset: Point2 { x: 0, y: 0 },
                moved: false,
            },
        }
    }

    /// Number of entities.
    pub fn len(&self) -> (n: usize)
        ensures
            n == self@.entities.len(),
    {
        self.entities.len()
    }

    /// Index of the entity carrying the given identifier, if any.
    pub fn find_entity(&self, id: u64) -> (r: Option<usize>)
        ensures
            match r {
                Option::Some(i) => 0 <= i < self@.entities.len() && find_index(
                    self@.entities,
                    id,
                    0,
                ) == i,
                Option::None => find_index(self@.entities, id, 0) == -1,
            },
    {
        let n = self.entities.len();
        let mut i: usize = 0;
        while i < n
            invariant
                0 <= i <= n,
                n == self@.entities.len(),
                self@.entities.len() == self.entities@.len(),
                find_index(self@.entities, id, 0) == find_index(self@.entities, id, i as int),
            decreases n - i,
        {
            if self.entities[i].id == id {
                assert(self@.entities[i as int].id == id);
                return Option::Some(i);
            }
            assert(self@.entities[i as int].id != id);
            i += 1;
        }
        Option::None
    }

    /// Moves the entity carrying the given identifier, as scene code does
    /// between frames. The entity's hover mark is cleared at the same
    /// time: its old mark may no longer match the new position, and the
    /// hover pass refreshes it on the next cursor move. Refuses (returning
    /// `false` and changing nothing) an unknown identifier, an
    /// out-of-bounds position, or an entity currently being dragged,
    /// whose position the engine owns.
    pub fn set_position(&mut self, id: u64, position: Point2) -> (ok: bool)
        requires
            wf(old(self)@),
        ensures
            wf(final(self)@),
            final(self)@.cursor == old(self)@.cursor,
            ok == (find_index(old(self)@.entities, id, 0) >= 0 && point_within(
                position@,
                pos_bound(),
            ) && old(self)@.entities[find_index(old(self)@.entities, id, 0)].phase
                != DragPhase::Dragging),
            ok ==> final(self)@.entities == old(self)@.entities.update(
                find_index(old(self)@.entities, id, 0),
                EntityView {
                    position: position@,
                    hovered: false,
                    ..old(self)@.entities[find_index(old(self)@.entities, id, 0)]
                },
            ),
            !ok ==> final(self)@.entities == old(self)@.entities,
    {
        let bounded = -MAX_DIM * 4 <= position.x && position.x <= MAX_DIM * 4 && -MAX_DIM * 4
            <= position.y && position.y <= MAX_DIM * 4;
        match self.find_entity(id) {
            Option::Some(i) => {
                let e = self.entities[i];
                assert(e@ == self@.entities[i as int]);
                if !bounded || e.phase == DragPhase::Dragging {
                    return false;
                }
                let ghost prev = self@.entities;
                self.entities.set(
                    i,
                    EntityRecord { position, hovered: false, ..e },
                );
                proof {
                    assert forall|k: int|
                        0 <= k < prev.len() && k != i implies #[trigger] self@.entities[k]
                        == prev[k] by {
                        assert(self.entities@[k]@ == prev[k]);
                    }
                    assert(self@.entities[i as int] == (EntityView {
                        position: position@,
                        hovered: false,
                        ..prev[i as int]
                    }));
                    assert(self@.entities =~= prev.update(
                        i as int,
                        EntityView { position: position@, hovered: false, ..prev[i as int] },
                    ));
                }
                true
            },
            Option::None => false,
        }
    }

    /// Removes the entity carrying the given identifier, as scene code
    /// does when a token is discarded. Refuses an unknown identifier.
    pub fn despawn(&mut self, id: u64) -> (ok: bool)
        requires
            wf(old(self)@),
        ensures
            wf(final(self)@),
            final(self)@.cursor == old(self)@.cursor,
            ok == (find_index(old(self)@.entities, id, 0) >= 0),
            ok ==> final(self)@.entities == old(self)@.entities.remove(
                find_index(old(self)@.entities, id, 0),
            ),
            !ok ==> final(self)@.entities == old(self)@.entities,
    {
        match self.find_entity(id) {
            Option::Some(i) => {
                let ghost prev = self@.entities;
                self.entities.remove(i);
                proof {
                    assert(self@.entities =~= prev.remove(i as int));
                    let w = self@;
                    let n = w.entities.len() as int;
                    assert forall|k: int| 0 <= k < n implies #[trigger] w.entities[k] == (if k
                        < i as int {
                        prev[k]
                    } else {
                        prev[k + 1]
                    }) by {}
                }
                true
            },
            Option::None => false,
        }
    }

    /// Whether some entity is currently in the `Dragging` phase.
    pub fn drag_in_progress(&self) -> (r: bool)
        ensures
            r == any_dragging(self@.entities),
    {
        let mut i: usize = 0;
        while i < self.entities.len()
            invariant
                0 <= i <= self@.entities.len(),
                self@.entities.len() == self.entities@.len(),
                forall|k: int|
                    0 <= k < i ==> (#[trigger] self@.entities[k]).phase != DragPhase::Dragging,
            decreases self.entities.len() - i,
        {
            if self.entities[i].phase == DragPhase::Dragging {
                assert(self@.entities[i as int].phase == DragPhase::Dragging);
                return true;
            }
            assert(self@.entities[i as int].phase != DragPhase::Dragging);
            i += 1;
        }
        false
    }

    /// Whether some entity already carries the given identifier.
    pub fn id_in_use(&self, id: u64) -> (r: bool)
        ensures
            r == exists|i: int|
                0 <= i < self@.entities.len() && (#[trigger] self@.entities[i]).id == id,
    {
        let mut i: usize = 0;
        while i < self.entities.len()
            invariant
                0 <= i <= self@.entities.len(),
                self@.entities.len() == self.entities@.len(),
                forall|k: int| 0 <= k < i ==> (#[trigger] self@.entities[k]).id != id,
            decreases self.entities.len() - i,
        {
            if self.entities[i].id == id {
                assert(self@.entities[i as int].id == id);
                return true;
            }
            assert(self@.entities[i as int].id != id);
            i += 1;
        }
        false
    }

    /// Declares a new entity with the given identifier, bounding box and
    /// capabilities. Refuses (returning `false` and leaving the world
    /// unchanged) an identifier already in use or an out-of-bounds box;
    /// otherwise appends the entity, unhovered and idle.
    pub fn spawn(
        &mut self,
        id: u64,
        position: Point2,
        half_extent: Point2,
        hoverable: bool,
        draggable: bool,
        drop_target: bool,
    ) -> (ok: bool)
        requires
            wf(old(self)@),
        ensures
            wf(final(self)@),
            final(self)@.cursor == old(self)@.cursor,
            ok == (point_within(position@, pos_bound()) && 0 <= half_extent@.x <= MAX_DIM && 0
                <= half_extent@.y <= MAX_DIM && (forall|i: int|
                0 <= i < old(self)@.entities.len() ==> (#[trigger] old(
                    self,
                )@.entities[i]).id != id)),
            ok ==> final(self)@.entities == old(self)@.entities.push(
                EntityView {
                    id,
                    position: position@,
                    half_extent: half_extent@,
                    hoverable,
                    draggable,
                    drop_target,
                    hovered: false,
                    phase: DragPhase::Idle,
                },
            ),
            !ok ==> final(self)@.entities == old(self)@.entities,
    {
        let dims_ok = -MAX_DIM * 4 <= position.x && position.x <= MAX_DIM * 4 && -MAX_DIM * 4
            <= position.y && position.y <= MAX_DIM * 4 && 0 <= half_extent.x && half_extent.x
            <= MAX_DIM && 0 <= half_extent.y && half_extent.y <= MAX_DIM;
        if !dims_ok || self.id_in_use(id) {
            return false;
        }
        let record = EntityRecord {
            id,
            position,
            half_extent,
            hoverable,
            draggable,
            drop_target,
            hovered: false,
            phase: DragPhase::Idle,
        };
        self.entities.push(record);
        proof {
            assert(self@.entities =~= old(self)@.entities.push(record@));
            let w = self@;
            let n = old(self)@.entities.len() as int;
            assert forall|i: int| 0 <= i < w.entities.len() implies entity_dims_ok(
                #[trigger] w.entities[i],
            ) by {
                if i < n {
                    assert(w.entities[i] == old(self)@.entities[i]);
                }
            }
        }
        true
    }
}

} // verus!
