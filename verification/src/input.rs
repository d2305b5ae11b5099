//! The input state the machine tracks between platform events, and pointer
//! routing: capture, when set, overrides geometric hit-testing.
use vstd::prelude::*;
use crate::entity::Entity;
use crate::events::MouseButton;
use crate::geometry::BoundingBox;
use crate::geometry::COORD_MAX;
use crate::ime::ImeState;

verus! {

/// Everything the input state machine tracks: which entity is hovered,
/// focused, active and captured, the pressed button, the cursor position,
/// and the IME composition state.
#[derive(Debug)]
pub struct InputState {
    /// The entity under the cursor by hit-testing.
    pub hovered: Entity,
    /// The single entity holding keyboard focus.
    pub focused: Entity,
    /// The entity currently being interacted with, if any.
    pub active: Option<Entity>,
    /// When set, all pointer events route to this entity regardless of
    /// geometry.
    pub captured: Option<Entity>,
    /// The mouse button held down, if any.
    pub pressed: Option<MouseButton>,
    pub cursor_x: i64,
    pub cursor_y: i64,
    /// The IME composition state.
    pub ime: ImeState,
}

impl InputState {
    /// The idle state: everything points at the root, nothing pressed,
    /// captured or composing.
    pub fn new() -> (r: InputState)
        ensures
            r.hovered == (Entity { index: 0u32, generation: 0u32 }),
            r.focused == (Entity { index: 0u32, generation: 0u32 }),
            (r.active is None),
            (r.captured is None),
            (r.pressed is None),
            r.cursor_x == 0,
            r.cursor_y == 0,
            r.ime == ImeState::Inactive,
    {
        InputState {
            hovered: Entity::root(),
            focused: Entity::root(),
            active: Option::None,
            captured: Option::None,
            pressed: Option::None,
            cursor_x: 0,
            cursor_y: 0,
            ime: ImeState::Inactive,
        }
    }

    pub open spec fn cursor_wf(self) -> bool {
        -COORD_MAX <= self.cursor_x <= COORD_MAX && -COORD_MAX <= self.cursor_y <= COORD_MAX
    }
}

/// Where a pointer event goes: to the captured entity when there is one,
/// and to the hit-tested entity otherwise.
pub open spec fn route_pointer_spec(captured: Option<Entity>, hit: Entity) -> Entity {
    match captured {
        Option::Some(e) => e,
        Option::None => hit,
    }
}

/// Routes one pointer event.
pub fn route_pointer(captured: Option<Entity>, hit: Entity) -> (r: Entity)
    ensures
        r == route_pointer_spec(captured, hit),
{
    match captured {
        Option::Some(e) => e,
        Option::None => hit,
    }
}

/// Capture overrides hit-testing: while `e` holds the capture, a pointer
/// event routes to `e` even when the cursor lies outside `e`'s bounding box
/// — whatever entity hit-testing would have produced. A drag interaction
/// needs this, since the cursor may leave the dragged element mid-drag.
pub proof fn lemma_capture_overrides_hit_test(
    captured: Option<Entity>,
    e: Entity,
    hit: Entity,
    bounds: BoundingBox,
    px: int,
    py: int,
)
    requires
        captured == Option::Some(e),
        !bounds.contains_spec(px, py),
    ensures
        route_pointer_spec(captured, hit) == e,
{
}

} // verus!
