//! A scaled-down retained-mode GUI core: a tree of entities bound reactively
//! to typed application models, with an event queue and dispatcher
//! (direct, bubbling and subtree routing with capture and consumption),
//! lenses and bindings for change propagation, and an input state machine
//! deriving high-level interactions from raw pointer, keyboard and IME events.
use vstd::prelude::*;

pub mod backend;
pub mod context;
pub mod entity;
pub mod environment;
pub mod events;
pub mod geometry;
pub mod ime;
pub mod input;
pub mod lens;
pub mod models;
pub mod scrollbar;
pub mod units;

verus! {

/// Scale for fixed-point fractions: values in `[0, 1]` are stored as
/// integer multiples of one millionth.
pub const SCALE: i64 = 1_000_000;

/// Clamps a fixed-point value to the unit interval `[0, SCALE]`.
pub fn clamp_unit(v: i64) -> (r: i64)
    ensures
        r == clamp_unit_spec(v as int),
{
    if v < 0 {
        0
    } else if v > SCALE {
        SCALE
    } else {
        v
    }
}

/// The unit-interval clamp on mathematical integers.
pub open spec fn clamp_unit_spec(v: int) -> int {
    if v < 0 {
        0
    } else if v > SCALE {
        SCALE as int
    } else {
        v
    }
}

} // verus!
