//! The toroidal arena: coordinates that leave one edge teleport to the
//! opposite edge, one axis at a time.

use vstd::prelude::*;
use crate::vec2::Vec2;

verus! {

/// Hard wraparound of one coordinate: at or past the upper bound it resets
/// to zero, below zero it resets to the upper bound, and in between it is
/// untouched. A deliberate teleport, not a modulo.
pub open spec fn spec_wrap(x: int, bound: int) -> int
    recommends
        bound > 0,
{
    if x >= bound {
        0
    } else if x < 0 {
        bound
    } else {
        x
    }
}

/// Wraparound at the boundary, stated for each edge: the upper bound maps
/// to zero, anything below zero maps to the upper bound, anything inside
/// stays put, and wrapping a second time changes nothing further once a
/// coordinate sits at the boundary image itself.
pub proof fn lemma_wrap_boundary(x: int, bound: int)
    requires
        bound > 0,
    ensures
        spec_wrap(bound, bound) == 0,
        x < 0 ==> spec_wrap(x, bound) == bound,
        0 <= x < bound ==> spec_wrap(x, bound) == x,
        spec_wrap(spec_wrap(bound, bound), bound) == spec_wrap(bound, bound),
        0 <= spec_wrap(x, bound) <= bound,
{
}

/// Wrap one coordinate into the arena.
pub fn wrap_coord(x: i64, bound: i64) -> (r: i64)
    requires
        bound > 0,
    ensures
        r == spec_wrap(x as int, bound as int),
        0 <= r <= bound,
{
    if x >= bound {
        0
    } else if x < 0 {
        bound
    } else {
        x
    }
}

/// Wrap a position into the arena, each axis independently.
pub fn wrap_vec(p: Vec2, width: i64, height: i64) -> (r: Vec2)
    requires
        width > 0,
        height > 0,
    ensures
        r.x == spec_wrap(p.x as int, width as int),
        r.y == spec_wrap(p.y as int, height as int),
        0 <= r.x <= width,
        0 <= r.y <= height,
{
    Vec2 { x: wrap_coord(p.x, width), y: wrap_coord(p.y, height) }
}

} // verus!
